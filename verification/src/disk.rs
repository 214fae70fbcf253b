//! A model of the filesystem, and what a transfer does to it.
//!
//! The organizer only asks; the caller performs. The laws of this module say
//! what the requests of a transfer amount to on a disk that does what it is
//! asked: the model knows the three places a transfer touches and takes a
//! request that failed to have changed nothing.

use crate::organizer::{
    first_step, next_step, requests_ahead, FsAction, FsOutcome, OperationMode, Platform, Step,
};
use vstd::prelude::*;

verus! {

/// The three places of a transfer. Source and destination are taken to be
/// two different files.
pub ghost struct Disk {
    /// What the source file holds, if it exists.
    pub source: Option<Seq<u8>>,
    /// Whether the destination directory exists, with all above it.
    pub directory: bool,
    /// What the destination file holds, if it exists.
    pub target: Option<Seq<u8>>,
}

impl Disk {
    /// Whether the disk can give `outcome` as its answer to `action`. Any
    /// request to the filesystem but a probe can fail. A probe tells the
    /// truth; a file is read, renamed, linked or removed only where it is.
    pub open spec fn can_answer(self, action: FsAction, outcome: FsOutcome) -> bool {
        match outcome {
            FsOutcome::Failed(_) => action != FsAction::Report && action != FsAction::ProbeTarget,
            FsOutcome::Found => action == FsAction::ProbeTarget && self.target is Some,
            FsOutcome::Missing => action == FsAction::ProbeTarget && self.target is None,
            FsOutcome::Done => match action {
                FsAction::Report | FsAction::CreateTargetDir => true,
                FsAction::ProbeTarget => false,
                FsAction::RemoveTarget => self.target is Some,
                FsAction::RenameSource | FsAction::CopySource | FsAction::LinkSource
                | FsAction::RemoveSource => self.source is Some,
            },
        }
    }

    /// The answer to `action` of a disk on which nothing fails.
    pub open spec fn answer_in_order(self, action: FsAction) -> FsOutcome {
        if action != FsAction::ProbeTarget {
            FsOutcome::Done
        } else if self.target is Some {
            FsOutcome::Found
        } else {
            FsOutcome::Missing
        }
    }

    /// Whether the disk holds the file in its place after a transfer in
    /// `mode` that began on the disk `start`: the directory is there, the
    /// destination holds what the source held at the start, whatever it held
    /// before, and the source is gone after a move and as it was after a
    /// copy or a link.
    pub open spec fn has_received(self, mode: OperationMode, start: Disk) -> bool {
        &&& start.source is Some
        &&& self.directory
        &&& self.target == start.source
        &&& self.source == if mode == OperationMode::Move {
            None
        } else {
            start.source
        }
    }

    /// The disk once it has answered `outcome` to `action`.
    pub open spec fn after(self, action: FsAction, outcome: FsOutcome) -> Disk {
        if outcome is Failed {
            self
        } else {
            match action {
                FsAction::Report | FsAction::ProbeTarget => self,
                FsAction::CreateTargetDir => Disk { directory: true, ..self },
                FsAction::RemoveTarget => Disk { target: None, ..self },
                FsAction::RenameSource => Disk { source: None, target: self.source, ..self },
                FsAction::CopySource | FsAction::LinkSource => Disk {
                    target: self.source,
                    ..self
                },
                FsAction::RemoveSource => Disk { source: None, ..self },
            }
        }
    }
}

/// A transfer at work.
pub ghost struct Run {
    /// The platform whose error codes the answers carry.
    pub platform: Platform,
    /// The mode of the transfer.
    pub mode: OperationMode,
    /// The step that the transfer has reached.
    pub step: Step,
    /// The disk as it is at that step.
    pub disk: Disk,
}

impl Run {
    /// A transfer in `mode` at its first step on `disk`.
    pub open spec fn begin(
        platform: Platform,
        mode: OperationMode,
        dry_run: bool,
        disk: Disk,
    ) -> Run {
        Run { platform, mode, step: first_step(dry_run), disk }
    }

    /// The run after one answer to the pending request.
    pub open spec fn next(self, outcome: FsOutcome) -> Run {
        match self.step {
            Step::Perform(action) => Run {
                step: next_step(self.platform, self.mode, action, outcome),
                disk: self.disk.after(action, outcome),
                ..self
            },
            Step::Finish(_) => self,
        }
    }

    /// Whether `outcomes` are answers that the disk can give, one after the
    /// other, to the requests of the transfer from here on.
    pub open spec fn admits(self, outcomes: Seq<FsOutcome>) -> bool
        decreases outcomes.len(),
    {
        if outcomes.len() == 0 {
            true
        } else {
            match self.step {
                Step::Perform(action) => self.disk.can_answer(action, outcomes.first())
                    && self.next(outcomes.first()).admits(outcomes.drop_first()),
                Step::Finish(_) => false,
            }
        }
    }

    /// The run after the answers `outcomes`.
    pub open spec fn after_all(self, outcomes: Seq<FsOutcome>) -> Run
        decreases outcomes.len(),
    {
        if outcomes.len() == 0 {
            self
        } else {
            self.next(outcomes.first()).after_all(outcomes.drop_first())
        }
    }

    /// The answers that the transfer gets from here on, `count` of them at
    /// most, from a disk on which nothing fails.
    pub open spec fn answers_in_order(self, count: nat) -> Seq<FsOutcome>
        decreases count,
    {
        match self.step {
            Step::Perform(action) if count > 0 => {
                let answer = self.disk.answer_in_order(action);
                seq![answer] + self.next(answer).answers_in_order((count - 1) as nat)
            },
            _ => Seq::empty(),
        }
    }

    /// Whether the transfer has ended, and ended well.
    pub open spec fn has_ended_well(self) -> bool {
        self.step matches Step::Finish(result) && result is Ok
    }

    /// What holds of the disk when a transfer that began on the disk `start`
    /// asks for `action`: the source is untouched, the directory is there
    /// once it was asked for, and the file is moved only to a destination
    /// that is free.
    pub open spec fn is_ready_for(self, start: Disk, action: FsAction) -> bool {
        &&& self.disk.source == start.source
        &&& action != FsAction::CreateTargetDir ==> self.disk.directory
        &&& match action {
            FsAction::Report => false,
            FsAction::CreateTargetDir => self.disk == start,
            FsAction::ProbeTarget => self.disk.target == start.target,
            FsAction::RemoveTarget => self.disk.target is Some,
            FsAction::RenameSource => self.mode == OperationMode::Move && self.disk.target
                is None,
            FsAction::CopySource => self.mode != OperationMode::Link && self.disk.target is None,
            FsAction::LinkSource => self.mode == OperationMode::Link && self.disk.target
                is None,
            FsAction::RemoveSource => self.mode == OperationMode::Move && start.source is Some
                && self.disk.target == start.source,
        }
    }

    /// What holds of a transfer that began on the disk `start`, at every
    /// step: it is ready for what it asks, it has put the file in place when
    /// it has ended well, and it has left the source as it was when it has
    /// failed.
    pub open spec fn is_on_course(self, start: Disk) -> bool {
        match self.step {
            Step::Perform(action) => self.is_ready_for(start, action),
            Step::Finish(_) => if self.has_ended_well() {
                self.has_arrived(start)
            } else {
                self.disk.source == start.source
            },
        }
    }

    /// What holds of a transfer that has ended well: the file is in its
    /// place.
    pub open spec fn has_arrived(self, start: Disk) -> bool {
        self.disk.has_received(self.mode, start)
    }
}

/// One answer of the disk keeps a transfer on course.
proof fn lemma_one_answer(run: Run, start: Disk, outcome: FsOutcome)
    requires
        run.is_on_course(start),
        run.step matches Step::Perform(action) && run.disk.can_answer(action, outcome),
    ensures
        run.next(outcome).is_on_course(start),
{
}

/// The answers of the disk keep a transfer on course.
proof fn lemma_all_answers(run: Run, start: Disk, outcomes: Seq<FsOutcome>)
    requires
        run.is_on_course(start),
        run.admits(outcomes),
    ensures
        run.after_all(outcomes).is_on_course(start),
        run.after_all(outcomes).mode == run.mode,
    decreases outcomes.len(),
{
    if outcomes.len() > 0 {
        lemma_one_answer(run, start, outcomes.first());
        lemma_all_answers(run.next(outcomes.first()), start, outcomes.drop_first());
    }
}

/// Where nothing fails, a transfer that is on course and whose source
/// exists gets answers that the disk can give, and ends well on them.
proof fn lemma_answers_in_order(run: Run, start: Disk, count: nat)
    requires
        run.is_on_course(start),
        start.source is Some,
        run.step matches Step::Perform(action) ==> count >= requests_ahead(action),
        run.step is Finish ==> run.has_ended_well(),
    ensures
        run.admits(run.answers_in_order(count)),
        run.after_all(run.answers_in_order(count)).has_ended_well(),
        forall|i: int|
            0 <= i < run.answers_in_order(count).len() ==> !(
            #[trigger] run.answers_in_order(count)[i] is Failed),
    decreases count,
{
    let answers = run.answers_in_order(count);
    match run.step {
        Step::Perform(action) => {
            let answer = run.disk.answer_in_order(action);
            let then = run.next(answer);
            let rest = then.answers_in_order((count - 1) as nat);
            lemma_one_answer(run, start, answer);
            lemma_answers_in_order(then, start, (count - 1) as nat);
            assert(answers == seq![answer] + rest);
            assert(answers.first() == answer);
            assert(answers.drop_first() =~= rest);
            assert forall|i: int| 0 <= i < answers.len() implies !(
            #[trigger] answers[i] is Failed) by {
                if i > 0 {
                    assert(answers[i] == rest[i - 1]);
                }
            }
        },
        Step::Finish(_) => {
            assert(answers.len() == 0);
        },
    }
}

/// A dry run leaves the disk as it is: nothing is created, and no file is
/// moved, copied, linked or removed, whatever the mode. It ends well as soon
/// as its report was made.
pub proof fn lemma_dry_run_changes_nothing(
    platform: Platform,
    mode: OperationMode,
    disk: Disk,
    outcomes: Seq<FsOutcome>,
)
    requires
        Run::begin(platform, mode, true, disk).admits(outcomes),
    ensures
        Run::begin(platform, mode, true, disk).after_all(outcomes).disk == disk,
        outcomes.len() > 0 ==> Run::begin(platform, mode, true, disk).after_all(
            outcomes,
        ).has_ended_well(),
{
    let begin = Run::begin(platform, mode, true, disk);
    if outcomes.len() > 0 {
        let then = begin.next(outcomes.first());
        let rest = outcomes.drop_first();
        assert(then.step == Step::Finish(Ok(())) && then.disk == disk);
        assert(then.admits(rest));
        assert(rest.len() == 0);
        assert(then.after_all(rest) == then);
        assert(begin.after_all(outcomes) == then.after_all(rest));
    } else {
        assert(begin.after_all(outcomes) == begin);
    }
}

/// A transfer that ends well has put the file in place. The destination
/// directory exists. The destination holds what the source held, and
/// nothing of what may have been there before. After a move the source is
/// gone; after a copy or a link it is there as it was.
pub proof fn lemma_success_puts_the_file_in_place(
    platform: Platform,
    mode: OperationMode,
    disk: Disk,
    outcomes: Seq<FsOutcome>,
)
    requires
        Run::begin(platform, mode, false, disk).admits(outcomes),
        Run::begin(platform, mode, false, disk).after_all(outcomes).has_ended_well(),
    ensures
        Run::begin(platform, mode, false, disk).after_all(outcomes).disk.has_received(
            mode,
            disk,
        ),
{
    lemma_all_answers(Run::begin(platform, mode, false, disk), disk, outcomes);
}

/// Where the source exists and nothing fails, a transfer ends well: the
/// answers of a disk in order, four of them at most, bring it to its end
/// with the destination directory made, with all above it, and the file in
/// place.
pub proof fn lemma_transfer_succeeds_where_nothing_fails(
    platform: Platform,
    mode: OperationMode,
    disk: Disk,
)
    requires
        disk.source is Some,
    ensures
        Run::begin(platform, mode, false, disk).admits(
            Run::begin(platform, mode, false, disk).answers_in_order(6),
        ),
        Run::begin(platform, mode, false, disk).answers_in_order(6).len() <= 4,
        Run::begin(platform, mode, false, disk).after_all(
            Run::begin(platform, mode, false, disk).answers_in_order(6),
        ).has_ended_well(),
        Run::begin(platform, mode, false, disk).after_all(
            Run::begin(platform, mode, false, disk).answers_in_order(6),
        ).disk.has_received(mode, disk),
{
    let begin = Run::begin(platform, mode, false, disk);
    lemma_answers_in_order(begin, disk, 6);
    lemma_all_answers(begin, disk, begin.answers_in_order(6));
    reveal_with_fuel(Run::answers_in_order, 6);
}

/// A transfer that has not ended well has not lost the source: it is there
/// as it was, while the transfer is under way and after it has failed. That
/// holds also of a move whose copy was made and whose source could then not
/// be removed.
pub proof fn lemma_failure_keeps_the_source(
    platform: Platform,
    mode: OperationMode,
    disk: Disk,
    outcomes: Seq<FsOutcome>,
)
    requires
        Run::begin(platform, mode, false, disk).admits(outcomes),
        !Run::begin(platform, mode, false, disk).after_all(outcomes).has_ended_well(),
    ensures
        Run::begin(platform, mode, false, disk).after_all(outcomes).disk.source == disk.source,
{
    lemma_all_answers(Run::begin(platform, mode, false, disk), disk, outcomes);
}

/// A transfer that has not ended well can be made again from the start, in
/// the same mode or in another: where the second attempt ends well, the file
/// is in place as if the first had never been made.
pub proof fn lemma_second_attempt_starts_afresh(
    platform: Platform,
    first: OperationMode,
    second: OperationMode,
    disk: Disk,
    before: Seq<FsOutcome>,
    outcomes: Seq<FsOutcome>,
)
    requires
        Run::begin(platform, first, false, disk).admits(before),
        !Run::begin(platform, first, false, disk).after_all(before).has_ended_well(),
        Run::begin(
            platform,
            second,
            false,
            Run::begin(platform, first, false, disk).after_all(before).disk,
        ).admits(outcomes),
        Run::begin(
            platform,
            second,
            false,
            Run::begin(platform, first, false, disk).after_all(before).disk,
        ).after_all(outcomes).has_ended_well(),
    ensures
        Run::begin(
            platform,
            second,
            false,
            Run::begin(platform, first, false, disk).after_all(before).disk,
        ).after_all(outcomes).disk.has_received(second, disk),
{
    let between = Run::begin(platform, first, false, disk).after_all(before).disk;
    lemma_failure_keeps_the_source(platform, first, disk, before);
    lemma_success_puts_the_file_in_place(platform, second, between, outcomes);
}

} // verus!
