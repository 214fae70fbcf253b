//! The transfer of one parsed file into the directory of its show.
//!
//! The organizer touches no file. It decides: a [`Transfer`] names the next
//! filesystem request, the caller performs it and hands back what the
//! system answered, and the transfer moves on until it holds a result.

use crate::error::{AppError, IoFailure};
use crate::parser::AnimeFileInfo;
use vstd::prelude::*;
use vstd::string::StringExecFns;

verus! {

/// Error code of Windows for a hard link across volumes.
pub const ERROR_NOT_SAME_DEVICE: i32 = 17;

/// Error code of Unix for a hard link across filesystems.
pub const EXDEV: i32 = 18;

/// The family of operating systems whose error codes a transfer reads.
#[derive(Debug, Clone, Copy, PartialEq, Eq, Structural)]
pub enum Platform {
    /// Unix and its kin.
    Unix,
    /// Windows.
    Windows,
}

/// The code by which `platform` says that a hard link would cross from one
/// filesystem to another.
pub open spec fn cross_device_code(platform: Platform) -> i32 {
    match platform {
        Platform::Unix => EXDEV,
        Platform::Windows => ERROR_NOT_SAME_DEVICE,
    }
}

impl Platform {
    /// The code by which the platform says that a hard link would cross from
    /// one filesystem to another.
    pub fn cross_device_code(self) -> (code: i32)
        ensures
            code == cross_device_code(self),
    {
        match self {
            Platform::Unix => EXDEV,
            Platform::Windows => ERROR_NOT_SAME_DEVICE,
        }
    }
}

/// How a file reaches its destination.
#[derive(Debug, Clone, Copy, PartialEq, Eq, Structural)]
pub enum OperationMode {
    /// The file is moved.
    Move,
    /// The file is copied and the source stays.
    Copy,
    /// The destination becomes a hard link to the source.
    Link,
}

impl OperationMode {
    /// The word that stands for the mode on the command line.
    pub open spec fn name(self) -> Seq<char> {
        match self {
            OperationMode::Move => "move"@,
            OperationMode::Copy => "copy"@,
            OperationMode::Link => "link"@,
        }
    }

    /// The mode as text.
    pub fn to_string(&self) -> (text: String)
        ensures
            text@ == self.name(),
    {
        match self {
            OperationMode::Move => String::from_str("move"),
            OperationMode::Copy => String::from_str("copy"),
            OperationMode::Link => String::from_str("link"),
        }
    }
}

impl Default for OperationMode {
    fn default() -> (mode: OperationMode)
        ensures
            mode == OperationMode::Move,
    {
        OperationMode::Move
    }
}

/// One request to the filesystem, or to the terminal. The paths it is made
/// on are those of the [`Transfer`] that asks for it.
#[derive(Debug, Clone, Copy, PartialEq, Eq, Structural)]
pub enum FsAction {
    /// Print the line of a dry run.
    Report,
    /// Create the destination directory and every directory above it.
    CreateTargetDir,
    /// Look whether the destination file exists.
    ProbeTarget,
    /// Remove the destination file.
    RemoveTarget,
    /// Rename the source to the destination.
    RenameSource,
    /// Copy the contents of the source to the destination.
    CopySource,
    /// Remove the source.
    RemoveSource,
    /// Make the destination a hard link to the source.
    LinkSource,
}

/// What the system answered to a request.
#[derive(Debug, Clone, PartialEq, Eq)]
pub enum FsOutcome {
    /// The request was carried out.
    Done,
    /// The file that was looked for exists.
    Found,
    /// The file that was looked for does not exist.
    Missing,
    /// The request failed.
    Failed(IoFailure),
}

/// Where a transfer stands.
#[derive(Debug, PartialEq, Eq)]
pub enum Step {
    /// The request that has to be performed next.
    Perform(FsAction),
    /// The transfer is over, with this result.
    Finish(Result<(), AppError>),
}

/// The request that moves the file itself in `mode`.
pub open spec fn transfer_action(mode: OperationMode) -> FsAction {
    match mode {
        OperationMode::Move => FsAction::RenameSource,
        OperationMode::Copy => FsAction::CopySource,
        OperationMode::Link => FsAction::LinkSource,
    }
}

/// The error that a failed hard link is reported as on `platform`: a link
/// across devices where the failure carries the platform's own code for it,
/// an unsupported link where permission was denied, and the failure itself
/// in every other case.
pub open spec fn link_error(platform: Platform, failure: IoFailure) -> AppError {
    if failure.code == Some(cross_device_code(platform)) {
        AppError::CrossDeviceLink
    } else if failure.permission_denied {
        AppError::HardLinkNotSupported
    } else {
        AppError::Io(failure)
    }
}

/// The step a transfer begins with.
pub open spec fn first_step(dry_run: bool) -> Step {
    if dry_run {
        Step::Perform(FsAction::Report)
    } else {
        Step::Perform(FsAction::CreateTargetDir)
    }
}

/// The step that follows `action` once the system has answered `outcome`.
/// Every answer but `Failed` counts as success, and every answer but `Found`
/// to a probe says that the destination is free.
pub open spec fn next_step(
    platform: Platform,
    mode: OperationMode,
    action: FsAction,
    outcome: FsOutcome,
) -> Step {
    match action {
        FsAction::Report => Step::Finish(Ok(())),
        FsAction::CreateTargetDir => match outcome {
            FsOutcome::Failed(failure) => Step::Finish(Err(AppError::Io(failure))),
            _ => Step::Perform(FsAction::ProbeTarget),
        },
        FsAction::ProbeTarget => match outcome {
            FsOutcome::Found => Step::Perform(FsAction::RemoveTarget),
            _ => Step::Perform(transfer_action(mode)),
        },
        FsAction::RemoveTarget => match outcome {
            FsOutcome::Failed(failure) => Step::Finish(Err(AppError::Io(failure))),
            _ => Step::Perform(transfer_action(mode)),
        },
        FsAction::RenameSource => match outcome {
            FsOutcome::Failed(_) => Step::Perform(FsAction::CopySource),
            _ => Step::Finish(Ok(())),
        },
        FsAction::CopySource => match outcome {
            FsOutcome::Failed(failure) => Step::Finish(Err(AppError::Io(failure))),
            _ => if mode == OperationMode::Move {
                Step::Perform(FsAction::RemoveSource)
            } else {
                Step::Finish(Ok(()))
            },
        },
        FsAction::RemoveSource => match outcome {
            FsOutcome::Failed(failure) => Step::Finish(Err(AppError::Io(failure))),
            _ => Step::Finish(Ok(())),
        },
        FsAction::LinkSource => match outcome {
            FsOutcome::Failed(failure) => Step::Finish(Err(link_error(platform, failure))),
            _ => Step::Finish(Ok(())),
        },
    }
}

/// The step reached from `step` once the system has given the answers
/// `outcomes`, one to each request in turn. Answers that are left when the
/// transfer has finished are not read.
pub open spec fn step_after_all(
    platform: Platform,
    mode: OperationMode,
    step: Step,
    outcomes: Seq<FsOutcome>,
) -> Step
    decreases outcomes.len(),
{
    if outcomes.len() == 0 {
        step
    } else {
        match step {
            Step::Perform(action) => step_after_all(
                platform,
                mode,
                next_step(platform, mode, action, outcomes.first()),
                outcomes.drop_first(),
            ),
            Step::Finish(_) => step,
        }
    }
}

/// The largest number of requests that a transfer still makes once it has
/// asked for `action`, that one counted.
pub open spec fn requests_ahead(action: FsAction) -> nat {
    match action {
        FsAction::Report => 1,
        FsAction::CreateTargetDir => 6,
        FsAction::ProbeTarget => 5,
        FsAction::RemoveTarget => 4,
        FsAction::RenameSource => 3,
        FsAction::CopySource => 2,
        FsAction::RemoveSource => 1,
        FsAction::LinkSource => 1,
    }
}

/// Whether a transfer in `mode` that is no dry run can ask for `action`.
pub open spec fn belongs_to(mode: OperationMode, action: FsAction) -> bool {
    match action {
        FsAction::Report => false,
        FsAction::CreateTargetDir | FsAction::ProbeTarget | FsAction::RemoveTarget => true,
        FsAction::RenameSource | FsAction::RemoveSource => mode == OperationMode::Move,
        FsAction::CopySource => mode == OperationMode::Move || mode == OperationMode::Copy,
        FsAction::LinkSource => mode == OperationMode::Link,
    }
}

/// A transfer comes to its end: each request leaves fewer requests ahead,
/// and after six answers at most the transfer has finished.
pub proof fn lemma_transfer_finishes(
    platform: Platform,
    mode: OperationMode,
    action: FsAction,
    outcomes: Seq<FsOutcome>,
)
    requires
        outcomes.len() >= requests_ahead(action),
    ensures
        step_after_all(platform, mode, Step::Perform(action), outcomes) is Finish,
        requests_ahead(action) <= 6,
    decreases outcomes.len(),
{
    let next = next_step(platform, mode, action, outcomes.first());
    match next {
        Step::Perform(following) => {
            assert(requests_ahead(following) < requests_ahead(action));
            lemma_transfer_finishes(platform, mode, following, outcomes.drop_first());
        },
        Step::Finish(_) => {
            if outcomes.len() > 1 {
                assert(step_after_all(platform, mode, next, outcomes.drop_first()) == next);
            }
        },
    }
}

/// A dry run asks for nothing but its report and then ends well, whatever
/// the mode and whatever is answered: it makes no request to the filesystem.
pub proof fn lemma_dry_run_touches_nothing(
    platform: Platform,
    mode: OperationMode,
    outcomes: Seq<FsOutcome>,
)
    requires
        outcomes.len() > 0,
    ensures
        first_step(true) == Step::Perform(FsAction::Report),
        step_after_all(platform, mode, first_step(true), outcomes) == Step::Finish(Ok(())),
{
    let done = Step::Finish(Ok(()));
    assert(next_step(platform, mode, FsAction::Report, outcomes.first()) == done);
    assert(step_after_all(platform, mode, done, outcomes.drop_first()) == done);
}

/// One step of a transfer stays within its mode.
proof fn lemma_step_stays_in_mode(
    platform: Platform,
    mode: OperationMode,
    action: FsAction,
    outcome: FsOutcome,
)
    requires
        belongs_to(mode, action),
    ensures
        next_step(platform, mode, action, outcome) matches Step::Perform(following)
            ==> belongs_to(mode, following),
{
}

/// A transfer asks only for what belongs to its mode, whatever the system
/// answers: first for the destination directory, and from then on a copy
/// never for a change of the source, a link never for a copy or a move in
/// its place, and none ever for a report.
pub proof fn lemma_requests_belong_to_mode(
    platform: Platform,
    mode: OperationMode,
    action: FsAction,
    outcomes: Seq<FsOutcome>,
)
    requires
        belongs_to(mode, action),
    ensures
        first_step(false) == Step::Perform(FsAction::CreateTargetDir),
        belongs_to(mode, FsAction::CreateTargetDir),
        step_after_all(platform, mode, Step::Perform(action), outcomes) matches Step::Perform(
            reached,
        ) ==> belongs_to(mode, reached),
    decreases outcomes.len(),
{
    if outcomes.len() > 0 {
        lemma_step_stays_in_mode(platform, mode, action, outcomes.first());
        match next_step(platform, mode, action, outcomes.first()) {
            Step::Perform(following) => {
                lemma_requests_belong_to_mode(
                    platform,
                    mode,
                    following,
                    outcomes.drop_first(),
                );
            },
            Step::Finish(_) => {
                let next = next_step(platform, mode, action, outcomes.first());
                assert(step_after_all(platform, mode, next, outcomes.drop_first()) == next);
            },
        }
    }
}

/// No failure is swallowed: a request that fails ends the transfer with an
/// error that holds the failure or names its kind. The one exception is the
/// rename of a move, after which the copy is tried; a probe has no failure
/// to report.
pub proof fn lemma_failures_are_reported(
    platform: Platform,
    mode: OperationMode,
    action: FsAction,
    failure: IoFailure,
)
    requires
        belongs_to(mode, action),
        action != FsAction::RenameSource,
        action != FsAction::ProbeTarget,
    ensures
        next_step(platform, mode, action, FsOutcome::Failed(failure)) == Step::Finish(
            Err(
                if action == FsAction::LinkSource {
                    link_error(platform, failure)
                } else {
                    AppError::Io(failure)
                },
            ),
        ),
{
}

/// A failed hard link is a link across devices exactly when the failure
/// carries the platform's own code for that. The code that another platform
/// uses for it means something else here: such a failure, like any other, is
/// reported as what it is, or as an unsupported link where permission was
/// denied.
pub proof fn lemma_link_failure_goes_by_the_platform(platform: Platform, failure: IoFailure)
    ensures
        link_error(platform, failure) is CrossDeviceLink <==> failure.code == Some(
            cross_device_code(platform),
        ),
        failure.code != Some(cross_device_code(platform)) && !failure.permission_denied
            ==> link_error(platform, failure) == AppError::Io(failure),
        failure.code != Some(cross_device_code(platform)) && failure.permission_denied
            ==> link_error(platform, failure) is HardLinkNotSupported,
        cross_device_code(Platform::Unix) == 18,
        cross_device_code(Platform::Windows) == 17,
{
}

/// The transfer of one file: where it comes from, where it goes, and the
/// step it has reached. The destination is the file `file_name` in the
/// directory `directory` under `target_root`.
#[derive(Debug, PartialEq, Eq)]
pub struct Transfer {
    /// Path of the file to transfer.
    pub source: String,
    /// The root under which every show has its directory.
    pub target_root: String,
    /// Directory of the show under the root.
    pub directory: String,
    /// Name of the file in that directory.
    pub file_name: String,
    /// How the file gets there.
    pub mode: OperationMode,
    /// The platform whose error codes the answers carry.
    pub platform: Platform,
    /// What has to happen next.
    pub step: Step,
}

impl Transfer {
    /// The step that follows once the pending request was answered by
    /// `outcome`. A finished transfer stays as it is.
    pub open spec fn step_after(self, outcome: FsOutcome) -> Step {
        match self.step {
            Step::Perform(action) => next_step(self.platform, self.mode, action, outcome),
            Step::Finish(_) => self.step,
        }
    }

    /// Takes the system's answer to the pending request and moves on to the
    /// next step. The paths and the mode stay.
    pub fn advance(self, outcome: FsOutcome) -> (next: Transfer)
        ensures
            next == (Transfer { step: self.step_after(outcome), ..self }),
    {
        let Transfer { source, target_root, directory, file_name, mode, platform, step } = self;
        let step = match step {
            Step::Perform(action) => FileOrganizer::next_step(platform, mode, action, outcome),
            Step::Finish(result) => Step::Finish(result),
        };
        Transfer { source, target_root, directory, file_name, mode, platform, step }
    }
}

/// The rules of a transfer.
pub struct FileOrganizer;

impl FileOrganizer {
    /// Begins the transfer of `anime_file` to
    /// `target_root / anime_name / target_filename`, on a system of the
    /// family `platform`. A dry run begins with the request to report the
    /// transfer, any other with the creation of the destination directory.
    pub fn organize(
        anime_file: &AnimeFileInfo,
        target_root: &str,
        mode: OperationMode,
        dry_run: bool,
        platform: Platform,
    ) -> (transfer: Transfer)
        ensures
            transfer.source@ == anime_file@.original_path,
            transfer.target_root@ == target_root@,
            transfer.directory@ == anime_file@.anime_name,
            transfer.file_name@ == anime_file@.target_filename(),
            transfer.mode == mode,
            transfer.platform == platform,
            transfer.step == first_step(dry_run),
    {
        let step = if dry_run {
            Step::Perform(FsAction::Report)
        } else {
            Step::Perform(FsAction::CreateTargetDir)
        };
        Transfer {
            source: anime_file.original_path.clone(),
            target_root: String::from_str(target_root),
            directory: anime_file.anime_name.clone(),
            file_name: anime_file.target_filename(),
            mode,
            platform,
            step,
        }
    }

    /// The line that a dry run prints for a transfer from `source` to the
    /// path `destination`.
    pub fn dry_run_line(source: &str, destination: &str) -> (line: String)
        ensures
            line@ == "[DRY-RUN] "@ + source@ + " -> "@ + destination@,
    {
        let mut line = String::from_str("[DRY-RUN] ");
        line.append(source);
        line.append(" -> ");
        line.append(destination);
        line
    }

    /// Decides what follows `action` once the system has answered `outcome`.
    pub fn next_step(
        platform: Platform,
        mode: OperationMode,
        action: FsAction,
        outcome: FsOutcome,
    ) -> (step: Step)
        ensures
            step == next_step(platform, mode, action, outcome),
    {
        match action {
            FsAction::Report => Step::Finish(Ok(())),
            FsAction::CreateTargetDir => match outcome {
                FsOutcome::Failed(failure) => Step::Finish(Err(AppError::Io(failure))),
                _ => Step::Perform(FsAction::ProbeTarget),
            },
            FsAction::ProbeTarget => match outcome {
                FsOutcome::Found => Step::Perform(FsAction::RemoveTarget),
                _ => Step::Perform(Self::transfer_action(mode)),
            },
            FsAction::RemoveTarget => match outcome {
                FsOutcome::Failed(failure) => Step::Finish(Err(AppError::Io(failure))),
                _ => Step::Perform(Self::transfer_action(mode)),
            },
            FsAction::RenameSource => match outcome {
                FsOutcome::Failed(_) => Step::Perform(FsAction::CopySource),
                _ => Step::Finish(Ok(())),
            },
            FsAction::CopySource => match outcome {
                FsOutcome::Failed(failure) => Step::Finish(Err(AppError::Io(failure))),
                _ => match mode {
                    OperationMode::Move => Step::Perform(FsAction::RemoveSource),
                    _ => Step::Finish(Ok(())),
                },
            },
            FsAction::RemoveSource => match outcome {
                FsOutcome::Failed(failure) => Step::Finish(Err(AppError::Io(failure))),
                _ => Step::Finish(Ok(())),
            },
            FsAction::LinkSource => match outcome {
                FsOutcome::Failed(failure) => Step::Finish(
                    Err(Self::classify_link_failure(platform, failure)),
                ),
                _ => Step::Finish(Ok(())),
            },
        }
    }

    /// The request that moves the file itself in `mode`.
    pub fn transfer_action(mode: OperationMode) -> (action: FsAction)
        ensures
            action == transfer_action(mode),
    {
        match mode {
            OperationMode::Move => FsAction::RenameSource,
            OperationMode::Copy => FsAction::CopySource,
            OperationMode::Link => FsAction::LinkSource,
        }
    }

    /// Names the kind of a failed hard link on `platform`: a link across
    /// devices where the failure carries the platform's own code for it, an
    /// unsupported link where permission was denied, and the failure itself
    /// otherwise.
    pub fn classify_link_failure(platform: Platform, failure: IoFailure) -> (error: AppError)
        ensures
            error == link_error(platform, failure),
    {
        let crossing: i32 = platform.cross_device_code();
        let crosses = match failure.code {
            Some(code) => code == crossing,
            None => false,
        };
        if crosses {
            AppError::CrossDeviceLink
        } else if failure.permission_denied {
            AppError::HardLinkNotSupported
        } else {
            AppError::Io(failure)
        }
    }
}

} // verus!
