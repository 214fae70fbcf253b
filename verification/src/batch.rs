//! The rules of a run over many files: which files are taken, what happens
//! after a failed hard link, and the count of what was done.

use crate::error::AppError;
use crate::organizer::OperationMode;
use crate::paths::{dotted_extension, dotted_extension_of};
use crate::text::{to_lowercase, unicode_lowercase};
use vstd::prelude::*;
use vstd::string::StrSliceExecFns;
use vstd::string::StringExecFns;

verus! {

/// The mode to fall back on when a hard link cannot be made.
#[derive(Debug, Clone, Copy, PartialEq, Eq, Structural)]
pub enum FallbackMode {
    /// Move the file instead.
    Move,
    /// Copy the file instead.
    Copy,
}

impl FallbackMode {
    /// The operation mode that the fallback stands for.
    pub open spec fn operation_mode(self) -> OperationMode {
        match self {
            FallbackMode::Move => OperationMode::Move,
            FallbackMode::Copy => OperationMode::Copy,
        }
    }

    /// The operation mode that the fallback stands for.
    pub fn to_operation_mode(&self) -> (mode: OperationMode)
        ensures
            mode == self.operation_mode(),
    {
        match self {
            FallbackMode::Move => OperationMode::Move,
            FallbackMode::Copy => OperationMode::Copy,
        }
    }
}

/// The extensions of video files that a run takes when none are named.
pub open spec fn default_extension_list() -> Seq<Seq<char>> {
    seq![".mp4"@, ".mkv"@, ".avi"@, ".mov"@, ".wmv"@, ".flv"@, ".rmvb"@]
}

/// An extension as the user named it, brought to the form in which
/// extensions are compared: in lower case, behind one dot.
pub open spec fn normalized_extension(ext: Seq<char>) -> Seq<char> {
    if ext.len() > 0 && ext[0] == '.' {
        unicode_lowercase(ext)
    } else {
        seq!['.'] + unicode_lowercase(ext)
    }
}

/// Whether a failed transfer in `mode` is tried again, and in which mode: a
/// hard link that failed across devices or for want of support, where the
/// user named a fallback.
pub open spec fn retry_mode(
    mode: OperationMode,
    fallback: Option<FallbackMode>,
    error: AppError,
) -> Option<OperationMode> {
    if mode == OperationMode::Link && fallback is Some && (error is CrossDeviceLink
        || error is HardLinkNotSupported) {
        Some(fallback->0.operation_mode())
    } else {
        None
    }
}

/// What a run makes of one attempt to transfer a file.
#[derive(Debug, PartialEq, Eq)]
pub enum Verdict {
    /// The file has reached its destination.
    Succeeded,
    /// The transfer is to be tried once more, in this mode.
    Retry(OperationMode),
    /// The file is given up, with this error.
    Failed(AppError),
}

/// What a run in `mode` makes of the result of one attempt. A file that was
/// `retried` already is not tried again.
pub open spec fn verdict_of(
    mode: OperationMode,
    fallback: Option<FallbackMode>,
    retried: bool,
    result: Result<(), AppError>,
) -> Verdict {
    match result {
        Ok(_) => Verdict::Succeeded,
        Err(error) => match retry_mode(mode, fallback, error) {
            Some(next) if !retried => Verdict::Retry(next),
            _ => Verdict::Failed(error),
        },
    }
}

/// The extensions of video files that a run takes when none are named.
pub fn default_extensions() -> (list: Vec<String>)
    ensures
        list.deep_view() == default_extension_list(),
{
    let mut list: Vec<String> = Vec::new();
    list.push(String::from_str(".mp4"));
    list.push(String::from_str(".mkv"));
    list.push(String::from_str(".avi"));
    list.push(String::from_str(".mov"));
    list.push(String::from_str(".wmv"));
    list.push(String::from_str(".flv"));
    list.push(String::from_str(".rmvb"));
    proof {
        assert(list.deep_view() =~= default_extension_list());
    }
    list
}

/// Brings an extension that the user named to the form in which extensions
/// are compared.
pub fn normalize_extension(ext: &str) -> (normal: String)
    ensures
        normal@ == normalized_extension(ext@),
{
    if ext.unicode_len() > 0 && ext.get_char(0) == '.' {
        to_lowercase(ext)
    } else {
        proof {
            reveal_strlit(".");
            assert("."@ =~= seq!['.']);
        }
        let mut normal = String::from_str(".");
        normal.append(to_lowercase(ext).as_str());
        normal
    }
}

/// Whether `extension` is one of `extensions`.
pub fn is_listed(extension: &String, extensions: &Vec<String>) -> (listed: bool)
    ensures
        listed == extensions.deep_view().contains(extension@),
{
    let mut i: usize = 0;
    while i < extensions.len()
        invariant
            i <= extensions.len(),
            forall|k: int| 0 <= k < i ==> extensions.deep_view()[k] != extension@,
        decreases extensions.len() - i,
    {
        if extensions[i] == *extension {
            proof {
                assert(extensions.deep_view()[i as int] == extension@);
            }
            return true;
        }
        i += 1;
    }
    false
}

/// Whether a file named `name` is taken: its extension is one of
/// `extensions`. A name without an extension is never taken.
pub fn takes_name(name: &str, extensions: &Vec<String>) -> (taken: bool)
    ensures
        taken == match dotted_extension(name@) {
            Some(ext) => extensions.deep_view().contains(ext),
            None => false,
        },
{
    match dotted_extension_of(name) {
        Some(ext) => is_listed(&ext, extensions),
        None => false,
    }
}

/// Decides whether a transfer that failed with `error` is tried again, and
/// in which mode.
pub fn fallback_for(
    mode: OperationMode,
    fallback: Option<FallbackMode>,
    error: &AppError,
) -> (retry: Option<OperationMode>)
    ensures
        retry == retry_mode(mode, fallback, *error),
{
    match (mode, fallback, error) {
        (OperationMode::Link, Some(fallback), AppError::CrossDeviceLink)
        | (OperationMode::Link, Some(fallback), AppError::HardLinkNotSupported) => Some(
            fallback.to_operation_mode(),
        ),
        _ => None,
    }
}

/// The count of a run: how many files were taken up, and how many of them
/// were transferred and how many were not.
#[derive(Debug, Clone, Copy, PartialEq, Eq, Structural)]
pub struct Summary {
    /// Files whose names were recognised.
    pub processed: u64,
    /// Files that reached their destination.
    pub succeeded: u64,
    /// Files that did not.
    pub failed: u64,
}

impl Summary {
    /// Every file that was taken up either succeeded or failed.
    pub open spec fn wf(self) -> bool {
        self.processed == self.succeeded + self.failed
    }

    /// The three counts as numbers: taken up, succeeded, failed.
    pub open spec fn counts(self) -> (int, int, int) {
        (self.processed as int, self.succeeded as int, self.failed as int)
    }

    /// The count after one more file, which `succeeded` or did not.
    pub open spec fn plus_one(self, succeeded: bool) -> (int, int, int) {
        if succeeded {
            (self.processed + 1, self.succeeded + 1, self.failed as int)
        } else {
            (self.processed + 1, self.succeeded as int, self.failed + 1)
        }
    }

    /// The count before the first file.
    pub fn new() -> (summary: Summary)
        ensures
            summary.processed == 0,
            summary.succeeded == 0,
            summary.failed == 0,
            summary.wf(),
    {
        Summary { processed: 0, succeeded: 0, failed: 0 }
    }

    /// Counts one more file.
    pub fn record(&mut self, succeeded: bool)
        requires
            old(self).wf(),
            old(self).processed < u64::MAX,
        ensures
            final(self).wf(),
            final(self).counts() == old(self).plus_one(succeeded),
    {
        self.processed += 1;
        if succeeded {
            self.succeeded += 1;
        } else {
            self.failed += 1;
        }
    }

    /// Takes the result of one attempt to transfer a file in a run in
    /// `mode`, and says what follows. The file is counted when it has
    /// succeeded or is given up, and so once; it is not counted when it is
    /// to be tried again.
    pub fn settle(
        &mut self,
        mode: OperationMode,
        fallback: Option<FallbackMode>,
        retried: bool,
        result: Result<(), AppError>,
    ) -> (verdict: Verdict)
        requires
            old(self).wf(),
            old(self).processed < u64::MAX,
        ensures
            verdict == verdict_of(mode, fallback, retried, result),
            final(self).wf(),
            final(self).counts() == match verdict {
                Verdict::Succeeded => old(self).plus_one(true),
                Verdict::Retry(_) => old(self).counts(),
                Verdict::Failed(_) => old(self).plus_one(false),
            },
    {
        match result {
            Ok(_) => {
                self.record(true);
                Verdict::Succeeded
            },
            Err(error) => {
                let again = if retried {
                    None
                } else {
                    fallback_for(mode, fallback, &error)
                };
                match again {
                    Some(next) => Verdict::Retry(next),
                    None => {
                        self.record(false);
                        Verdict::Failed(error)
                    },
                }
            },
        }
    }
}

} // verus!
