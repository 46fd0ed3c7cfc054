//! Why a stream of kernel log lines ends.

use vstd::prelude::*;
use crate::linux::KLogCtlError;

verus! {

/// What ends a stream. Whatever the cause, the end is final: the stream does
/// not resume.
#[derive(Debug, PartialEq, Eq)]
pub enum RMesgError {
    /// Arithmetic on the poll interval or on the clock left what the
    /// machine can represent: at construction, or when the time since the
    /// last poll was taken.
    UnableToAddDurationToSystemTime,
    /// The snapshot source failed. The text is its own account of the
    /// cause, passed on as it came.
    SnapshotReadFailed(String),
}

/// An [`RMesgError`] with its text as a sequence of characters.
pub enum RMesgErrorView {
    UnableToAddDurationToSystemTime,
    SnapshotReadFailed(Seq<char>),
}

impl View for RMesgError {
    type V = RMesgErrorView;

    open spec fn view(&self) -> RMesgErrorView {
        match self {
            RMesgError::UnableToAddDurationToSystemTime => RMesgErrorView::UnableToAddDurationToSystemTime,
            RMesgError::SnapshotReadFailed(cause) => RMesgErrorView::SnapshotReadFailed(cause@),
        }
    }
}

impl RMesgError {
    /// The text that stands for the error where it is shown: its name for
    /// an overflow, the cause for a failed read.
    pub open spec fn text(self) -> Seq<char> {
        match self {
            RMesgError::UnableToAddDurationToSystemTime => "UnableToAddDurationToSystemTime"@,
            RMesgError::SnapshotReadFailed(cause) => cause@,
        }
    }

    /// A failed call into the kernel log as a failed read of the snapshot:
    /// the cause is the text of `error`.
    pub fn from_klogctl(error: KLogCtlError) -> (converted: RMesgError)
        ensures
            converted@ == RMesgErrorView::SnapshotReadFailed(error.text()),
    {
        RMesgError::SnapshotReadFailed(error.to_string())
    }

    /// The error as text.
    pub fn to_string(&self) -> (text: String)
        ensures
            text@ == self.text(),
    {
        match self {
            RMesgError::UnableToAddDurationToSystemTime => "UnableToAddDurationToSystemTime".to_owned(),
            RMesgError::SnapshotReadFailed(cause) => cause.clone(),
        }
    }
}

} // verus!
