//! The ways in which a run can fail.

use vstd::prelude::*;
use vstd::string::*;

verus! {

/// Why a run did not succeed. Each failure is reported at the step where it
/// happens; nothing is retried.
#[derive(Debug, PartialEq, Eq)]
pub enum ErrorKind {
    /// The release binary could not be fetched.
    DownloadFailed,
    /// The binary or the configuration file could not be written.
    WriteFailed,
    /// The binary could not be made executable.
    PermissionFailed,
    /// The tool could not be started.
    SpawnFailed,
    /// The tool was started, but waiting for it failed.
    WaitFailed,
    /// The tool ran and its output carries the error marker; the payload is
    /// that output, unchanged.
    ToolReportedError(String),
}

/// An [`ErrorKind`] with its payload as a sequence of characters.
pub enum ErrorView {
    DownloadFailed,
    WriteFailed,
    PermissionFailed,
    SpawnFailed,
    WaitFailed,
    ToolReportedError(Seq<char>),
}

impl View for ErrorKind {
    type V = ErrorView;

    open spec fn view(&self) -> ErrorView {
        match self {
            ErrorKind::DownloadFailed => ErrorView::DownloadFailed,
            ErrorKind::WriteFailed => ErrorView::WriteFailed,
            ErrorKind::PermissionFailed => ErrorView::PermissionFailed,
            ErrorKind::SpawnFailed => ErrorView::SpawnFailed,
            ErrorKind::WaitFailed => ErrorView::WaitFailed,
            ErrorKind::ToolReportedError(text) => ErrorView::ToolReportedError(text@),
        }
    }
}

/// The view of a run's result.
pub open spec fn result_view(result: Result<(), ErrorKind>) -> Result<(), ErrorView> {
    match result {
        Ok(_) => Ok(()),
        Err(error) => Err(error@),
    }
}

/// The text that describes an error to the user.
pub open spec fn spec_message(error: ErrorView) -> Seq<char> {
    match error {
        ErrorView::DownloadFailed =>
            "Failed to download binary. Check it's still available on the tailwind GitHub."@,
        ErrorView::WriteFailed => "Failed to write file to disk"@,
        ErrorView::PermissionFailed => "Failed to set permissions"@,
        ErrorView::SpawnFailed => "Failed to run Tailwind CLI"@,
        ErrorView::WaitFailed => "Failed to wait on Tailwind CLI"@,
        ErrorView::ToolReportedError(text) => text,
    }
}

impl ErrorKind {
    /// Describes the error; for an error that the tool reported, this is the
    /// tool's own output.
    pub fn message(&self) -> (text: String)
        ensures
            text@ == spec_message(self@),
    {
        match self {
            ErrorKind::DownloadFailed => String::from_str(
                "Failed to download binary. Check it's still available on the tailwind GitHub.",
            ),
            ErrorKind::WriteFailed => String::from_str("Failed to write file to disk"),
            ErrorKind::PermissionFailed => String::from_str("Failed to set permissions"),
            ErrorKind::SpawnFailed => String::from_str("Failed to run Tailwind CLI"),
            ErrorKind::WaitFailed => String::from_str("Failed to wait on Tailwind CLI"),
            ErrorKind::ToolReportedError(text) => text.clone(),
        }
    }
}

} // verus!
