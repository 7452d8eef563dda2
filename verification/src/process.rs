//! What the library asks of the handle of an external process.

use vstd::prelude::*;

verus! {

/// What one look at a process found.
#[derive(Debug, Clone, PartialEq, Eq)]
pub enum HandleStatus {
    /// The process has ended: whether with success, and its exit code if
    /// it has one.
    Exited { success: bool, code: Option<i32> },
    /// The process is still running.
    StillRunning,
    /// The look itself failed: the system's message.
    QueryError(String),
}

/// What a `HandleStatus` holds.
pub enum HandleStatusView {
    Exited { success: bool, code: Option<i32> },
    StillRunning,
    QueryError(Seq<char>),
}

impl View for HandleStatus {
    type V = HandleStatusView;

    open spec fn view(&self) -> HandleStatusView {
        match self {
            HandleStatus::Exited { success, code } => HandleStatusView::Exited {
                success: *success,
                code: *code,
            },
            HandleStatus::StillRunning => HandleStatusView::StillRunning,
            HandleStatus::QueryError(message) => HandleStatusView::QueryError(message@),
        }
    }
}

/// The view of an optional status.
pub open spec fn opt_status(status: Option<HandleStatus>) -> Option<HandleStatusView> {
    match status {
        Some(s) => Some(s@),
        None => None,
    }
}

/// The handle of an external process, as the registry keeps it. The
/// look does not wait for the process. The library promises nothing of
/// what a handle answers: every decision is made for each answer it can
/// give.
pub trait ProcessHandle {
    /// Looks whether the process has ended.
    fn status(&mut self) -> HandleStatus;
}

} // verus!
