//! The errors of the command surface, typed, each with the text it is
//! reported as.

use vstd::prelude::*;
use vstd::string::StringExecFns;
use crate::messages::{describe_failure, failure_text, lock_error, lock_error_text};

verus! {

/// A critical section of the manager.
#[derive(Clone, Copy, Debug, PartialEq, Eq, Structural)]
pub enum LockTarget {
    /// The session registry.
    Sessions,
    /// The input-write handle of a session.
    Writer,
    /// The pty control handle of a session.
    Master,
    /// The child-process handle of a session.
    Child,
}

/// An operation on an OS handle of a live session.
#[derive(Clone, Copy, Debug, PartialEq, Eq, Structural)]
pub enum IoStep {
    /// Writing client input to the pty.
    Write,
    /// Flushing the input-write handle.
    Flush,
    /// Applying a new size to the pty.
    Resize,
    /// Requesting termination of the child process.
    Kill,
}

/// A step of session creation that acquires an OS resource.
#[derive(Clone, Copy, Debug, PartialEq, Eq, Structural)]
pub enum SpawnStep {
    /// Opening the pseudo-terminal pair.
    OpenPty,
    /// Cloning the read stream of the controlling side.
    CloneReader,
    /// Taking the write stream of the controlling side.
    TakeWriter,
    /// Spawning the child on the subordinate side.
    Spawn,
}

/// What was being resolved when the current directory could not be had.
#[derive(Clone, Copy, Debug, PartialEq, Eq, Structural)]
pub enum PathStep {
    /// A relative path that the client supplied.
    RelativePath,
    /// The default working directory.
    CurrentDir,
}

impl LockTarget {
    /// The name of the critical section.
    pub open spec fn name_text(self) -> Seq<char> {
        match self {
            LockTarget::Sessions => "terminal sessions"@,
            LockTarget::Writer => "terminal writer"@,
            LockTarget::Master => "terminal master"@,
            LockTarget::Child => "terminal child process"@,
        }
    }

    /// The name of the critical section.
    pub fn name(&self) -> (text: &'static str)
        ensures
            text@ == self.name_text(),
    {
        match self {
            LockTarget::Sessions => "terminal sessions",
            LockTarget::Writer => "terminal writer",
            LockTarget::Master => "terminal master",
            LockTarget::Child => "terminal child process",
        }
    }
}

impl IoStep {
    /// What is said of the step when it fails.
    pub open spec fn failure(self) -> Seq<char> {
        match self {
            IoStep::Write => "failed to write to PTY"@,
            IoStep::Flush => "failed to flush PTY writer"@,
            IoStep::Resize => "failed to resize PTY"@,
            IoStep::Kill => "failed to kill terminal process"@,
        }
    }

    /// What is said of the step when it fails.
    pub fn describe(&self) -> (text: &'static str)
        ensures
            text@ == self.failure(),
    {
        match self {
            IoStep::Write => "failed to write to PTY",
            IoStep::Flush => "failed to flush PTY writer",
            IoStep::Resize => "failed to resize PTY",
            IoStep::Kill => "failed to kill terminal process",
        }
    }
}

impl SpawnStep {
    /// What is said of the step when it fails.
    pub open spec fn failure(self) -> Seq<char> {
        match self {
            SpawnStep::OpenPty => "failed to open PTY"@,
            SpawnStep::CloneReader => "failed to clone PTY reader"@,
            SpawnStep::TakeWriter => "failed to take PTY writer"@,
            SpawnStep::Spawn => "failed to spawn terminal process"@,
        }
    }

    /// What is said of the step when it fails.
    pub fn describe(&self) -> (text: &'static str)
        ensures
            text@ == self.failure(),
    {
        match self {
            SpawnStep::OpenPty => "failed to open PTY",
            SpawnStep::CloneReader => "failed to clone PTY reader",
            SpawnStep::TakeWriter => "failed to take PTY writer",
            SpawnStep::Spawn => "failed to spawn terminal process",
        }
    }
}

impl PathStep {
    /// What is said of the step when it fails.
    pub open spec fn failure(self) -> Seq<char> {
        match self {
            PathStep::RelativePath => "failed to resolve relative path"@,
            PathStep::CurrentDir => "failed to resolve cwd"@,
        }
    }

    /// What is said of the step when it fails.
    pub fn describe(&self) -> (text: &'static str)
        ensures
            text@ == self.failure(),
    {
        match self {
            PathStep::RelativePath => "failed to resolve relative path",
            PathStep::CurrentDir => "failed to resolve cwd",
        }
    }
}

/// Why a command failed.
#[allow(inconsistent_fields)]
#[derive(Clone, Debug, PartialEq, Eq)]
pub enum SessionError {
    /// The identifier has no registry entry: it was never issued, or its
    /// session has ended.
    NotFound { session_id: String },
    /// A critical section could not be entered.
    LockFailure { target: LockTarget },
    /// An operation on an OS handle failed.
    IoFailure { step: IoStep, detail: String },
    /// A resource of a new session could not be acquired.
    SpawnFailure { step: SpawnStep, detail: String },
    /// The current directory, needed to resolve the working directory, could
    /// not be had.
    PathResolutionFailure { step: PathStep, detail: String },
}

/// The mathematical value of a `SessionError`.
#[allow(inconsistent_fields)]
pub enum SessionErrorView {
    NotFound { session_id: Seq<char> },
    LockFailure { target: LockTarget },
    IoFailure { step: IoStep, detail: Seq<char> },
    SpawnFailure { step: SpawnStep, detail: Seq<char> },
    PathResolutionFailure { step: PathStep, detail: Seq<char> },
}

/// The text reported for an identifier without a registry entry.
pub open spec fn not_found_text(session_id: Seq<char>) -> Seq<char> {
    "Terminal session \""@ + session_id + "\" was not found."@
}

impl SessionErrorView {
    /// The text that the error is reported as.
    pub open spec fn message(self) -> Seq<char> {
        match self {
            SessionErrorView::NotFound { session_id } => not_found_text(session_id),
            SessionErrorView::LockFailure { target } => lock_error_text(target.name_text()),
            SessionErrorView::IoFailure { step, detail } => failure_text(step.failure(), detail),
            SessionErrorView::SpawnFailure { step, detail } => failure_text(
                step.failure(),
                detail,
            ),
            SessionErrorView::PathResolutionFailure { step, detail } => failure_text(
                step.failure(),
                detail,
            ),
        }
    }
}

impl View for SessionError {
    type V = SessionErrorView;

    open spec fn view(&self) -> SessionErrorView {
        match *self {
            SessionError::NotFound { session_id } => SessionErrorView::NotFound {
                session_id: session_id@,
            },
            SessionError::LockFailure { target } => SessionErrorView::LockFailure { target },
            SessionError::IoFailure { step, detail } => SessionErrorView::IoFailure {
                step,
                detail: detail@,
            },
            SessionError::SpawnFailure { step, detail } => SessionErrorView::SpawnFailure {
                step,
                detail: detail@,
            },
            SessionError::PathResolutionFailure {
                step,
                detail,
            } => SessionErrorView::PathResolutionFailure { step, detail: detail@ },
        }
    }
}

impl SessionError {
    /// The error for an identifier without a registry entry.
    pub fn not_found(session_id: &str) -> (error: SessionError)
        ensures
            error@ == (SessionErrorView::NotFound { session_id: session_id@ }),
    {
        SessionError::NotFound { session_id: session_id.to_owned() }
    }

    /// The error for a critical section that could not be entered.
    pub fn lock_failure(target: LockTarget) -> (error: SessionError)
        ensures
            error@ == (SessionErrorView::LockFailure { target }),
    {
        SessionError::LockFailure { target }
    }

    /// The error for a failed operation on an OS handle.
    pub fn io_failure(step: IoStep, detail: &str) -> (error: SessionError)
        ensures
            error@ == (SessionErrorView::IoFailure { step, detail: detail@ }),
    {
        SessionError::IoFailure { step, detail: detail.to_owned() }
    }

    /// The error for a resource of a new session that could not be acquired.
    pub fn spawn_failure(step: SpawnStep, detail: &str) -> (error: SessionError)
        ensures
            error@ == (SessionErrorView::SpawnFailure { step, detail: detail@ }),
    {
        SessionError::SpawnFailure { step, detail: detail.to_owned() }
    }

    /// The error for a current directory that could not be had.
    pub fn path_resolution_failure(step: PathStep, detail: &str) -> (error: SessionError)
        ensures
            error@ == (SessionErrorView::PathResolutionFailure { step, detail: detail@ }),
    {
        SessionError::PathResolutionFailure { step, detail: detail.to_owned() }
    }

    /// The text that the error is reported as.
    pub fn message(&self) -> (text: String)
        ensures
            text@ == self@.message(),
    {
        match self {
            SessionError::NotFound { session_id } => {
                let mut text = "Terminal session \"".to_owned();
                text.append(session_id.as_str());
                text.append("\" was not found.");
                text
            },
            SessionError::LockFailure { target } => lock_error(target.name()),
            SessionError::IoFailure { step, detail } => describe_failure(
                step.describe(),
                detail.as_str(),
            ),
            SessionError::SpawnFailure { step, detail } => describe_failure(
                step.describe(),
                detail.as_str(),
            ),
            SessionError::PathResolutionFailure { step, detail } => describe_failure(
                step.describe(),
                detail.as_str(),
            ),
        }
    }
}

/// Turns the outcome of an operation on an OS handle into the outcome of the
/// command: success stays success, and a failure names the step that failed.
pub fn finish_io(step: IoStep, outcome: Result<(), String>) -> (result: Result<
    (),
    SessionError,
>)
    ensures
        match outcome {
            Ok(_) => result is Ok,
            Err(detail) => result is Err && result->Err_0@ == (SessionErrorView::IoFailure {
                step,
                detail: detail@,
            }),
        },
{
    match outcome {
        Ok(_) => Ok(()),
        Err(detail) => Err(SessionError::IoFailure { step, detail }),
    }
}

} // verus!
