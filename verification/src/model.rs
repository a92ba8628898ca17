//! The values handed across the boundary between the validation step and
//! the driver that runs its commands: command outcomes as the collaborator
//! reports them, the lines the step asks the driver to log, and the one
//! error the step can propagate.

use vstd::prelude::*;

verus! {

/// The outcome of one remote command, as the command-execution collaborator
/// reports it.
#[derive(Clone, Debug, PartialEq)]
pub enum ProbeEvent {
    /// The command ran and its exit status was interpreted as a boolean.
    CheckDone(bool),
    /// The command ran and its standard output was captured.
    CaptureDone(String),
    /// The execution mechanism itself failed to run the command.
    TransportFault,
}

/// The mathematical model of a [`ProbeEvent`].
#[verifier::ext_equal]
pub enum EventModel {
    CheckDone(bool),
    CaptureDone(Seq<char>),
    TransportFault,
}

impl View for ProbeEvent {
    type V = EventModel;

    open spec fn view(&self) -> EventModel {
        match self {
            ProbeEvent::CheckDone(b) => EventModel::CheckDone(*b),
            ProbeEvent::CaptureDone(s) => EventModel::CaptureDone(s@),
            ProbeEvent::TransportFault => EventModel::TransportFault,
        }
    }
}

/// One line the driver must log. Which variants are warnings and which are
/// informational is fixed by [`log_is_warning`]; the step decides what to
/// say, the driver decides how to render it.
#[derive(Clone, Debug, PartialEq)]
pub enum LogLine {
    /// Informational: the validation run is starting.
    ValidationStarted,
    /// Warning: validation is skipped because the container runtime is
    /// absent, which is expected in constrained environments.
    SkippedDockerMissing,
    /// Warning: the tool's version query could not be run, which is
    /// expected when its installation was skipped.
    ComposeNotFound,
    /// Informational: the installation was validated.
    ComposeValidated,
    /// Informational: the trimmed version text that the probe captured.
    ComposeVersion(String),
    /// Warning: the test configuration file could not be created.
    TestFileNotCreated,
    /// Informational: the configuration validation passed.
    ConfigValidationPassed,
    /// Warning: the configuration validation failed and was skipped.
    ConfigValidationSkipped,
}

/// The mathematical model of a [`LogLine`].
#[verifier::ext_equal]
pub enum LogModel {
    ValidationStarted,
    SkippedDockerMissing,
    ComposeNotFound,
    ComposeValidated,
    ComposeVersion(Seq<char>),
    TestFileNotCreated,
    ConfigValidationPassed,
    ConfigValidationSkipped,
}

impl View for LogLine {
    type V = LogModel;

    open spec fn view(&self) -> LogModel {
        match self {
            LogLine::ValidationStarted => LogModel::ValidationStarted,
            LogLine::SkippedDockerMissing => LogModel::SkippedDockerMissing,
            LogLine::ComposeNotFound => LogModel::ComposeNotFound,
            LogLine::ComposeValidated => LogModel::ComposeValidated,
            LogLine::ComposeVersion(s) => LogModel::ComposeVersion(s@),
            LogLine::TestFileNotCreated => LogModel::TestFileNotCreated,
            LogLine::ConfigValidationPassed => LogModel::ConfigValidationPassed,
            LogLine::ConfigValidationSkipped => LogModel::ConfigValidationSkipped,
        }
    }
}

/// Whether a log line is a warning rather than an informational line.
pub open spec fn log_is_warning(l: LogModel) -> bool {
    match l {
        LogModel::ValidationStarted => false,
        LogModel::SkippedDockerMissing => true,
        LogModel::ComposeNotFound => true,
        LogModel::ComposeValidated => false,
        LogModel::ComposeVersion(_) => false,
        LogModel::TestFileNotCreated => true,
        LogModel::ConfigValidationPassed => false,
        LogModel::ConfigValidationSkipped => true,
    }
}

/// Whether this line is a warning rather than an informational line.
pub fn is_warning(l: &LogLine) -> (r: bool)
    ensures
        r == log_is_warning(l@),
{
    match l {
        LogLine::SkippedDockerMissing => true,
        LogLine::ComposeNotFound => true,
        LogLine::TestFileNotCreated => true,
        LogLine::ConfigValidationSkipped => true,
        _ => false,
    }
}

/// The model of a sequence of log lines.
pub open spec fn logs_view(logs: Seq<LogLine>) -> Seq<LogModel> {
    logs.map_values(|l: LogLine| l@)
}

/// The one error the step propagates: the remote-command execution
/// mechanism itself failed while the named action ran. A remote command
/// that merely exited nonzero is never reported this way.
#[derive(Clone, Debug, PartialEq)]
pub enum RemoteActionError {
    SshCommandFailed {
        /// The name of the action on whose behalf the command ran.
        action_name: String,
    },
}

/// The mathematical model of a [`RemoteActionError`].
#[verifier::ext_equal]
pub enum ErrorModel {
    SshCommandFailed { action_name: Seq<char> },
}

impl View for RemoteActionError {
    type V = ErrorModel;

    open spec fn view(&self) -> ErrorModel {
        match self {
            RemoteActionError::SshCommandFailed { action_name } => (
            ErrorModel::SshCommandFailed { action_name: action_name@ }),
        }
    }
}

/// The model of the result of a whole run.
pub open spec fn result_view(r: Result<(), RemoteActionError>) -> Result<(), ErrorModel> {
    match r {
        Ok(_) => Ok(()),
        Err(e) => Err(e@),
    }
}

} // verus!
