//! The validation step itself: the fixed command sequence, the decision
//! table that reacts to each command's outcome, and a driver that replays
//! a whole run from a list of prepared outcomes.

use vstd::prelude::*;

use crate::model::{
    ErrorModel, EventModel, LogLine, LogModel, ProbeEvent, RemoteActionError, logs_view,
    result_view,
};
use crate::text::{spec_trim, trimmed};

verus! {

/// The remote commands of the validation sequence, in the order they are
/// issued. Each phase stands for the command that is about to run.
#[derive(Clone, Copy, Debug, PartialEq, Eq, Structural)]
pub enum Phase {
    /// Probe for the container runtime with its version query; the tool
    /// cannot work without it.
    ProbeDocker,
    /// Capture the tool's own version text.
    ProbeComposeVersion,
    /// Write a minimal configuration document to the well-known temporary
    /// path on the remote host.
    WriteTestFile,
    /// Run the configuration-validation subcommand on the written file.
    ValidateConfig,
    /// Best-effort removal of the temporary file; the outcome is discarded.
    RemoveTestFile,
}

/// The position of a phase in the fixed sequence.
pub open spec fn phase_index(p: Phase) -> int {
    match p {
        Phase::ProbeDocker => 0,
        Phase::ProbeComposeVersion => 1,
        Phase::WriteTestFile => 2,
        Phase::ValidateConfig => 3,
        Phase::RemoveTestFile => 4,
    }
}

/// The shell command that a phase issues on the remote host.
pub open spec fn spec_command(p: Phase) -> Seq<char> {
    match p {
        Phase::ProbeDocker => "docker --version"@,
        Phase::ProbeComposeVersion => "docker-compose --version"@,
        Phase::WriteTestFile => "echo 'services:\n  test:\n    image: hello-world\n' > /tmp/test-docker-compose.yml"@,
        Phase::ValidateConfig => "cd /tmp && docker-compose -f test-docker-compose.yml config"@,
        Phase::RemoveTestFile => "rm -f /tmp/test-docker-compose.yml"@,
    }
}

/// Whether a phase's command is run capturing output rather than only an
/// exit status.
pub open spec fn spec_is_capture(p: Phase) -> bool {
    p is ProbeComposeVersion
}

/// An event fits a phase when it is a kind of outcome that the phase's
/// command can produce: captured text for the capture phase, an exit
/// status for the others, a transport fault for any of them.
pub open spec fn event_fits(p: Phase, e: EventModel) -> bool {
    match e {
        EventModel::CheckDone(_) => !spec_is_capture(p),
        EventModel::CaptureDone(_) => spec_is_capture(p),
        EventModel::TransportFault => true,
    }
}

/// The name under which this step reports itself and attributes errors.
pub open spec fn spec_action_name() -> Seq<char> {
    "docker-compose-validation"@
}

/// What the driver must do after a step.
#[derive(Clone, Debug, PartialEq)]
pub enum Next {
    /// Issue the command of this phase and report its outcome.
    Run(Phase),
    /// The validation is finished; report success.
    Done,
    /// The validation is finished; propagate this transport error.
    Fail(RemoteActionError),
}

/// The mathematical model of a [`Next`].
#[verifier::ext_equal]
pub enum NextModel {
    Run(Phase),
    Done,
    Fail(ErrorModel),
}

impl View for Next {
    type V = NextModel;

    open spec fn view(&self) -> NextModel {
        match self {
            Next::Run(p) => NextModel::Run(*p),
            Next::Done => NextModel::Done,
            Next::Fail(e) => NextModel::Fail(e@),
        }
    }
}

/// What one step decides: the lines to log, then what to do next.
pub struct StepOutcome {
    /// Lines to log, in order, before acting on `next`.
    pub logs: Vec<LogLine>,
    /// What to do next.
    pub next: Next,
}

/// The mathematical model of a [`StepOutcome`].
#[verifier::ext_equal]
pub struct StepModel {
    pub logs: Seq<LogModel>,
    pub next: NextModel,
}

impl View for StepOutcome {
    type V = StepModel;

    open spec fn view(&self) -> StepModel {
        StepModel { logs: logs_view(self.logs@), next: self.next@ }
    }
}

/// The decision table of the validation sequence: for the phase whose
/// command just ran and the outcome it produced, the lines to log and what
/// to do next.
///
/// Every semantic negative outcome ends the run successfully with a
/// warning. A transport fault is fatal, except on the version capture
/// (where inability to run the query means the tool is absent, an expected
/// situation) and on the cleanup (whose outcome is discarded entirely).
pub open spec fn spec_step(p: Phase, e: EventModel) -> StepModel {
    match (p, e) {
        (Phase::ProbeDocker, EventModel::TransportFault) => (StepModel {
            logs: Seq::empty(),
            next: NextModel::Fail(
                ErrorModel::SshCommandFailed { action_name: spec_action_name() },
            ),
        }),
        (Phase::ProbeDocker, EventModel::CheckDone(available)) => if available {
            StepModel { logs: Seq::empty(), next: NextModel::Run(Phase::ProbeComposeVersion) }
        } else {
            StepModel { logs: seq![LogModel::SkippedDockerMissing], next: NextModel::Done }
        },
        (Phase::ProbeComposeVersion, EventModel::TransportFault) => (StepModel {
            logs: seq![LogModel::ComposeNotFound],
            next: NextModel::Done,
        }),
        (Phase::ProbeComposeVersion, EventModel::CaptureDone(text)) => (StepModel {
            logs: seq![LogModel::ComposeValidated, LogModel::ComposeVersion(spec_trim(text))],
            next: NextModel::Run(Phase::WriteTestFile),
        }),
        (Phase::WriteTestFile, EventModel::TransportFault) => (StepModel {
            logs: Seq::empty(),
            next: NextModel::Fail(
                ErrorModel::SshCommandFailed { action_name: spec_action_name() },
            ),
        }),
        (Phase::WriteTestFile, EventModel::CheckDone(created)) => if created {
            StepModel { logs: Seq::empty(), next: NextModel::Run(Phase::ValidateConfig) }
        } else {
            StepModel { logs: seq![LogModel::TestFileNotCreated], next: NextModel::Done }
        },
        (Phase::ValidateConfig, EventModel::TransportFault) => (StepModel {
            logs: Seq::empty(),
            next: NextModel::Fail(
                ErrorModel::SshCommandFailed { action_name: spec_action_name() },
            ),
        }),
        (Phase::ValidateConfig, EventModel::CheckDone(valid)) => (StepModel {
            logs: seq![
                if valid {
                    LogModel::ConfigValidationPassed
                } else {
                    LogModel::ConfigValidationSkipped
                },
            ],
            next: NextModel::Run(Phase::RemoveTestFile),
        }),
        (Phase::RemoveTestFile, _) => (StepModel { logs: Seq::empty(), next: NextModel::Done }),
        _ => (StepModel { logs: Seq::empty(), next: NextModel::Done }),
    }
}

/// Each step moves strictly forward through the command sequence, so a run
/// issues every command at most once and ends within five steps.
pub proof fn lemma_step_advances(p: Phase, e: EventModel)
    ensures
        spec_step(p, e).next matches NextModel::Run(q) ==> phase_index(q) > phase_index(p),
{
}

/// Validates a Docker Compose installation and basic functionality on a
/// remote host.
///
/// The step holds only the configuration a driver needs to open remote
/// command execution; it is immutable after construction and keeps no
/// state between runs.
pub struct DockerComposeValidator {
    /// Path to the SSH private key file.
    pub ssh_key_path: String,
    /// SSH username to use for connections.
    pub username: String,
    /// Whether to enable verbose SSH output.
    pub verbose: bool,
}

impl DockerComposeValidator {
    /// Create a new `DockerComposeValidator` with the specified SSH key.
    ///
    /// # Arguments
    /// * `ssh_key_path` - Path to the SSH private key file
    /// * `username` - SSH username to use for connections
    /// * `verbose` - Whether to enable verbose SSH output
    #[must_use]
    pub fn new(ssh_key_path: &str, username: &str, verbose: bool) -> (v: Self)
        ensures
            v.ssh_key_path@ == ssh_key_path@,
            v.username@ == username@,
            v.verbose == verbose,
    {
        DockerComposeValidator {
            ssh_key_path: ssh_key_path.to_owned(),
            username: username.to_owned(),
            verbose,
        }
    }

    /// The name under which this step reports itself.
    pub fn name(&self) -> (s: &'static str)
        ensures
            s@ == spec_action_name(),
    {
        "docker-compose-validation"
    }

    /// Begin a validation run: the opening log line, then the first probe.
    pub fn start(&self) -> (r: StepOutcome)
        ensures
            r@.logs == seq![LogModel::ValidationStarted],
            r@.next == NextModel::Run(Phase::ProbeDocker),
    {
        let mut logs: Vec<LogLine> = Vec::new();
        logs.push(LogLine::ValidationStarted);
        proof {
            assert(logs_view(logs@) =~= seq![LogModel::ValidationStarted]);
        }
        StepOutcome { logs, next: Next::Run(Phase::ProbeDocker) }
    }

    fn transport_error(&self) -> (e: RemoteActionError)
        ensures
            e@ == (ErrorModel::SshCommandFailed { action_name: spec_action_name() }),
    {
        RemoteActionError::SshCommandFailed { action_name: self.name().to_owned() }
    }

    /// Decide, after the command of `phase` produced `event`, which lines
    /// to log and what to do next, as [`spec_step`] states.
    pub fn step(&self, phase: Phase, event: &ProbeEvent) -> (r: StepOutcome)
        requires
            event_fits(phase, event@),
        ensures
            r@ == spec_step(phase, event@),
    {
        let mut logs: Vec<LogLine> = Vec::new();
        let next: Next = match (phase, event) {
            (Phase::ProbeDocker, ProbeEvent::TransportFault) => Next::Fail(
                self.transport_error(),
            ),
            (Phase::ProbeDocker, ProbeEvent::CheckDone(available)) => {
                if *available {
                    Next::Run(Phase::ProbeComposeVersion)
                } else {
                    logs.push(LogLine::SkippedDockerMissing);
                    Next::Done
                }
            },
            (Phase::ProbeComposeVersion, ProbeEvent::TransportFault) => {
                logs.push(LogLine::ComposeNotFound);
                Next::Done
            },
            (Phase::ProbeComposeVersion, ProbeEvent::CaptureDone(text)) => {
                logs.push(LogLine::ComposeValidated);
                logs.push(LogLine::ComposeVersion(trimmed(text.as_str())));
                Next::Run(Phase::WriteTestFile)
            },
            (Phase::WriteTestFile, ProbeEvent::TransportFault) => Next::Fail(
                self.transport_error(),
            ),
            (Phase::WriteTestFile, ProbeEvent::CheckDone(created)) => {
                if *created {
                    Next::Run(Phase::ValidateConfig)
                } else {
                    logs.push(LogLine::TestFileNotCreated);
                    Next::Done
                }
            },
            (Phase::ValidateConfig, ProbeEvent::TransportFault) => Next::Fail(
                self.transport_error(),
            ),
            (Phase::ValidateConfig, ProbeEvent::CheckDone(valid)) => {
                if *valid {
                    logs.push(LogLine::ConfigValidationPassed);
                } else {
                    logs.push(LogLine::ConfigValidationSkipped);
                }
                Next::Run(Phase::RemoveTestFile)
            },
            (Phase::RemoveTestFile, _) => Next::Done,
            _ => Next::Done,
        };
        proof {
            assert(logs_view(logs@) =~= spec_step(phase, event@).logs);
        }
        StepOutcome { logs, next }
    }
}

/// The shell command text that `phase` issues on the remote host.
pub fn command_text(phase: Phase) -> (s: String)
    ensures
        s@ == spec_command(phase),
{
    match phase {
        Phase::ProbeDocker => String::from_str("docker --version"),
        Phase::ProbeComposeVersion => String::from_str("docker-compose --version"),
        Phase::WriteTestFile => String::from_str(
            "echo 'services:\n  test:\n    image: hello-world\n' > /tmp/test-docker-compose.yml",
        ),
        Phase::ValidateConfig => String::from_str(
            "cd /tmp && docker-compose -f test-docker-compose.yml config",
        ),
        Phase::RemoveTestFile => String::from_str("rm -f /tmp/test-docker-compose.yml"),
    }
}

/// Whether the command of `phase` must be run capturing its output rather
/// than only checking its exit status.
pub fn is_capture_phase(phase: Phase) -> (r: bool)
    ensures
        r == spec_is_capture(phase),
{
    phase == Phase::ProbeComposeVersion
}

/// The record of one whole validation run: the phases whose commands were
/// issued, everything logged, and the final result.
pub struct RunReport {
    /// The phases whose commands were issued, in order.
    pub issued: Vec<Phase>,
    /// Every line logged during the run, in order.
    pub logs: Vec<LogLine>,
    /// The final result of the run.
    pub result: Result<(), RemoteActionError>,
}

/// The mathematical model of a [`RunReport`].
#[verifier::ext_equal]
pub struct RunModel {
    pub issued: Seq<Phase>,
    pub logs: Seq<LogModel>,
    pub outcome: Result<(), ErrorModel>,
}

impl View for RunReport {
    type V = RunModel;

    open spec fn view(&self) -> RunModel {
        RunModel {
            issued: self.issued@,
            logs: logs_view(self.logs@),
            outcome: result_view(self.result),
        }
    }
}

/// The model of a sequence of prepared outcomes.
pub open spec fn events_view(events: Seq<ProbeEvent>) -> Seq<EventModel> {
    events.map_values(|e: ProbeEvent| e@)
}

/// The run that starts at phase `p` and consumes one prepared outcome per
/// issued command, stepping as [`spec_step`] decides.
pub open spec fn spec_run_from(p: Phase, events: Seq<EventModel>) -> RunModel
    decreases events.len(),
{
    if events.len() == 0 {
        RunModel { issued: Seq::empty(), logs: Seq::empty(), outcome: Ok(()) }
    } else {
        let s = spec_step(p, events[0]);
        match s.next {
            NextModel::Run(q) => {
                let rest = spec_run_from(q, events.drop_first());
                RunModel {
                    issued: seq![p] + rest.issued,
                    logs: s.logs + rest.logs,
                    outcome: rest.outcome,
                }
            },
            NextModel::Done => RunModel { issued: seq![p], logs: s.logs, outcome: Ok(()) },
            NextModel::Fail(e) => RunModel { issued: seq![p], logs: s.logs, outcome: Err(e) },
        }
    }
}

/// The model of a whole `execute` run: the opening log line, then the run
/// from the first probe.
pub open spec fn spec_execute(events: Seq<EventModel>) -> RunModel {
    let r = spec_run_from(Phase::ProbeDocker, events);
    RunModel {
        issued: r.issued,
        logs: seq![LogModel::ValidationStarted] + r.logs,
        outcome: r.outcome,
    }
}

/// Every prepared outcome fits the phase that consumes it.
pub open spec fn events_fit_from(p: Phase, events: Seq<EventModel>) -> bool
    decreases events.len(),
{
    events.len() > 0 ==> {
        &&& event_fits(p, events[0])
        &&& (spec_step(p, events[0]).next matches NextModel::Run(q) ==> events_fit_from(
            q,
            events.drop_first(),
        ))
    }
}

impl DockerComposeValidator {
    /// Run the whole validation sequence against a list of prepared
    /// outcomes, one consumed per issued command, in place of a live
    /// collaborator. The run never needs more than five outcomes; extra
    /// ones are ignored.
    pub fn execute_with_events(&self, events: &Vec<ProbeEvent>) -> (r: RunReport)
        requires
            events@.len() >= 5,
            events_fit_from(Phase::ProbeDocker, events_view(events@)),
        ensures
            r@ == spec_execute(events_view(events@)),
    {
        let ghost full = events_view(events@);
        let mut issued: Vec<Phase> = Vec::new();
        let mut logs: Vec<LogLine> = Vec::new();
        logs.push(LogLine::ValidationStarted);
        let mut result: Result<(), RemoteActionError> = Ok(());
        let mut phase = Phase::ProbeDocker;
        let mut k: usize = 0;
        proof {
            assert(full.skip(0) =~= full);
            assert(issued@ + spec_run_from(phase, full).issued =~= spec_execute(full).issued);
            assert(logs_view(logs@) =~= seq![LogModel::ValidationStarted]);
            assert(logs_view(logs@) + spec_run_from(phase, full).logs =~= spec_execute(full).logs);
        }
        loop
            invariant_except_break
                events@.len() >= 5,
                full == events_view(events@),
                k <= phase_index(phase) <= 4,
                events_fit_from(phase, full.skip(k as int)),
                issued@ + spec_run_from(phase, full.skip(k as int)).issued == spec_execute(
                    full,
                ).issued,
                logs_view(logs@) + spec_run_from(phase, full.skip(k as int)).logs == spec_execute(
                    full,
                ).logs,
                spec_run_from(phase, full.skip(k as int)).outcome == spec_execute(full).outcome,
            ensures
                issued@ == spec_execute(full).issued,
                logs_view(logs@) == spec_execute(full).logs,
                result_view(result) == spec_execute(full).outcome,
            decreases 5 - phase_index(phase),
        {
            proof {
                assert(full.skip(k as int)[0] == events@[k as int]@);
            }
            let StepOutcome { logs: mut step_logs, next } = self.step(phase, &events[k]);
            proof {
                assert(logs_view(logs@ + step_logs@) =~= logs_view(logs@) + logs_view(step_logs@));
                assert(full.skip(k as int).drop_first() =~= full.skip(k as int + 1));
            }
            issued.push(phase);
            logs.append(&mut step_logs);
            match next {
                Next::Run(q) => {
                    proof {
                        lemma_step_advances(phase, full[k as int]);
                        assert(issued@ + spec_run_from(q, full.skip(k as int + 1)).issued
                            =~= spec_execute(full).issued);
                        assert(logs_view(logs@) + spec_run_from(q, full.skip(k as int + 1)).logs
                            =~= spec_execute(full).logs);
                    }
                    phase = q;
                    k = k + 1;
                },
                Next::Done => {
                    proof {
                        assert(issued@ =~= spec_execute(full).issued);
                        assert(logs_view(logs@) =~= spec_execute(full).logs);
                    }
                    result = Ok(());
                    break;
                },
                Next::Fail(e) => {
                    proof {
                        assert(issued@ =~= spec_execute(full).issued);
                        assert(logs_view(logs@) =~= spec_execute(full).logs);
                    }
                    result = Err(e);
                    break;
                },
            }
        }
        let r = RunReport { issued, logs, result };
        proof {
            assert(r@ =~= spec_execute(full));
        }
        r
    }
}

} // verus!
