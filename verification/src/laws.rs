//! The step's guarantees, stated over whole runs.
//!
//! A run is modelled by [`spec_execute`]: one prepared outcome per issued
//! command, consumed in order. Each lemma here holds for every sequence of
//! outcomes its premise admits, so it covers every host that behaves that
//! way.

use vstd::prelude::*;

use crate::model::{ErrorModel, EventModel, LogModel};
use crate::text::spec_trim;
use crate::validator::{
    Phase, spec_action_name, spec_execute, spec_run_from, spec_step,
};

verus! {

/// If the prerequisite probe's command execution fails at the transport
/// level, the run returns that transport error, attributed to the step's
/// own name, and issues no further remote command.
pub proof fn lemma_transport_fault_fails_run(events: Seq<EventModel>)
    requires
        events.len() >= 1,
        events[0] is TransportFault,
    ensures
        spec_execute(events).outcome == Err::<(), ErrorModel>(
            (ErrorModel::SshCommandFailed { action_name: spec_action_name() }),
        ),
        spec_execute(events).issued == seq![Phase::ProbeDocker],
{
}

/// If the prerequisite probe succeeds but reports the container runtime
/// absent, the run succeeds at once: one warning is logged and no command
/// beyond the single probe is issued.
pub proof fn lemma_prerequisite_absent_skips_validation(events: Seq<EventModel>)
    requires
        events.len() >= 1,
        events[0] == EventModel::CheckDone(false),
    ensures
        spec_execute(events).outcome is Ok,
        spec_execute(events).issued == seq![Phase::ProbeDocker],
        spec_execute(events).logs == seq![
            LogModel::ValidationStarted,
            LogModel::SkippedDockerMissing,
        ],
{
    assert(spec_execute(events).logs =~= seq![
        LogModel::ValidationStarted,
        LogModel::SkippedDockerMissing,
    ]);
}

/// If the prerequisite is present but the version query cannot be
/// executed, the run still succeeds, and the configuration write is never
/// attempted.
pub proof fn lemma_version_fault_absorbed(events: Seq<EventModel>)
    requires
        events.len() >= 2,
        events[0] == EventModel::CheckDone(true),
        events[1] is TransportFault,
    ensures
        spec_execute(events).outcome is Ok,
        spec_execute(events).issued == seq![Phase::ProbeDocker, Phase::ProbeComposeVersion],
        !spec_execute(events).issued.contains(Phase::WriteTestFile),
{
    let rest = events.drop_first();
    assert(rest[0] is TransportFault);
    assert(spec_run_from(Phase::ProbeComposeVersion, rest).issued == seq![
        Phase::ProbeComposeVersion,
    ]);
    assert(spec_execute(events).issued =~= seq![Phase::ProbeDocker, Phase::ProbeComposeVersion]);
    assert forall|i: int|
        0 <= i < spec_execute(events).issued.len() implies spec_execute(events).issued[i]
        != Phase::WriteTestFile by {}
}

/// After a successful version probe, the step logs the validation line and
/// then a version line whose text is exactly the trimmed captured text.
pub proof fn lemma_version_log_is_trimmed_text(text: Seq<char>)
    ensures
        spec_step(Phase::ProbeComposeVersion, EventModel::CaptureDone(text)).logs == seq![
            LogModel::ComposeValidated,
            LogModel::ComposeVersion(spec_trim(text)),
        ],
{
}

/// If the temporary-file write reports failure, the run still succeeds,
/// and the configuration-validation subcommand is never attempted.
pub proof fn lemma_write_failure_skips_validation(events: Seq<EventModel>)
    requires
        events.len() >= 3,
        events[0] == EventModel::CheckDone(true),
        events[1] is CaptureDone,
        events[2] == EventModel::CheckDone(false),
    ensures
        spec_execute(events).outcome is Ok,
        spec_execute(events).issued == seq![
            Phase::ProbeDocker,
            Phase::ProbeComposeVersion,
            Phase::WriteTestFile,
        ],
        !spec_execute(events).issued.contains(Phase::ValidateConfig),
{
    let rest1 = events.drop_first();
    let rest2 = rest1.drop_first();
    assert(rest1[0] is CaptureDone);
    assert(rest2[0] == EventModel::CheckDone(false));
    assert(spec_run_from(Phase::WriteTestFile, rest2).issued == seq![Phase::WriteTestFile]);
    assert(spec_run_from(Phase::ProbeComposeVersion, rest1).issued =~= seq![
        Phase::ProbeComposeVersion,
        Phase::WriteTestFile,
    ]);
    assert(spec_execute(events).issued =~= seq![
        Phase::ProbeDocker,
        Phase::ProbeComposeVersion,
        Phase::WriteTestFile,
    ]);
    assert forall|i: int|
        0 <= i < spec_execute(events).issued.len() implies spec_execute(events).issued[i]
        != Phase::ValidateConfig by {}
}

/// If the configuration-validation subcommand reports failure, the run
/// still succeeds (a warning only), and the cleanup command is attempted
/// regardless of its own outcome.
pub proof fn lemma_validation_failure_still_cleans_up(events: Seq<EventModel>)
    requires
        events.len() >= 5,
        events[0] == EventModel::CheckDone(true),
        events[1] is CaptureDone,
        events[2] == EventModel::CheckDone(true),
        events[3] == EventModel::CheckDone(false),
    ensures
        spec_execute(events).outcome is Ok,
        spec_execute(events).issued == seq![
            Phase::ProbeDocker,
            Phase::ProbeComposeVersion,
            Phase::WriteTestFile,
            Phase::ValidateConfig,
            Phase::RemoveTestFile,
        ],
{
    let rest1 = events.drop_first();
    let rest2 = rest1.drop_first();
    let rest3 = rest2.drop_first();
    let rest4 = rest3.drop_first();
    assert(rest1[0] is CaptureDone);
    assert(rest2[0] == EventModel::CheckDone(true));
    assert(rest3[0] == EventModel::CheckDone(false));
    assert(rest4.len() >= 1);
    assert(spec_run_from(Phase::RemoveTestFile, rest4).issued == seq![Phase::RemoveTestFile]);
    assert(spec_run_from(Phase::ValidateConfig, rest3).issued =~= seq![
        Phase::ValidateConfig,
        Phase::RemoveTestFile,
    ]);
    assert(spec_run_from(Phase::WriteTestFile, rest2).issued =~= seq![
        Phase::WriteTestFile,
        Phase::ValidateConfig,
        Phase::RemoveTestFile,
    ]);
    assert(spec_run_from(Phase::ProbeComposeVersion, rest1).issued =~= seq![
        Phase::ProbeComposeVersion,
        Phase::WriteTestFile,
        Phase::ValidateConfig,
        Phase::RemoveTestFile,
    ]);
    assert(spec_execute(events).issued =~= seq![
        Phase::ProbeDocker,
        Phase::ProbeComposeVersion,
        Phase::WriteTestFile,
        Phase::ValidateConfig,
        Phase::RemoveTestFile,
    ]);
}

/// A reachable host with the feature installed: the runtime is present,
/// the version text is captured, and the test file can be written. The
/// validation and cleanup outcomes are left free, since a temporary file
/// left behind by an earlier run may or may not be in the way.
pub open spec fn feature_installed_events(events: Seq<EventModel>) -> bool {
    &&& events.len() >= 5
    &&& events[0] == EventModel::CheckDone(true)
    &&& events[1] is CaptureDone
    &&& events[2] == EventModel::CheckDone(true)
    &&& events[3] is CheckDone
}

/// A run against a reachable host with the feature installed succeeds,
/// whatever the validation and cleanup commands report.
pub proof fn lemma_feature_installed_succeeds(events: Seq<EventModel>)
    requires
        feature_installed_events(events),
    ensures
        spec_execute(events).outcome is Ok,
{
    let rest1 = events.drop_first();
    let rest2 = rest1.drop_first();
    let rest3 = rest2.drop_first();
    let rest4 = rest3.drop_first();
    assert(rest1[0] is CaptureDone);
    assert(rest2[0] == EventModel::CheckDone(true));
    assert(rest3[0] is CheckDone);
    assert(rest4.len() >= 1);
    assert(spec_run_from(Phase::RemoveTestFile, rest4).outcome is Ok);
    assert(spec_run_from(Phase::ValidateConfig, rest3).outcome is Ok);
    assert(spec_run_from(Phase::WriteTestFile, rest2).outcome is Ok);
    assert(spec_run_from(Phase::ProbeComposeVersion, rest1).outcome is Ok);
}

/// Idempotence: two consecutive runs against the same reachable host with
/// the feature installed both yield the success outcome, independent of
/// whether the temporary file from the first run still exists when the
/// second one probes and writes.
pub proof fn lemma_execute_idempotent(first: Seq<EventModel>, second: Seq<EventModel>)
    requires
        feature_installed_events(first),
        feature_installed_events(second),
    ensures
        spec_execute(first).outcome is Ok,
        spec_execute(second).outcome is Ok,
{
    lemma_feature_installed_succeeds(first);
    lemma_feature_installed_succeeds(second);
}

} // verus!
