use compose_validation::model::{is_warning, LogLine, ProbeEvent, RemoteActionError};
use compose_validation::text::trimmed;
use compose_validation::validator::{
    command_text, is_capture_phase, DockerComposeValidator, Next, Phase,
};

fn validator() -> DockerComposeValidator {
    DockerComposeValidator::new("/home/user/.ssh/id_ed25519", "admin", false)
}

#[test]
fn new_keeps_configuration() {
    let v = DockerComposeValidator::new("/tmp/key", "deploy", true);
    assert_eq!(v.ssh_key_path, "/tmp/key");
    assert_eq!(v.username, "deploy");
    assert!(v.verbose);
}

#[test]
fn name_is_fixed() {
    assert_eq!(validator().name(), "docker-compose-validation");
}

#[test]
fn start_logs_and_probes_docker() {
    let r = validator().start();
    assert_eq!(r.logs, vec![LogLine::ValidationStarted]);
    assert_eq!(r.next, Next::Run(Phase::ProbeDocker));
}

#[test]
fn command_texts_are_the_shell_commands() {
    assert_eq!(command_text(Phase::ProbeDocker), "docker --version");
    assert_eq!(command_text(Phase::ProbeComposeVersion), "docker-compose --version");
    assert_eq!(
        command_text(Phase::WriteTestFile),
        "echo 'services:\n  test:\n    image: hello-world\n' > /tmp/test-docker-compose.yml",
    );
    assert_eq!(
        command_text(Phase::ValidateConfig),
        "cd /tmp && docker-compose -f test-docker-compose.yml config",
    );
    assert_eq!(command_text(Phase::RemoveTestFile), "rm -f /tmp/test-docker-compose.yml");
}

#[test]
fn only_the_version_probe_captures_output() {
    assert!(!is_capture_phase(Phase::ProbeDocker));
    assert!(is_capture_phase(Phase::ProbeComposeVersion));
    assert!(!is_capture_phase(Phase::WriteTestFile));
    assert!(!is_capture_phase(Phase::ValidateConfig));
    assert!(!is_capture_phase(Phase::RemoveTestFile));
}

#[test]
fn trimmed_strips_both_ends() {
    assert_eq!(trimmed("  docker-compose version 1.29.2\n"), "docker-compose version 1.29.2");
    assert_eq!(trimmed(""), "");
    assert_eq!(trimmed(" \t\r\n"), "");
    assert_eq!(trimmed("no padding"), "no padding");
    assert_eq!(trimmed("inner  space kept \n"), "inner  space kept");
}

#[test]
fn transport_fault_on_first_probe_fails_the_run() {
    let v = validator();
    let events = vec![
        ProbeEvent::TransportFault,
        ProbeEvent::CaptureDone(String::new()),
        ProbeEvent::CheckDone(true),
        ProbeEvent::CheckDone(true),
        ProbeEvent::CheckDone(true),
    ];
    let r = v.execute_with_events(&events);
    assert_eq!(
        r.result,
        Err(RemoteActionError::SshCommandFailed {
            action_name: String::from("docker-compose-validation"),
        }),
    );
    assert_eq!(r.issued, vec![Phase::ProbeDocker]);
    assert_eq!(r.logs, vec![LogLine::ValidationStarted]);
}

#[test]
fn docker_absent_skips_validation() {
    let v = validator();
    let events = vec![
        ProbeEvent::CheckDone(false),
        ProbeEvent::CaptureDone(String::new()),
        ProbeEvent::CheckDone(true),
        ProbeEvent::CheckDone(true),
        ProbeEvent::CheckDone(true),
    ];
    let r = v.execute_with_events(&events);
    assert_eq!(r.result, Ok(()));
    assert_eq!(r.issued, vec![Phase::ProbeDocker]);
    assert_eq!(r.logs, vec![LogLine::ValidationStarted, LogLine::SkippedDockerMissing]);
}

#[test]
fn version_query_fault_is_absorbed() {
    let v = validator();
    let events = vec![
        ProbeEvent::CheckDone(true),
        ProbeEvent::TransportFault,
        ProbeEvent::CheckDone(true),
        ProbeEvent::CheckDone(true),
        ProbeEvent::CheckDone(true),
    ];
    let r = v.execute_with_events(&events);
    assert_eq!(r.result, Ok(()));
    assert_eq!(r.issued, vec![Phase::ProbeDocker, Phase::ProbeComposeVersion]);
    assert!(!r.issued.contains(&Phase::WriteTestFile));
    assert_eq!(r.logs, vec![LogLine::ValidationStarted, LogLine::ComposeNotFound]);
}

#[test]
fn version_log_is_the_trimmed_captured_text() {
    let v = validator();
    let events = vec![
        ProbeEvent::CheckDone(true),
        ProbeEvent::CaptureDone(String::from("docker-compose version 1.29.2, build 5becea4c\n")),
        ProbeEvent::CheckDone(true),
        ProbeEvent::CheckDone(true),
        ProbeEvent::CheckDone(true),
    ];
    let r = v.execute_with_events(&events);
    assert_eq!(r.result, Ok(()));
    assert_eq!(
        r.logs,
        vec![
            LogLine::ValidationStarted,
            LogLine::ComposeValidated,
            LogLine::ComposeVersion(String::from("docker-compose version 1.29.2, build 5becea4c")),
            LogLine::ConfigValidationPassed,
        ],
    );
}

#[test]
fn write_failure_skips_the_validation_subcommand() {
    let v = validator();
    let events = vec![
        ProbeEvent::CheckDone(true),
        ProbeEvent::CaptureDone(String::from("docker-compose version 1.29.2\n")),
        ProbeEvent::CheckDone(false),
        ProbeEvent::CheckDone(true),
        ProbeEvent::CheckDone(true),
    ];
    let r = v.execute_with_events(&events);
    assert_eq!(r.result, Ok(()));
    assert_eq!(
        r.issued,
        vec![Phase::ProbeDocker, Phase::ProbeComposeVersion, Phase::WriteTestFile],
    );
    assert!(!r.issued.contains(&Phase::ValidateConfig));
    assert_eq!(*r.logs.last().unwrap(), LogLine::TestFileNotCreated);
}

#[test]
fn validation_failure_warns_and_still_cleans_up() {
    let v = validator();
    let events = vec![
        ProbeEvent::CheckDone(true),
        ProbeEvent::CaptureDone(String::from("docker-compose version 1.29.2\n")),
        ProbeEvent::CheckDone(true),
        ProbeEvent::CheckDone(false),
        ProbeEvent::CheckDone(true),
    ];
    let r = v.execute_with_events(&events);
    assert_eq!(r.result, Ok(()));
    assert_eq!(
        r.issued,
        vec![
            Phase::ProbeDocker,
            Phase::ProbeComposeVersion,
            Phase::WriteTestFile,
            Phase::ValidateConfig,
            Phase::RemoveTestFile,
        ],
    );
    assert!(r.logs.contains(&LogLine::ConfigValidationSkipped));
}

#[test]
fn cleanup_fault_is_discarded() {
    let v = validator();
    let events = vec![
        ProbeEvent::CheckDone(true),
        ProbeEvent::CaptureDone(String::from("docker-compose version 1.29.2\n")),
        ProbeEvent::CheckDone(true),
        ProbeEvent::CheckDone(true),
        ProbeEvent::TransportFault,
    ];
    let r = v.execute_with_events(&events);
    assert_eq!(r.result, Ok(()));
    assert!(r.issued.contains(&Phase::RemoveTestFile));
}

#[test]
fn repeated_runs_succeed_whatever_the_stale_file_does() {
    let v = validator();
    let first = vec![
        ProbeEvent::CheckDone(true),
        ProbeEvent::CaptureDone(String::from("docker-compose version 1.29.2\n")),
        ProbeEvent::CheckDone(true),
        ProbeEvent::CheckDone(true),
        ProbeEvent::CheckDone(false),
    ];
    // The cleanup of the first run failed, so a stale temporary file is in
    // the way: the second run overwrites it and may see validation fail.
    let second = vec![
        ProbeEvent::CheckDone(true),
        ProbeEvent::CaptureDone(String::from("docker-compose version 1.29.2\n")),
        ProbeEvent::CheckDone(true),
        ProbeEvent::CheckDone(false),
        ProbeEvent::CheckDone(true),
    ];
    let r1 = v.execute_with_events(&first);
    let r2 = v.execute_with_events(&second);
    assert_eq!(r1.result, Ok(()));
    assert_eq!(r2.result, Ok(()));
}

#[test]
fn step_on_successful_validation_logs_and_cleans_up() {
    let v = validator();
    let r = v.step(Phase::ValidateConfig, &ProbeEvent::CheckDone(true));
    assert_eq!(r.logs, vec![LogLine::ConfigValidationPassed]);
    assert_eq!(r.next, Next::Run(Phase::RemoveTestFile));
}

#[test]
fn step_on_cleanup_always_finishes() {
    let v = validator();
    assert_eq!(v.step(Phase::RemoveTestFile, &ProbeEvent::CheckDone(false)).next, Next::Done);
    assert_eq!(v.step(Phase::RemoveTestFile, &ProbeEvent::TransportFault).next, Next::Done);
}

#[test]
fn warnings_are_told_apart_from_information() {
    assert!(!is_warning(&LogLine::ValidationStarted));
    assert!(is_warning(&LogLine::SkippedDockerMissing));
    assert!(is_warning(&LogLine::ComposeNotFound));
    assert!(!is_warning(&LogLine::ComposeValidated));
    assert!(!is_warning(&LogLine::ComposeVersion(String::from("1.29.2"))));
    assert!(is_warning(&LogLine::TestFileNotCreated));
    assert!(!is_warning(&LogLine::ConfigValidationPassed));
    assert!(is_warning(&LogLine::ConfigValidationSkipped));
}
