use av1_operator::command::{Command, CommandError};
use av1_operator::host::{HostId, HostState};
use av1_operator::http::ErrorTrait;
use av1_operator::settings::DataDir;
use av1_operator::enroll::{Action, CredentialFault, EnrollError, Event, Phase, Step};
use av1_operator::ssh::{CreateHostParams, HostBuilder, Site};

fn site() -> Site {
    Site {
        data_dir: DataDir("/data".to_string()),
        agent_port: 18989,
        config_dir: "/etc/av1-operator/configs".to_string(),
    }
}

fn strings(items: &[&str]) -> Vec<String> {
    items.iter().map(|s| s.to_string()).collect()
}

fn failure(program: &str) -> CommandError {
    CommandError {
        program: program.to_string(),
        args: strings(&["x"]),
        stdout: Vec::new(),
        stderr: b"boom".to_vec(),
        exit_status: Some(1),
    }
}

fn ok() -> Event {
    Event::Ran(Ok(Vec::new()))
}

fn run_of(action: Action) -> Command {
    match action {
        Action::Run(command) => command,
        other => panic!("expected a command, got {other:?}"),
    }
}

fn ssh_args(identity: &str, port: &str, url: &str, line: &str) -> Vec<String> {
    strings(&["-i", identity, "-p", port, url, line])
}

#[test]
fn builder_defaults_and_overrides() {
    let b = HostBuilder::new("web1".to_string(), "10.0.0.5".to_string());
    assert_eq!(b.name, "web1");
    assert_eq!(b.ip, "10.0.0.5");
    assert_eq!(b.port, 22);
    assert_eq!(b.user, "root");
    assert_eq!(b.key, None);
    let b = b.port(2222).user("deploy".to_string()).key("KEY".to_string());
    assert_eq!(b.port, 2222);
    assert_eq!(b.user, "deploy");
    assert_eq!(b.key, Some("KEY".to_string()));
    assert_eq!(b.name, "web1");
    assert_eq!(b.ip, "10.0.0.5");
    assert_eq!(b.ssh_url(), "deploy@10.0.0.5");
}

#[test]
fn key_paths_follow_the_layout() {
    let site = site();
    let without = HostBuilder::new("web1".to_string(), "10.0.0.5".to_string());
    assert_eq!(site.ssh_global_key_path(), "/data/ssh/global/id_rsa");
    assert_eq!(without.ssh_key_path(&site), "/data/ssh/global/id_rsa");
    assert_eq!(without.ssh_key_tmp_path(&site), "/data/ssh/tmp/id_10.0.0.5");
    let with = without.key("K".to_string());
    assert_eq!(with.ssh_key_path(&site), "/data/ssh/keys/id_10.0.0.5");
    assert_eq!(with.ssh_committed_key_path(&site), "/data/ssh/keys/id_10.0.0.5");
    assert_eq!(with.ssh_key_tmp_path(&site), "/data/ssh/tmp/id_10.0.0.5");
    assert_ne!(with.ssh_key_path(&site), with.ssh_key_tmp_path(&site));
}

#[test]
fn probe_command_is_a_bounded_no_op() {
    let b = HostBuilder::new("web1".to_string(), "10.0.0.5".to_string()).port(2200);
    let cmd = b.test_ssh_conn("/data/ssh/tmp/id_10.0.0.5");
    assert_eq!(cmd.program, "ssh");
    assert_eq!(
        cmd.args,
        strings(&[
            "-q",
            "-o",
            "BatchMode=yes",
            "-o",
            "StrictHostKeyChecking=no",
            "-o",
            "ConnectTimeout=5",
            "-p",
            "2200",
            "-i",
            "/data/ssh/tmp/id_10.0.0.5",
            "root@10.0.0.5",
            "exit 0",
        ])
    );
    assert_eq!(cmd.cwd, None);
}

#[test]
fn remote_and_copy_commands() {
    let site = site();
    let b = HostBuilder::new("web1".to_string(), "10.0.0.5".to_string());
    let cmd = b.run_ssh_cmd(&site, "uptime");
    assert_eq!(cmd.program, "ssh");
    assert_eq!(cmd.args, ssh_args("/data/ssh/global/id_rsa", "22", "root@10.0.0.5", "uptime"));
    let cmd = b.scp(&site, "/local/file", "/remote/file");
    assert_eq!(cmd.program, "scp");
    assert_eq!(
        cmd.args,
        strings(&[
            "-O",
            "-i",
            "/data/ssh/global/id_rsa",
            "-r",
            "-P",
            "22",
            "/local/file",
            "root@10.0.0.5:/remote/file",
        ])
    );
}

#[test]
fn enrollment_with_a_key_runs_every_step_in_order() {
    let site = site();
    let b = HostBuilder::new("web2".to_string(), "10.0.0.6".to_string()).key("K".to_string());
    let identity = "/data/ssh/keys/id_10.0.0.6";
    let staged = "/data/ssh/tmp/id_10.0.0.6";
    let url = "root@10.0.0.6";

    let (phase, action) = b.advance(&site, Phase::Start, Event::Begin);
    assert_eq!(phase, Phase::Staging);
    match action {
        Action::Stage { path, key } => {
            assert_eq!(path, staged);
            assert_eq!(key, "K");
        }
        other => panic!("unexpected {other:?}"),
    }

    let (phase, action) = b.advance(&site, phase, Event::Stored(true));
    assert_eq!(phase, Phase::Probing);
    let probe = run_of(action);
    assert_eq!(probe.args[10], staged);
    assert_eq!(probe.args[12], "exit 0");

    let (phase, action) = b.advance(&site, phase, ok());
    assert_eq!(phase, Phase::Committing);
    match action {
        Action::Promote { from, to } => {
            assert_eq!(from, staged);
            assert_eq!(to, identity);
        }
        other => panic!("unexpected {other:?}"),
    }

    let (phase, action) = b.advance(&site, phase, Event::Stored(true));
    assert_eq!(phase, Phase::OpeningPort);
    assert_eq!(
        run_of(action).args,
        ssh_args(identity, "22", url, "firewall-cmd --add-port 18989/tcp")
    );

    let (phase, action) = b.advance(&site, phase, ok());
    assert_eq!(phase, Phase::StoppingPrior);
    assert_eq!(
        run_of(action).args,
        ssh_args(identity, "22", url, "systemctl stop av1-envoy || true")
    );

    let (phase, action) = b.advance(&site, phase, ok());
    assert_eq!(phase, Phase::CopyingBinary);
    let copy = run_of(action);
    assert_eq!(copy.program, "scp");
    assert_eq!(
        copy.args,
        strings(&[
            "-O",
            "-i",
            identity,
            "-r",
            "-P",
            "22",
            "/data/bin/av1-envoy",
            "root@10.0.0.6:/usr/local/bin/av1-envoy",
        ])
    );

    let (phase, action) = b.advance(&site, phase, ok());
    assert_eq!(phase, Phase::CopyingUnit);
    let copy = run_of(action);
    assert_eq!(copy.args[6], "/etc/av1-operator/configs/av1-envoy.service");
    assert_eq!(copy.args[7], "root@10.0.0.6:/etc/systemd/system/av1-envoy.service");

    let (phase, action) = b.advance(&site, phase, ok());
    assert_eq!(phase, Phase::Reloading);
    assert_eq!(run_of(action).args, ssh_args(identity, "22", url, "systemctl daemon-reload"));

    let (phase, action) = b.advance(&site, phase, ok());
    assert_eq!(phase, Phase::Starting);
    assert_eq!(
        run_of(action).args,
        ssh_args(identity, "22", url, "systemctl start av1-envoy.service")
    );

    let (phase, action) = b.advance(&site, phase, ok());
    assert_eq!(phase, Phase::Enabling);
    assert_eq!(
        run_of(action).args,
        ssh_args(identity, "22", url, "systemctl enable av1-envoy.service")
    );

    let (phase, action) = b.advance(&site, phase, ok());
    assert_eq!(phase, Phase::Done);
    assert!(matches!(action, Action::Finish));

    let host = b.build(phase, HostId(77)).expect("enrolled");
    assert_eq!(host.id, HostId(77));
    assert_eq!(host.name, "web2");
    assert_eq!(host.ip, "10.0.0.6");
    assert_eq!(host.state, HostState::Running);
}

#[test]
fn setup_commands_never_name_the_staged_key() {
    let site = site();
    let b = HostBuilder::new("web2".to_string(), "10.0.0.6".to_string()).key("K".to_string());
    let staged = b.ssh_key_tmp_path(&site);
    let phases = [
        Phase::OpeningPort,
        Phase::StoppingPrior,
        Phase::CopyingBinary,
        Phase::CopyingUnit,
        Phase::Reloading,
        Phase::Starting,
        Phase::Enabling,
    ];
    for phase in phases {
        assert!(phase.is_deployment());
        let cmd = b.send_envoy(&site, phase).expect("a setup command");
        assert!(cmd.args.iter().all(|arg| *arg != staged), "{phase:?}");
        assert!(cmd.args.iter().any(|arg| arg == "/data/ssh/keys/id_10.0.0.6"), "{phase:?}");
    }
}

#[test]
fn enrollment_without_a_key_uses_the_fallback_unprobed() {
    let site = site();
    let b = HostBuilder::new("web1".to_string(), "10.0.0.5".to_string());
    let (phase, action) = b.advance(&site, Phase::Start, Event::Begin);
    assert_eq!(phase, Phase::Locating);
    match action {
        Action::Locate { path } => assert_eq!(path, "/data/ssh/global/id_rsa"),
        other => panic!("unexpected {other:?}"),
    }
    let (phase, action) = b.advance(&site, phase, Event::Located(true));
    assert_eq!(phase, Phase::OpeningPort);
    let cmd = run_of(action);
    assert_eq!(
        cmd.args,
        ssh_args(
            "/data/ssh/global/id_rsa",
            "22",
            "root@10.0.0.5",
            "firewall-cmd --add-port 18989/tcp"
        )
    );
}

#[test]
fn enroll_without_any_key_fails_before_any_command() {
    let site = site();
    let b = HostBuilder::new("web1".to_string(), "10.0.0.5".to_string());
    let (phase, action) = b.advance(&site, Phase::Start, Event::Begin);
    assert!(!matches!(action, Action::Run(_)));
    let (phase, action) = b.advance(&site, phase, Event::Located(false));
    assert_eq!(phase, Phase::Failed);
    match action {
        Action::Abort(EnrollError::Credential(fault)) => {
            assert_eq!(fault, CredentialFault::NoGlobalKey)
        }
        other => panic!("unexpected {other:?}"),
    }
    assert!(b.build(phase, HostId(1)).is_none());
}

#[test]
fn enroll_with_failing_copy_aborts_at_copy() {
    let site = site();
    let b = HostBuilder::new("web2".to_string(), "10.0.0.6".to_string()).key("K".to_string());
    let (phase, _) = b.advance(&site, Phase::Start, Event::Begin);
    let (phase, _) = b.advance(&site, phase, Event::Stored(true));
    let (phase, _) = b.advance(&site, phase, ok());
    let (phase, _) = b.advance(&site, phase, Event::Stored(true));
    let (phase, _) = b.advance(&site, phase, ok());
    let (phase, _) = b.advance(&site, phase, ok());
    assert_eq!(phase, Phase::CopyingBinary);
    let (phase, action) = b.advance(&site, phase, Event::Ran(Err(failure("scp"))));
    assert_eq!(phase, Phase::Failed);
    match action {
        Action::Abort(EnrollError::Deployment { step, error }) => {
            assert_eq!(step, Step::Copy);
            assert_eq!(error.program, "scp");
            assert_eq!(error.stderr, b"boom".to_vec());
            assert_eq!(error.exit_status, Some(1));
        }
        other => panic!("unexpected {other:?}"),
    }
    assert!(b.build(phase, HostId(2)).is_none());
}

#[test]
fn failing_unit_copy_is_a_copy_failure_too() {
    let site = site();
    let b = HostBuilder::new("web2".to_string(), "10.0.0.6".to_string());
    let (phase, action) = b.advance(&site, Phase::CopyingUnit, Event::Ran(Err(failure("scp"))));
    assert_eq!(phase, Phase::Failed);
    assert!(matches!(action, Action::Abort(EnrollError::Deployment { step: Step::Copy, .. })));
}

#[test]
fn a_missing_prior_agent_does_not_abort() {
    let site = site();
    let b = HostBuilder::new("web1".to_string(), "10.0.0.5".to_string());
    let (phase, action) = b.advance(&site, Phase::StoppingPrior, Event::Ran(Err(failure("ssh"))));
    assert_eq!(phase, Phase::CopyingBinary);
    let after_failure = run_of(action);
    let (phase, action) = b.advance(&site, Phase::StoppingPrior, ok());
    assert_eq!(phase, Phase::CopyingBinary);
    let after_success = run_of(action);
    assert_eq!(after_failure.program, after_success.program);
    assert_eq!(after_failure.args, after_success.args);
}

#[test]
fn each_other_step_aborts_with_its_name() {
    let site = site();
    let b = HostBuilder::new("web1".to_string(), "10.0.0.5".to_string());
    let cases = [
        (Phase::OpeningPort, Step::OpenPort),
        (Phase::CopyingBinary, Step::Copy),
        (Phase::Reloading, Step::Activate),
        (Phase::Starting, Step::Activate),
        (Phase::Enabling, Step::Activate),
    ];
    for (phase, expected) in cases {
        let (next, action) = b.advance(&site, phase, Event::Ran(Err(failure("ssh"))));
        assert_eq!(next, Phase::Failed);
        match action {
            Action::Abort(EnrollError::Deployment { step, .. }) => assert_eq!(step, expected),
            other => panic!("unexpected {other:?}"),
        }
    }
}

#[test]
fn a_failed_probe_is_a_connectivity_error_and_commits_nothing() {
    let site = site();
    let b = HostBuilder::new("web2".to_string(), "10.0.0.6".to_string()).key("K".to_string());
    let (phase, action) = b.advance(&site, Phase::Probing, Event::Ran(Err(failure("ssh"))));
    assert_eq!(phase, Phase::Failed);
    match action {
        Action::Abort(EnrollError::Connectivity(error)) => assert_eq!(error.program, "ssh"),
        other => panic!("unexpected {other:?}"),
    }
}

#[test]
fn staging_and_promotion_failures_are_credential_errors() {
    let site = site();
    let b = HostBuilder::new("web2".to_string(), "10.0.0.6".to_string()).key("K".to_string());
    let (phase, action) = b.advance(&site, Phase::Staging, Event::Stored(false));
    assert_eq!(phase, Phase::Failed);
    assert!(matches!(action, Action::Abort(EnrollError::Credential(CredentialFault::Staging))));
    let (phase, action) = b.advance(&site, Phase::Committing, Event::Stored(false));
    assert_eq!(phase, Phase::Failed);
    assert!(matches!(action, Action::Abort(EnrollError::Credential(CredentialFault::Promotion))));
}

#[test]
fn an_event_out_of_turn_ends_enrollment() {
    let site = site();
    let b = HostBuilder::new("web1".to_string(), "10.0.0.5".to_string());
    let cases = [
        (Phase::Start, Event::Stored(true)),
        (Phase::Start, ok()),
        (Phase::Staging, Event::Begin),
        (Phase::Locating, Event::Stored(true)),
        (Phase::Probing, Event::Located(true)),
        (Phase::Committing, ok()),
        (Phase::OpeningPort, Event::Begin),
        (Phase::Enabling, Event::Stored(true)),
        (Phase::Done, Event::Begin),
        (Phase::Done, ok()),
        (Phase::Failed, Event::Begin),
    ];
    for (phase, event) in cases {
        let (next, action) = b.advance(&site, phase, event);
        assert_eq!(next, Phase::Failed);
        assert!(matches!(action, Action::Abort(EnrollError::OutOfTurn)));
    }
}

#[test]
fn no_host_before_the_end() {
    let phases = [
        Phase::Start,
        Phase::Staging,
        Phase::Locating,
        Phase::Probing,
        Phase::Committing,
        Phase::OpeningPort,
        Phase::StoppingPrior,
        Phase::CopyingBinary,
        Phase::CopyingUnit,
        Phase::Reloading,
        Phase::Starting,
        Phase::Enabling,
        Phase::Failed,
    ];
    for phase in phases {
        let b = HostBuilder::new("web1".to_string(), "10.0.0.5".to_string());
        assert!(b.build(phase, HostId(5)).is_none());
    }
}

#[test]
fn only_deployment_phases_have_a_setup_command() {
    let site = site();
    let b = HostBuilder::new("web1".to_string(), "10.0.0.5".to_string());
    for phase in [
        Phase::Start,
        Phase::Staging,
        Phase::Locating,
        Phase::Probing,
        Phase::Committing,
        Phase::Done,
        Phase::Failed,
    ] {
        assert!(!phase.is_deployment());
        assert!(b.send_envoy(&site, phase).is_none());
    }
    let stop = b.send_envoy(&site, Phase::StoppingPrior).unwrap();
    assert_eq!(stop.args[5], "systemctl stop av1-envoy || true");
    assert_eq!(Step::Copy.name(), "copy");
    assert_eq!(Step::Credential.name(), "credential");
    assert_eq!(Step::OpenPort.name(), "open-port");
    assert_eq!(Step::StopPrior.name(), "stop-prior");
    assert_eq!(Step::Activate.name(), "activate");
}

#[test]
fn enrollment_errors_read_well() {
    assert_eq!(EnrollError::Credential(CredentialFault::NoGlobalKey).message(), "no global key");
    assert_eq!(EnrollError::OutOfTurn.message(), "unexpected event");
    let e = EnrollError::Deployment { step: Step::Copy, error: failure("scp") };
    assert_eq!(e.message(), "deployment failed at step copy: [scp] failed. cmd => scp \"x\" <=");
    let e = EnrollError::Connectivity(failure("ssh"));
    assert_eq!(e.message(), "ssh connection failed: [ssh] failed. cmd => ssh \"x\" <=");
}

#[test]
fn request_defaults_to_root_on_port_22_with_the_fallback_key() {
    let params = CreateHostParams {
        name: "web1".to_string(),
        ip: "10.0.0.5".to_string(),
        port: None,
        user: None,
        key: None,
    };
    let b = params.into_builder();
    assert_eq!(b.name, "web1");
    assert_eq!(b.ip, "10.0.0.5");
    assert_eq!(b.port, 22);
    assert_eq!(b.user, "root");
    assert_eq!(b.key, None);
}

#[test]
fn request_overrides_are_kept() {
    let params = CreateHostParams {
        name: "web2".to_string(),
        ip: "10.0.0.6".to_string(),
        port: Some(2222),
        user: Some("deploy".to_string()),
        key: Some("K".to_string()),
    };
    let b = params.into_builder();
    assert_eq!(b.port, 2222);
    assert_eq!(b.user, "deploy");
    assert_eq!(b.key, Some("K".to_string()));
}
