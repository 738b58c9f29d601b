use pqx::command::{CmdArg, Command, Config, ExecutionResult, OutOfRange, StoredConfig};

fn strings(v: &[&str]) -> Vec<String> {
    v.iter().map(|s| s.to_string()).collect()
}

#[test]
fn new_command_has_no_target_and_no_settings() {
    let c = Command::new(CmdArg::ping("127.0.0.1".to_string()));
    assert!(c.mailing_to().is_empty());
    assert_eq!(*c.config(), Config::default());
    assert!(matches!(c.cmd(), CmdArg::Ping { addr } if addr == "127.0.0.1"));
}

#[test]
fn spawn_ping() {
    let s = CmdArg::ping("127.0.0.1".to_string()).spawn_spec();
    assert_eq!(s.program, "ping");
    assert_eq!(s.args, strings(&["127.0.0.1"]));
    assert_eq!(s.dir, None);
}

#[test]
fn spawn_bash() {
    let s = CmdArg::bash(strings(&["sleep 60"])).spawn_spec();
    assert_eq!(s.program, "bash");
    assert_eq!(s.args, strings(&["-c", "sleep 60"]));
}

#[test]
fn spawn_ssh_and_sshpass() {
    let s = CmdArg::ssh("10.0.0.1".to_string(), "jacob".to_string(), strings(&["ls", "-l"]))
        .spawn_spec();
    assert_eq!(s.program, "ssh");
    assert_eq!(s.args, strings(&["jacob@10.0.0.1", "ls", "-l"]));

    let s = CmdArg::sshpass(
        "10.0.0.1".to_string(),
        "jacob".to_string(),
        "secret".to_string(),
        strings(&["uptime"]),
    )
    .spawn_spec();
    assert_eq!(s.program, "sshpass");
    assert_eq!(s.args, strings(&["-p", "secret", "ssh", "jacob@10.0.0.1", "uptime"]));
    assert_eq!(s.dir, None);
}

#[test]
fn spawn_conda_python() {
    let s = CmdArg::conda_python("py310".to_string(), "/x".to_string(), "ok.py".to_string())
        .spawn_spec();
    assert_eq!(s.program, "conda");
    assert_eq!(
        s.args,
        strings(&["run", "-n", "py310", "--live-stream", "python", "-u", "ok.py"])
    );
    assert_eq!(s.dir, Some("/x".to_string()));
}

#[test]
fn spawn_docker_exec() {
    let s = CmdArg::docker_exec("web".to_string(), strings(&["ps", "aux"])).spawn_spec();
    assert_eq!(s.program, "docker");
    assert_eq!(s.args, strings(&["exec", "web", "ps", "aux"]));
}

#[test]
fn stored_settings_round_trip() {
    let c = Config {
        retry: Some(255),
        poke: Some(65535),
        waiting_timeout: Some(u32::MAX),
        consuming_timeout: None,
    };
    let s = c.widen();
    assert_eq!(
        s,
        StoredConfig {
            retry: Some(255),
            poke: Some(65535),
            waiting_timeout: Some(4294967295),
            consuming_timeout: None,
        }
    );
    assert_eq!(Config::narrow(&s), Ok(c));
}

#[test]
fn stored_settings_out_of_range() {
    let base = StoredConfig { retry: None, poke: None, waiting_timeout: None, consuming_timeout: None };
    assert_eq!(Config::narrow(&StoredConfig { retry: Some(256), ..base }), Err(OutOfRange));
    assert_eq!(Config::narrow(&StoredConfig { retry: Some(-1), ..base }), Err(OutOfRange));
    assert_eq!(Config::narrow(&StoredConfig { poke: Some(65536), ..base }), Err(OutOfRange));
    assert_eq!(
        Config::narrow(&StoredConfig { consuming_timeout: Some(1 << 32), ..base }),
        Err(OutOfRange)
    );
}

#[test]
fn execution_results() {
    let r = ExecutionResult::new(0);
    assert_eq!((r.exit_code, r.result), (0, None));
    let r = ExecutionResult::new_with_result(2, "boom".to_string());
    assert_eq!((r.exit_code, r.result), (2, Some("boom".to_string())));

    let r = ExecutionResult::of_success(Some(0));
    assert_eq!((r.exit_code, r.result), (0, None));
    let r = ExecutionResult::of_success(None);
    assert_eq!(r.exit_code, 1);

    let r = ExecutionResult::of_retry(None);
    assert_eq!((r.exit_code, r.result), (1, Some("timeout".to_string())));
    let r = ExecutionResult::of_retry(Some((Some(3), "exit status: 3".to_string())));
    assert_eq!((r.exit_code, r.result), (3, Some("exit status: 3".to_string())));
    let r = ExecutionResult::of_retry(Some((None, "signal: 9".to_string())));
    assert_eq!((r.exit_code, r.result), (1, Some("signal: 9".to_string())));
}
