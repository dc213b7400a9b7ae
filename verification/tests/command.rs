use av1_operator::command::{clone_texts, render_line, Command, Completion};

fn strings(items: &[&str]) -> Vec<String> {
    items.iter().map(|s| s.to_string()).collect()
}

#[test]
fn render_quotes_each_argument() {
    let cmd = Command::new("ls".to_string(), strings(&["-l", "-a"]));
    assert_eq!(cmd.render(), "ls \"-l\" \"-a\"");
    assert_eq!(render_line("ls", &strings(&[])), "ls");
    assert_eq!(render_line("ssh", &strings(&["exit 0"])), "ssh \"exit 0\"");
}

#[test]
fn new_command_has_no_working_directory() {
    let cmd = Command::new("git".to_string(), strings(&["status"]));
    assert_eq!(cmd.program, "git");
    assert_eq!(cmd.args, strings(&["status"]));
    assert_eq!(cmd.cwd, None);
    let cmd = cmd.current_dir("/tmp".to_string());
    assert_eq!(cmd.cwd, Some("/tmp".to_string()));
    assert_eq!(cmd.args, strings(&["status"]));
}

#[test]
fn clone_texts_copies_in_order() {
    let v = strings(&["a", "", "c"]);
    assert_eq!(clone_texts(&v), v);
    assert_eq!(clone_texts(&Vec::new()), Vec::<String>::new());
}

#[test]
fn exit_zero_yields_stdout() {
    let cmd = Command::new("ls".to_string(), strings(&["-l"]));
    let done = Completion::Exited {
        status: Some(0),
        stdout: b"total 0\n".to_vec(),
        stderr: b"warning".to_vec(),
    };
    assert_eq!(cmd.conclude(done).unwrap(), b"total 0\n".to_vec());
}

#[test]
fn nonzero_exit_yields_command_error() {
    let cmd = Command::new("scp".to_string(), strings(&["-O", "a", "b"]));
    let done = Completion::Exited {
        status: Some(1),
        stdout: b"out".to_vec(),
        stderr: b"permission denied".to_vec(),
    };
    let err = cmd.conclude(done).unwrap_err();
    assert_eq!(err.program, "scp");
    assert_eq!(err.args, strings(&["-O", "a", "b"]));
    assert_eq!(err.stdout, b"out".to_vec());
    assert_eq!(err.stderr, b"permission denied".to_vec());
    assert_eq!(err.exit_status, Some(1));
    assert_eq!(err.describe(), "[scp] failed. cmd => scp \"-O\" \"a\" \"b\" <=");
}

#[test]
fn death_by_signal_is_a_failure() {
    let cmd = Command::new("sleep".to_string(), strings(&["100"]));
    let done = Completion::Exited { status: None, stdout: Vec::new(), stderr: Vec::new() };
    let err = cmd.conclude(done).unwrap_err();
    assert_eq!(err.exit_status, None);
    assert_eq!(err.program, "sleep");
}

#[test]
fn spawn_failure_is_a_failure_with_empty_streams() {
    let cmd = Command::new("no-such-program".to_string(), strings(&["x"]));
    let err = cmd.conclude(Completion::SpawnFailed).unwrap_err();
    assert_eq!(err.program, "no-such-program");
    assert_eq!(err.args, strings(&["x"]));
    assert!(err.stdout.is_empty());
    assert!(err.stderr.is_empty());
    assert_eq!(err.exit_status, None);
}
