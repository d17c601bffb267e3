use rust_remote_shell::shell::{killed, CommandHandler, CommandLine, ShellError};
use rust_remote_shell::transport::{IoError, IoErrorKind};

fn io_error(detail: &str) -> IoError {
    IoError { kind: IoErrorKind::Other, detail: detail.to_string() }
}

/// What the process of a command line writes to its stdout.
fn output(line: &CommandLine) -> String {
    let runtime = tokio::runtime::Runtime::new().unwrap();
    let out = runtime.block_on(async {
        tokio::process::Command::new(&line.program).args(&line.args).output().await.unwrap()
    });
    String::from_utf8(out.stdout).unwrap()
}

#[test]
fn test_execute() {
    // correct input
    let cmd = String::from("echo ciao");
    let cmd_handler = CommandHandler::<u32>::default();
    let res = cmd_handler.execute(cmd).expect("should have returned Ok");
    let cmd_out = output(&res);

    let exp_res = "ciao\n".to_string();

    assert_eq!(cmd_out, exp_res);

    // malformed input
    let cmd = String::from("echo 'MALFORMED INPUT`");
    let cmd_handler = CommandHandler::<u32>::default();
    let res = cmd_handler.execute(cmd);
    assert!(matches!(res, Err(ShellError::MalformedInput)));

    // empty command
    let cmd = String::from("\n");
    let cmd_handler = CommandHandler::<u32>::default();
    let res = cmd_handler.execute(cmd);
    assert!(matches!(res, Err(ShellError::EmptyCommand)));
}

#[test]
fn quoted_words_are_one_argument() {
    let handler = CommandHandler::<u32>::default();
    let line = handler.execute("grep -r \"two words\" a\\ b\n".to_string()).unwrap();
    assert_eq!(
        line,
        CommandLine {
            program: "grep".to_string(),
            args: vec!["-r".to_string(), "two words".to_string(), "a b".to_string()],
        }
    );
}

#[test]
fn blank_commands_are_empty() {
    let handler = CommandHandler::<u32>::default();
    for cmd in ["", " ", "\t\n", "\u{a0}\u{2003} \u{3000}\r\n"] {
        assert_eq!(handler.execute(cmd.to_string()), Err(ShellError::EmptyCommand));
    }
}

#[test]
fn from_words_takes_the_first_as_program() {
    assert_eq!(CommandLine::from_words(vec![]), Err(ShellError::EmptyCommand));
    let line = CommandLine::from_words(vec!["ls".to_string()]).unwrap();
    assert_eq!(line.program, "ls");
    assert!(line.args.is_empty());
}

#[test]
fn ctrl_c_reaches_a_process_once() {
    let mut handler = CommandHandler::<u32>::default();
    assert_eq!(handler.ctrl_c(), Err(ShellError::NoCommand));
    assert_eq!(handler.spawned("sleep".to_string(), Ok(7)), Ok(()));
    assert_eq!(handler.ctrl_c(), Ok(7));
    assert_eq!(handler.ctrl_c(), Err(ShellError::NoCommand));
}

#[test]
fn a_finished_process_is_not_interrupted() {
    let mut handler = CommandHandler::<u32>::default();
    handler.spawned("ls".to_string(), Ok(1)).unwrap();
    handler.empty();
    assert_eq!(handler.ctrl_c(), Err(ShellError::NoCommand));
}

#[test]
fn a_program_that_cannot_start_leaves_the_process() {
    let mut handler = CommandHandler::<u32>::default();
    handler.spawned("a".to_string(), Ok(3)).unwrap();
    let res = handler.spawned("nope".to_string(), Err(io_error("not found")));
    assert_eq!(
        res,
        Err(ShellError::CreateChild { cmd: "nope".to_string(), err: io_error("not found") })
    );
    assert_eq!(handler.child, Some(3));
}

#[test]
fn a_failed_kill_is_reported() {
    assert_eq!(killed(Ok(())), Ok(()));
    assert_eq!(killed(Err(io_error("gone"))), Err(ShellError::KillChild(io_error("gone"))));
}

#[test]
fn shell_errors_have_their_texts() {
    assert_eq!(ShellError::EmptyCommand.message(), "Empty command.");
    assert_eq!(ShellError::MalformedInput.message(), "Malformed input.");
    let err = ShellError::CreateChild { cmd: "foo".to_string(), err: io_error("x") };
    assert_eq!(err.message(), "Error while creating child process to execute command foo");
    assert_eq!(
        ShellError::KillChild(io_error("x")).message(),
        "Error while killing child process."
    );
    assert_eq!(ShellError::NoCommand.message(), "CTRL C without executing any command.");
}
