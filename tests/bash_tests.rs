use std::collections::HashMap;

use api_server::reply::Reply;
use api_server::shell::{plan_bash, BashPlan, BashRequest, CommandEnd, CommandOutput, ShellSession};

/// A stand-in for the shell process: it understands `NAME='value'`,
/// `echo 'text'`, `echo $NAME` and the end-marker echo, and keeps its
/// variables until it is replaced.
struct ToyShell {
    vars: HashMap<String, String>,
}

impl ToyShell {
    fn new() -> ToyShell {
        ToyShell { vars: HashMap::new() }
    }

    fn run(&mut self, input: &str) -> String {
        let mut out = String::new();
        for line in input.lines() {
            if let Some(rest) = line.strip_prefix("echo ") {
                let text = if let Some(name) = rest.strip_prefix('$') {
                    self.vars.get(name).cloned().unwrap_or_default()
                } else {
                    rest.trim_matches('\'').to_string()
                };
                out.push_str(&text);
                out.push('\n');
            } else if let Some((name, value)) = line.split_once('=') {
                self.vars.insert(name.to_string(), value.trim_matches('\'').to_string());
            }
        }
        out
    }
}

/// Serves one request the way the service does, with the toy shell as the process.
fn serve(session: &mut ShellSession, shell: &mut Option<ToyShell>, req: BashRequest) -> Reply {
    match plan_bash(&req) {
        BashPlan::Reject(rep) => rep,
        BashPlan::Restart => {
            *shell = Some(ToyShell::new());
            session.restarted(Ok(()))
        }
        BashPlan::Execute(command) => {
            if session.needs_spawn() {
                *shell = Some(ToyShell::new());
                if let Some(rep) = session.spawned(Ok(())) {
                    return rep;
                }
            }
            let input = match session.begin_command(&command) {
                Ok(input) => input,
                Err(rep) => return rep,
            };
            let printed = shell.as_mut().unwrap().run(&input);
            let mut output = CommandOutput::new();
            for chunk in printed.as_bytes().chunks(4) {
                if output.push_chunk(&String::from_utf8_lossy(chunk)) {
                    break;
                }
            }
            session.command_ended(CommandEnd::Completed { output, stderr: String::new() })
        }
    }
}

fn command(c: &str) -> BashRequest {
    BashRequest { command: Some(c.to_string()), restart: None }
}

#[test]
fn bash_tests_test_basic_bash_commands() {
    let mut session = ShellSession::new();
    let mut shell = None;
    let rep = serve(&mut session, &mut shell, command("echo 'Hello World'"));
    assert_eq!(rep.status, 200);
    assert_eq!(rep.response.data.trim(), "Hello World");
}

#[test]
fn bash_tests_test_session_restart() {
    let mut session = ShellSession::new();
    let mut shell = None;

    let rep = serve(&mut session, &mut shell, command("TEST_VAR='hello'"));
    assert_eq!(rep.status, 200);

    let rep = serve(&mut session, &mut shell, command("echo $TEST_VAR"));
    assert_eq!(rep.status, 200);
    assert_eq!(rep.response.data.trim(), "hello");

    let rep = serve(&mut session, &mut shell, BashRequest { command: None, restart: Some(true) });
    assert_eq!(rep.status, 200);

    let rep = serve(&mut session, &mut shell, command("echo $TEST_VAR"));
    assert_eq!(rep.status, 200);
    assert_eq!(rep.response.data.trim(), "");
}

#[test]
fn echo_answer_is_exactly_trimmed() {
    let mut session = ShellSession::new();
    let mut shell = None;
    let rep = serve(&mut session, &mut shell, command("echo 'Hello World'"));
    assert_eq!(rep.response.data, "Hello World");
    assert_eq!(rep.response.kind, "success");
}

#[test]
fn command_is_framed_with_end_marker() {
    let mut session = ShellSession::new();
    assert!(session.needs_spawn());
    assert!(session.spawned(Ok(())).is_none());
    assert!(!session.needs_spawn());
    assert_eq!(session.begin_command("ls -l").ok().unwrap(), "ls -l\necho '---END---'\n");
}

#[test]
fn output_collection_stops_at_marker() {
    let mut out = CommandOutput::new();
    assert!(!out.push_chunk("  first line\nsecond"));
    assert!(!out.push_chunk(" line\n---EN"));
    assert!(out.push_chunk("D---\nleftover"));
    assert_eq!(out.result(), "first line\nsecond line");
    let mut eof = CommandOutput::new();
    eof.push_chunk("\tpartial output \n");
    assert_eq!(eof.result(), "partial output");
}

#[test]
fn timeout_kills_session_until_restart() {
    let mut session = ShellSession::new();
    session.spawned(Ok(()));
    let rep = session.command_ended(CommandEnd::TimedOut);
    assert_eq!(rep.status, 500);
    assert_eq!(rep.response.data, "Command execution failed: Command execution timed out");
    assert!(!session.needs_spawn());
    for _ in 0..3 {
        let rep = session.begin_command("echo hi").err().unwrap();
        assert_eq!(rep.status, 500);
        assert_eq!(rep.response.data, "Command execution failed: Session timed out");
    }
    session.spawned(Ok(()));
    assert!(session.begin_command("echo hi").is_err());
    let rep = session.restarted(Ok(()));
    assert_eq!(rep.response.data, "Bash session has been restarted");
    assert!(session.begin_command("echo hi").is_ok());
}

#[test]
fn restart_failure_leaves_no_session() {
    let mut session = ShellSession::new();
    session.spawned(Ok(()));
    let rep = session.restarted(Err("no /bin/bash".to_string()));
    assert_eq!(rep.status, 500);
    assert_eq!(rep.response.data, "Failed to restart bash session: no /bin/bash");
    assert!(session.needs_spawn());
    let rep = session.spawned(Err("no /bin/bash".to_string())).unwrap();
    assert_eq!(rep.response.data, "Failed to create bash session: no /bin/bash");
    let rep = session.begin_command("true").err().unwrap();
    assert_eq!(rep.response.data, "No active bash session");
}

#[test]
fn request_without_command_rejected() {
    let rep = match plan_bash(&BashRequest { command: None, restart: Some(false) }) {
        BashPlan::Reject(rep) => rep,
        _ => panic!("expected a rejection"),
    };
    assert_eq!(rep.status, 400);
    assert_eq!(rep.response.data, "Invalid request: command is required when not restarting");
    assert!(matches!(
        plan_bash(&BashRequest { command: Some("ls".to_string()), restart: Some(true) }),
        BashPlan::Restart
    ));
}

#[test]
fn io_failures_are_reported() {
    let mut session = ShellSession::new();
    session.spawned(Ok(()));
    let rep = session.command_ended(CommandEnd::WriteFailed("Broken pipe".to_string()));
    assert_eq!(rep.response.data, "Command execution failed: Failed to write command: Broken pipe");
    let rep = session.command_ended(CommandEnd::FlushFailed("Broken pipe".to_string()));
    assert_eq!(rep.response.data, "Command execution failed: Failed to flush stdin: Broken pipe");
    let rep = session.command_ended(CommandEnd::ReadFailed("closed".to_string()));
    assert_eq!(rep.response.data, "Command execution failed: Failed to read stdout: closed");
    assert!(session.begin_command("ls").is_ok());
}

#[test]
fn stderr_is_appended_when_present() {
    let mut session = ShellSession::new();
    session.spawned(Ok(()));
    let mut out = CommandOutput::new();
    out.push_chunk("ok\n---END---\n");
    let rep = session.command_ended(CommandEnd::Completed { output: out, stderr: "warn".to_string() });
    assert_eq!(rep.response.data, "stdout:\nok\nstderr:\nwarn");
}

/// Requests that pass one by one through the session's gate each get the
/// output of their own command and nothing of another's.
#[test]
fn serialized_commands_do_not_mix() {
    let gate = std::sync::Mutex::new((ShellSession::new(), None::<ToyShell>));
    let handles: Vec<_> = (0..8)
        .map(|i| {
            let gate = &gate;
            move || {
                let mut guard = gate.lock().unwrap();
                let (session, shell) = &mut *guard;
                let rep = serve(session, shell, command(&format!("echo 'reply {}'", i)));
                (i, rep.response.data)
            }
        })
        .collect();
    for h in handles {
        let (i, data) = h();
        assert_eq!(data, format!("reply {}", i));
    }
}

#[test]
fn unicode_white_space_is_trimmed() {
    let mut out = CommandOutput::new();
    out.push_chunk("\u{3000}\u{85}Hello World\u{a0}\u{2028}\n---END---\n");
    assert_eq!(out.result(), "Hello World");
    let mut kept = CommandOutput::new();
    kept.push_chunk("\u{200b}x\u{200b}\n---END---\n");
    assert_eq!(kept.result(), "\u{200b}x\u{200b}");
}
