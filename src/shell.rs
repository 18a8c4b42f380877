//! The persistent shell session: what a request asks of it, how a command is
//! framed so that its end can be seen in the output stream, when the output
//! is complete, and how the session's status moves between requests.
//!
//! The caller owns the shell process and performs the I/O; it asks a
//! [`ShellSession`] what to do and reports back what happened.
use vstd::prelude::*;

use crate::reply::{failure, failure_with, is_error, is_success, success, Reply, BAD_REQUEST, SERVER_ERROR};
use crate::text::{
    chars_of, contains, find, occurs_at, push_str, string_of, trim, trim_end, trim_exec, trim_start,
    white_space,
};

verus! {

/// How long a command may run before the session is given up.
pub const COMMAND_TIMEOUT_SECS: u64 = 30;

pub struct BashRequest {
    pub command: Option<String>,
    pub restart: Option<bool>,
}

/// What a shell request asks for.
pub enum BashPlan {
    /// Stop the session, if any, and start a fresh one.
    Restart,
    /// Run this command in the session, starting one first if there is none.
    Execute(String),
    /// The request is malformed.
    Reject(Reply),
}

/// Decides what a shell request asks for: a restart wins over a command.
pub fn plan_bash(req: &BashRequest) -> (r: BashPlan)
    ensures
        req.restart == Some(true) ==> r == BashPlan::Restart,
        req.restart != Some(true) ==> match req.command {
            Some(c) => r matches BashPlan::Execute(x) && x@ == c@,
            None => r matches BashPlan::Reject(rep) && is_error(
                rep,
                BAD_REQUEST,
                "Invalid request: command is required when not restarting"@,
            ),
        },
{
    match req.restart {
        Some(true) => BashPlan::Restart,
        _ => match &req.command {
            Some(c) => BashPlan::Execute(string_of(&chars_of(c.as_str()))),
            None => BashPlan::Reject(
                failure(
                    BAD_REQUEST,
                    string_of(&chars_of("Invalid request: command is required when not restarting")),
                ),
            ),
        },
    }
}

/// The line that the shell prints once a command is over.
pub open spec fn end_marker() -> Seq<char> {
    "---END---"@
}

/// What is written to the shell for `command`: the command, then an echo of the end marker.
pub open spec fn framed(command: Seq<char>) -> Seq<char> {
    command + "\necho '"@ + end_marker() + "'\n"@
}

/// The first index at which `p` occurs in `s`.
pub open spec fn first_occurrence(s: Seq<char>, p: Seq<char>) -> int {
    choose|i: int| occurs_at(s, p, i) && forall|j: int| 0 <= j < i ==> !occurs_at(s, p, j)
}

/// The output of a command: what the shell printed before the end marker,
/// or all of it if the stream ended first.
pub open spec fn before_marker(out: Seq<char>) -> Seq<char> {
    if contains(out, end_marker()) {
        out.subrange(0, first_occurrence(out, end_marker()))
    } else {
        out
    }
}

/// What a command's answer carries: its output without surrounding white space.
pub open spec fn command_result(out: Seq<char>) -> Seq<char> {
    trim(before_marker(out))
}

/// The output of one command, as it arrives.
pub struct CommandOutput {
    text: Vec<char>,
}

impl View for CommandOutput {
    type V = Seq<char>;

    closed spec fn view(&self) -> Seq<char> {
        self.text@
    }
}

proof fn lemma_first_occurrence(s: Seq<char>, p: Seq<char>, i: int)
    requires
        occurs_at(s, p, i),
        forall|j: int| 0 <= j < i ==> !occurs_at(s, p, j),
    ensures
        first_occurrence(s, p) == i,
{
    let k = first_occurrence(s, p);
    assert(occurs_at(s, p, k) && forall|j: int| 0 <= j < k ==> !occurs_at(s, p, j));
    if k < i {
        assert(!occurs_at(s, p, k));
    }
    if i < k {
        assert(!occurs_at(s, p, i));
    }
}

impl CommandOutput {
    pub fn new() -> (r: CommandOutput)
        ensures
            r@ == Seq::<char>::empty(),
    {
        CommandOutput { text: Vec::new() }
    }

    /// Adds a chunk of output; says whether the end marker has now been seen.
    pub fn push_chunk(&mut self, chunk: &str) -> (done: bool)
        ensures
            final(self)@ == old(self)@ + chunk@,
            done == contains(final(self)@, end_marker()),
    {
        push_str(&mut self.text, chunk);
        let marker = chars_of("---END---");
        match find(&self.text, &marker) {
            Some(_) => true,
            None => false,
        }
    }

    /// The text that answers the command.
    pub fn result(&self) -> (r: String)
        ensures
            r@ == command_result(self@),
    {
        let marker = chars_of("---END---");
        match find(&self.text, &marker) {
            Some(i) => {
                proof {
                    lemma_first_occurrence(self.text@, end_marker(), i as int);
                }
                let mut head: Vec<char> = Vec::new();
                let mut k: usize = 0;
                while k < i
                    invariant
                        k <= i,
                        i <= self.text@.len(),
                        head@ == self.text@.subrange(0, k as int),
                    decreases i - k,
                {
                    head.push(self.text[k]);
                    k = k + 1;
                }
                string_of(&trim_exec(&head))
            },
            None => string_of(&trim_exec(&self.text)),
        }
    }
}

/// Where the session stands between requests.
pub enum SessionStatus {
    /// No shell is running.
    Absent,
    /// A shell is running and takes commands.
    Running,
    /// A command ran out of time; no command is taken until a restart.
    TimedOut,
}

/// What can happen to the session.
pub enum SessionEvent {
    Restarted,
    RestartFailed,
    Spawned,
    SpawnFailed,
    CommandTimedOut,
    CommandFinished,
}

/// The status after `e`.
pub open spec fn next_status(s: SessionStatus, e: SessionEvent) -> SessionStatus {
    match e {
        SessionEvent::Restarted => SessionStatus::Running,
        SessionEvent::RestartFailed => SessionStatus::Absent,
        SessionEvent::Spawned => match s {
            SessionStatus::Absent => SessionStatus::Running,
            _ => s,
        },
        SessionEvent::SpawnFailed => s,
        SessionEvent::CommandTimedOut => SessionStatus::TimedOut,
        SessionEvent::CommandFinished => s,
    }
}

/// The status after each of `evs` in turn.
pub open spec fn replay(s: SessionStatus, evs: Seq<SessionEvent>) -> SessionStatus
    decreases evs.len(),
{
    if evs.len() == 0 {
        s
    } else {
        replay(next_status(s, evs[0]), evs.skip(1))
    }
}

/// How a command's run ended.
pub enum CommandEnd {
    /// The output was read to the end marker or to the end of the stream.
    Completed { output: CommandOutput, stderr: String },
    WriteFailed(String),
    FlushFailed(String),
    ReadFailed(String),
    /// The time limit passed first.
    TimedOut,
}

/// The data of a completed command: its output, and its error output when there is any.
pub open spec fn command_data(out: Seq<char>, err: Seq<char>) -> Seq<char> {
    if err.len() == 0 {
        out
    } else {
        "stdout:\n"@ + out + "\nstderr:\n"@ + err
    }
}

/// The decisions about the one shell session of the service.
pub struct ShellSession {
    status: SessionStatus,
}

impl ShellSession {
    pub closed spec fn status(&self) -> SessionStatus {
        self.status
    }

    /// No shell has been started yet.
    pub fn new() -> (r: ShellSession)
        ensures
            r.status() == SessionStatus::Absent,
    {
        ShellSession { status: SessionStatus::Absent }
    }

    /// Whether a shell must be started before a command can run.
    pub fn needs_spawn(&self) -> (r: bool)
        ensures
            r == (self.status() == SessionStatus::Absent),
    {
        match self.status {
            SessionStatus::Absent => true,
            _ => false,
        }
    }

    /// Records the outcome of a restart, after any old shell was stopped.
    pub fn restarted(&mut self, outcome: Result<(), String>) -> (r: Reply)
        ensures
            match outcome {
                Ok(_) => final(self).status() == next_status(old(self).status(), SessionEvent::Restarted)
                    && is_success(r, "Bash session has been restarted"@),
                Err(e) => final(self).status() == next_status(
                    old(self).status(),
                    SessionEvent::RestartFailed,
                ) && is_error(r, SERVER_ERROR, "Failed to restart bash session: "@ + e@),
            },
    {
        match outcome {
            Ok(_) => {
                self.status = SessionStatus::Running;
                success(string_of(&chars_of("Bash session has been restarted")))
            },
            Err(e) => {
                self.status = SessionStatus::Absent;
                failure_with(SERVER_ERROR, "Failed to restart bash session: ", e.as_str())
            },
        }
    }

    /// Records the outcome of starting a shell for a command; an error is the answer.
    pub fn spawned(&mut self, outcome: Result<(), String>) -> (r: Option<Reply>)
        ensures
            match outcome {
                Ok(_) => final(self).status() == next_status(old(self).status(), SessionEvent::Spawned)
                    && r is None,
                Err(e) => final(self).status() == next_status(
                    old(self).status(),
                    SessionEvent::SpawnFailed,
                ) && (r matches Some(rep) && is_error(
                    rep,
                    SERVER_ERROR,
                    "Failed to create bash session: "@ + e@,
                )),
            },
    {
        match outcome {
            Ok(_) => {
                if self.needs_spawn() {
                    self.status = SessionStatus::Running;
                }
                None
            },
            Err(e) => Some(failure_with(SERVER_ERROR, "Failed to create bash session: ", e.as_str())),
        }
    }

    /// What to write to the shell for `command`, or why it cannot run.
    pub fn begin_command(&self, command: &str) -> (r: Result<String, Reply>)
        ensures
            match self.status() {
                SessionStatus::Running => r matches Ok(input) && input@ == framed(command@),
                SessionStatus::TimedOut => r matches Err(rep) && is_error(
                    rep,
                    SERVER_ERROR,
                    "Command execution failed: Session timed out"@,
                ),
                SessionStatus::Absent => r matches Err(rep) && is_error(
                    rep,
                    SERVER_ERROR,
                    "No active bash session"@,
                ),
            },
    {
        match self.status {
            SessionStatus::Running => {
                let mut v = chars_of(command);
                push_str(&mut v, "\necho '");
                push_str(&mut v, "---END---");
                push_str(&mut v, "'\n");
                Ok(string_of(&v))
            },
            SessionStatus::TimedOut => Err(
                failure(
                    SERVER_ERROR,
                    string_of(&chars_of("Command execution failed: Session timed out")),
                ),
            ),
            SessionStatus::Absent => Err(
                failure(SERVER_ERROR, string_of(&chars_of("No active bash session"))),
            ),
        }
    }

    /// Records how a command's run ended and gives the answer to it.
    pub fn command_ended(&mut self, end: CommandEnd) -> (r: Reply)
        ensures
            match end {
                CommandEnd::TimedOut => final(self).status() == next_status(
                    old(self).status(),
                    SessionEvent::CommandTimedOut,
                ) && is_error(r, SERVER_ERROR, "Command execution failed: Command execution timed out"@),
                CommandEnd::Completed { output, stderr } => final(self).status() == next_status(
                    old(self).status(),
                    SessionEvent::CommandFinished,
                ) && is_success(r, command_data(command_result(output@), stderr@)),
                CommandEnd::WriteFailed(e) => final(self).status() == old(self).status()
                    && is_error(
                    r,
                    SERVER_ERROR,
                    "Command execution failed: Failed to write command: "@ + e@,
                ),
                CommandEnd::FlushFailed(e) => final(self).status() == old(self).status()
                    && is_error(
                    r,
                    SERVER_ERROR,
                    "Command execution failed: Failed to flush stdin: "@ + e@,
                ),
                CommandEnd::ReadFailed(e) => final(self).status() == old(self).status()
                    && is_error(
                    r,
                    SERVER_ERROR,
                    "Command execution failed: Failed to read stdout: "@ + e@,
                ),
            },
    {
        match end {
            CommandEnd::TimedOut => {
                self.status = SessionStatus::TimedOut;
                failure(
                    SERVER_ERROR,
                    string_of(&chars_of("Command execution failed: Command execution timed out")),
                )
            },
            CommandEnd::Completed { output, stderr } => {
                let out = output.result();
                if stderr.as_str().is_empty() {
                    success(out)
                } else {
                    let mut v = chars_of("stdout:\n");
                    push_str(&mut v, out.as_str());
                    push_str(&mut v, "\nstderr:\n");
                    push_str(&mut v, stderr.as_str());
                    success(string_of(&v))
                }
            },
            CommandEnd::WriteFailed(e) => failure_with(
                SERVER_ERROR,
                "Command execution failed: Failed to write command: ",
                e.as_str(),
            ),
            CommandEnd::FlushFailed(e) => failure_with(
                SERVER_ERROR,
                "Command execution failed: Failed to flush stdin: ",
                e.as_str(),
            ),
            CommandEnd::ReadFailed(e) => failure_with(
                SERVER_ERROR,
                "Command execution failed: Failed to read stdout: ",
                e.as_str(),
            ),
        }
    }
}

} // verus!

verus! {

/// Once a command ran out of time, no event but a restart brings the
/// session back: it stays timed out, and a timed-out session takes no command.
pub proof fn timed_out_until_restart(evs: Seq<SessionEvent>)
    requires
        forall|i: int|
            0 <= i < evs.len() ==> #[trigger] evs[i] != SessionEvent::Restarted && evs[i]
                != SessionEvent::RestartFailed,
    ensures
        replay(SessionStatus::TimedOut, evs) == SessionStatus::TimedOut,
    decreases evs.len(),
{
    if evs.len() > 0 {
        assert(evs[0] != SessionEvent::Restarted && evs[0] != SessionEvent::RestartFailed);
        let rest = evs.skip(1);
        assert forall|i: int| 0 <= i < rest.len() implies #[trigger] rest[i]
            != SessionEvent::Restarted && rest[i] != SessionEvent::RestartFailed by {
            assert(rest[i] == evs[i + 1]);
        }
        timed_out_until_restart(rest);
    }
}

/// When the shell prints the output `t` of a command and then the end
/// marker, and the marker does not start inside `t`, the answer is `t` trimmed.
pub proof fn marker_ends_output(t: Seq<char>, rest: Seq<char>)
    requires
        forall|j: int| 0 <= j < t.len() ==> !occurs_at(t + end_marker() + rest, end_marker(), j),
    ensures
        command_result(t + end_marker() + rest) == trim(t),
{
    let out = t + end_marker() + rest;
    let m = end_marker();
    assert(out.subrange(t.len() as int, t.len() + m.len() as int) == m);
    assert(occurs_at(out, m, t.len() as int));
    lemma_first_occurrence(out, m, t.len() as int);
    assert(out.subrange(0, t.len() as int) == t);
}

} // verus!

verus! {

/// A command whose output is one block of text that neither starts nor
/// ends with white space, printed with its line ending before the end
/// marker, is answered with exactly that text.
pub proof fn plain_output_answered_exactly(t: Seq<char>, rest: Seq<char>)
    requires
        t.len() > 0,
        !white_space(t[0]),
        !white_space(t.last()),
        forall|j: int|
            0 <= j <= t.len() ==> !occurs_at(t + seq!['\n'] + end_marker() + rest, end_marker(), j),
    ensures
        command_result(t + seq!['\n'] + end_marker() + rest) == t,
{
    let line = t + seq!['\n'];
    assert(line + end_marker() + rest == t + seq!['\n'] + end_marker() + rest);
    marker_ends_output(line, rest);
    assert(line[0] == t[0]);
    assert(trim_start(line) == line);
    assert(line.drop_last() == t);
    assert(white_space('\n'));
    assert(trim_end(line) == trim_end(t));
    assert(trim_end(t) == t);
}

} // verus!
