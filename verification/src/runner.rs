//! Running a command: what the host is asked to do, what it reports back,
//! and the bounded wait for a command that is expected to finish.

use crate::text::{join4, lines_of};
use vstd::prelude::*;
use vstd::string::*;

verus! {

/// How long a command that is waited for may take, in milliseconds.
pub const COMMAND_TIMEOUT_MS: u64 = 30_000;

/// The pause between two looks at a command that is waited for, in
/// milliseconds.
pub const POLL_INTERVAL_MS: u64 = 100;

/// A command of a service, by the part it plays. The service it belongs to
/// gives it its program and arguments.
#[derive(Clone, Copy, Debug, PartialEq, Eq, Structural)]
pub enum Command {
    /// Starts the service.
    Start,
    /// Prepares the data directory of a service that keeps one.
    Initialize,
    /// Asks the service to shut down.
    Shutdown,
    /// Ends the process with the given identifier by force.
    KillProcess { pid: u32 },
    /// Ends, by force, every process that runs the service's program.
    KillImage,
}

/// A place in the file system that a service depends on.
#[derive(Clone, Copy, Debug, PartialEq, Eq, Structural)]
pub enum Location {
    /// The file that the service keeps while it runs.
    Marker,
    /// The directory that holds the service's data.
    DataDir,
}

/// What the host is asked to do next.
#[derive(Clone, Copy, Debug, PartialEq, Eq, Structural)]
pub enum Request {
    /// Spawn the command. If `detached`, report as soon as it is spawned and
    /// watch it from then on; if not, keep it for `TryWait`.
    Spawn { command: Command, detached: bool },
    /// Look whether the command spawned last has exited, without blocking.
    TryWait,
    /// Pause for so many milliseconds.
    Sleep { millis: u64 },
    /// Say whether the location exists.
    Exists { location: Location },
    /// Say whether the location is a directory that holds at least one entry.
    HasEntries { location: Location },
    /// Create the directory, with its parents.
    CreateDir { location: Location },
    /// Remove the directory and all that it holds.
    RemoveDir { location: Location },
}

/// What the host reports back.
#[derive(Clone, Debug)]
pub enum Reply {
    /// The command was spawned as the process `pid`.
    Spawned { pid: u32 },
    /// The command has exited; `status` describes how.
    Exited { status: String },
    /// The command has not exited yet.
    StillRunning,
    /// The answer to a question.
    Answer { yes: bool },
    /// The request was carried out.
    Done,
    /// The request could not be carried out.
    Failed { reason: String },
}

impl Reply {
    /// The reason a reply gives for a failure. A reply that is out of place
    /// counts as a failure too, with a reason of its own.
    pub open spec fn reason(self) -> Seq<char> {
        match self {
            Reply::Failed { reason } => reason@,
            _ => "unexpected reply"@,
        }
    }

    /// Whether the reply answers a question with yes.
    pub open spec fn affirms(self) -> bool {
        self == (Reply::Answer { yes: true })
    }

    /// The reason this reply gives for a failure.
    pub fn reason_text(&self) -> (text: String)
        ensures
            text@ == self.reason(),
    {
        match self {
            Reply::Failed { reason } => reason.clone(),
            _ => String::from_str("unexpected reply"),
        }
    }

    /// Whether this reply answers a question with yes.
    pub fn is_yes(&self) -> (yes: bool)
        ensures
            yes == self.affirms(),
    {
        match self {
            Reply::Answer { yes } => *yes,
            _ => false,
        }
    }
}

/// One of the two streams that a process writes to.
#[derive(Clone, Copy, Debug, PartialEq, Eq, Structural)]
pub enum Stream {
    /// What the process says.
    Stdout,
    /// What the process complains of.
    Stderr,
}

/// The line logged for a line that the process of the service `name` wrote:
/// the line, tagged with the name of the service and with the stream.
pub open spec fn stream_line_of(name: Seq<char>, stream: Stream, line: Seq<char>) -> Seq<char> {
    match stream {
        Stream::Stdout => "["@ + name + "] STDOUT: "@ + line,
        Stream::Stderr => "["@ + name + "] STDERR: "@ + line,
    }
}

/// The line logged when a stream of the process of the service `name` could
/// not be read.
pub open spec fn stream_error_line_of(name: Seq<char>, stream: Stream, reason: Seq<char>) -> Seq<
    char,
> {
    match stream {
        Stream::Stdout => "["@ + name + "] Error reading stdout: "@ + reason,
        Stream::Stderr => "["@ + name + "] Error reading stderr: "@ + reason,
    }
}

/// The line to log for a line that the process of the service `name` wrote
/// to `stream`: the line, tagged with the name and the stream.
pub fn stream_line(name: &str, stream: Stream, line: &str) -> (logged: String)
    ensures
        logged@ == stream_line_of(name@, stream, line@),
{
    match stream {
        Stream::Stdout => join4("[", name, "] STDOUT: ", line),
        Stream::Stderr => join4("[", name, "] STDERR: ", line),
    }
}

/// The line to log when `stream` of the process of the service `name` could
/// not be read, for the given reason.
pub fn stream_error_line(name: &str, stream: Stream, reason: &str) -> (logged: String)
    ensures
        logged@ == stream_error_line_of(name@, stream, reason@),
{
    match stream {
        Stream::Stdout => join4("[", name, "] Error reading stdout: ", reason),
        Stream::Stderr => join4("[", name, "] Error reading stderr: ", reason),
    }
}

/// How a bounded wait ended.
#[derive(Clone, Copy, Debug, PartialEq, Eq, Structural)]
pub enum WaitEnd {
    /// The command ran and exited in time.
    Exited,
    /// The command could not be spawned.
    SpawnFailed,
    /// The command was still running when the time was up.
    TimedOut,
    /// The command could not be looked at.
    WaitFailed,
}

/// Which reply a bounded wait is waiting for.
#[derive(Clone, Copy, Debug, PartialEq, Eq, Structural)]
pub enum WaitPhase {
    /// The reply to `Spawn`.
    Spawning,
    /// The reply to `TryWait`.
    Checking,
    /// The reply to `Sleep`.
    Pausing,
}

/// A bounded wait in progress: the command was asked for, and is looked at
/// every `POLL_INTERVAL_MS` until it has exited or `timeout_ms` have been
/// spent pausing.
#[derive(Clone, Copy, Debug, PartialEq, Eq, Structural)]
pub struct Wait {
    pub phase: WaitPhase,
    pub timeout_ms: u64,
    pub waited_ms: u64,
}

/// Where a bounded wait stands after a reply.
#[derive(Clone, Copy, Debug, PartialEq, Eq, Structural)]
pub enum WaitStep {
    /// The wait goes on: the host is to carry out `request`.
    Need { wait: Wait, request: Request },
    /// The wait is over.
    Finished { end: WaitEnd },
}

/// The line logged when a command cannot be spawned.
pub open spec fn spawn_failure_line(name: Seq<char>, reply: Reply) -> Seq<char> {
    "["@ + name + "] Failed to execute command: "@ + reply.reason()
}

/// The line logged when a command has exited.
pub open spec fn exit_line(name: Seq<char>, status: Seq<char>) -> Seq<char> {
    "["@ + name + "] Process finished with status: "@ + status
}

/// The line logged when a command cannot be looked at.
pub open spec fn wait_failure_line(name: Seq<char>, reply: Reply) -> Seq<char> {
    "["@ + name + "] Error waiting for process: "@ + reply.reason()
}

/// The text that stands for a wait that ran out of time.
pub open spec fn timeout_text() -> Seq<char> {
    "Process wait timeout exceeded"@
}

impl Wait {
    /// A wait that has just asked for its command.
    pub open spec fn started(timeout_ms: u64) -> Wait {
        Wait { phase: WaitPhase::Spawning, timeout_ms, waited_ms: 0 }
    }

    /// What follows once the time spent is known: the wait is over if the
    /// time is up, and else the command is looked at.
    pub open spec fn look(self) -> WaitStep {
        if self.waited_ms >= self.timeout_ms {
            WaitStep::Finished { end: WaitEnd::TimedOut }
        } else {
            WaitStep::Need {
                wait: Wait { phase: WaitPhase::Checking, ..self },
                request: Request::TryWait,
            }
        }
    }

    /// The time spent after one more pause. It never wraps.
    pub open spec fn paused(self) -> Wait {
        Wait {
            waited_ms: if self.waited_ms + POLL_INTERVAL_MS > u64::MAX {
                u64::MAX
            } else {
                (self.waited_ms + POLL_INTERVAL_MS) as u64
            },
            ..self
        }
    }

    /// Where the wait stands after `reply`.
    pub open spec fn step(self, reply: Reply) -> WaitStep {
        match self.phase {
            WaitPhase::Spawning => match reply {
                Reply::Spawned { .. } => self.look(),
                _ => WaitStep::Finished { end: WaitEnd::SpawnFailed },
            },
            WaitPhase::Checking => match reply {
                Reply::Exited { .. } => WaitStep::Finished { end: WaitEnd::Exited },
                Reply::StillRunning => WaitStep::Need {
                    wait: Wait { phase: WaitPhase::Pausing, ..self },
                    request: Request::Sleep { millis: POLL_INTERVAL_MS },
                },
                _ => WaitStep::Finished { end: WaitEnd::WaitFailed },
            },
            WaitPhase::Pausing => self.paused().look(),
        }
    }

    /// The lines logged on behalf of the service `name` when `reply` comes
    /// in.
    pub open spec fn lines(self, name: Seq<char>, reply: Reply) -> Seq<Seq<char>> {
        match self.phase {
            WaitPhase::Spawning => match reply {
                Reply::Spawned { .. } => seq![],
                _ => seq![spawn_failure_line(name, reply)],
            },
            WaitPhase::Checking => match reply {
                Reply::Exited { status } => seq![exit_line(name, status@)],
                Reply::StillRunning => seq![],
                _ => seq![wait_failure_line(name, reply)],
            },
            WaitPhase::Pausing => seq![],
        }
    }

    /// The text that describes the failure, where the wait ends in one after
    /// `reply`, for whoever asked for the command.
    pub open spec fn failure(self, name: Seq<char>, reply: Reply) -> Seq<char> {
        match self.step(reply) {
            WaitStep::Finished { end: WaitEnd::SpawnFailed } => spawn_failure_line(name, reply),
            WaitStep::Finished { end: WaitEnd::TimedOut } => timeout_text(),
            WaitStep::Finished { end: WaitEnd::WaitFailed } => reply.reason(),
            _ => Seq::empty(),
        }
    }

    /// An upper bound on the replies the wait can still take before it is
    /// over.
    pub open spec fn budget(self) -> nat {
        let pauses: nat = if self.waited_ms >= self.timeout_ms {
            0
        } else {
            ((self.timeout_ms - self.waited_ms) / (POLL_INTERVAL_MS as int) + 1) as nat
        };
        match self.phase {
            WaitPhase::Spawning => 2 * pauses + 2,
            WaitPhase::Checking => 2 * pauses + 1,
            WaitPhase::Pausing => 2 * pauses,
        }
    }

    /// Starts a bounded wait of `timeout_ms` for `command`.
    pub fn begin(command: Command, timeout_ms: u64) -> (out: (Wait, Request))
        ensures
            out.0 == Wait::started(timeout_ms),
            out.1 == (Request::Spawn { command, detached: false }),
    {
        (
            Wait { phase: WaitPhase::Spawning, timeout_ms, waited_ms: 0 },
            Request::Spawn { command, detached: false },
        )
    }

    fn look_now(self) -> (step: WaitStep)
        ensures
            step == self.look(),
    {
        if self.waited_ms >= self.timeout_ms {
            WaitStep::Finished { end: WaitEnd::TimedOut }
        } else {
            WaitStep::Need {
                wait: Wait {
                    phase: WaitPhase::Checking,
                    timeout_ms: self.timeout_ms,
                    waited_ms: self.waited_ms,
                },
                request: Request::TryWait,
            }
        }
    }

    /// Takes the host's `reply` to the request that is outstanding and says
    /// where the wait stands, what is to be logged on behalf of the service
    /// `name`, and, if the wait failed, how.
    pub fn resume(self, name: &str, reply: &Reply) -> (out: Waited)
        ensures
            out.step == self.step(*reply),
            lines_of(out.lines@) == self.lines(name@, *reply),
            out.failure@ == self.failure(name@, *reply),
    {
        let mut lines: Vec<String> = Vec::new();
        let mut failure = String::new();
        let step = match self.phase {
            WaitPhase::Spawning => match reply {
                Reply::Spawned { .. } => {
                    let step = self.look_now();
                    match step {
                        WaitStep::Finished { .. } => {
                            failure = String::from_str("Process wait timeout exceeded");
                        },
                        _ => {},
                    }
                    step
                },
                _ => {
                    let mut line = String::from_str("[");
                    line.append(name);
                    line.append("] Failed to execute command: ");
                    line.append(reply.reason_text().as_str());
                    failure = line.clone();
                    lines.push(line);
                    WaitStep::Finished { end: WaitEnd::SpawnFailed }
                },
            },
            WaitPhase::Checking => match reply {
                Reply::Exited { status } => {
                    let mut line = String::from_str("[");
                    line.append(name);
                    line.append("] Process finished with status: ");
                    line.append(status.as_str());
                    lines.push(line);
                    WaitStep::Finished { end: WaitEnd::Exited }
                },
                Reply::StillRunning => WaitStep::Need {
                    wait: Wait {
                        phase: WaitPhase::Pausing,
                        timeout_ms: self.timeout_ms,
                        waited_ms: self.waited_ms,
                    },
                    request: Request::Sleep { millis: POLL_INTERVAL_MS },
                },
                _ => {
                    let reason = reply.reason_text();
                    let mut line = String::from_str("[");
                    line.append(name);
                    line.append("] Error waiting for process: ");
                    line.append(reason.as_str());
                    lines.push(line);
                    failure = reason;
                    WaitStep::Finished { end: WaitEnd::WaitFailed }
                },
            },
            WaitPhase::Pausing => {
                let later = Wait {
                    phase: self.phase,
                    timeout_ms: self.timeout_ms,
                    waited_ms: self.waited_ms.saturating_add(POLL_INTERVAL_MS),
                };
                let step = later.look_now();
                match step {
                    WaitStep::Finished { .. } => {
                        failure = String::from_str("Process wait timeout exceeded");
                    },
                    _ => {},
                }
                step
            },
        };
        assert(lines_of(lines@) =~= self.lines(name@, *reply));
        Waited { step, lines, failure }
    }
}

/// What a reply did to a bounded wait.
pub struct Waited {
    /// Where the wait stands.
    pub step: WaitStep,
    /// The lines to log, oldest first.
    pub lines: Vec<String>,
    /// If the wait ended in a failure, the text that describes it; else
    /// empty.
    pub failure: String,
}

/// A bounded wait is bounded: every reply that does not end it leaves it
/// closer to its end.
pub proof fn lemma_wait_progress(wait: Wait, reply: Reply)
    ensures
        wait.step(reply) matches WaitStep::Need { wait: next, .. } ==> next.budget()
            < wait.budget(),
{
    if wait.phase is Pausing {
        let later = wait.paused();
        if later.waited_ms < later.timeout_ms {
            assert(later.waited_ms == wait.waited_ms + POLL_INTERVAL_MS);
            assert((wait.timeout_ms - wait.waited_ms) / 100 == (wait.timeout_ms
                - later.waited_ms) / 100 + 1) by {
                let a = wait.timeout_ms - later.waited_ms;
                assert((a + 100) / 100 == a / 100 + 1) by (nonlinear_arith)
                    requires
                        a >= 0,
                ;
            }
        }
    }
}

} // verus!
