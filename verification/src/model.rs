//! The life cycle of a service, as mathematics: what a service is, which
//! commands it has, and how each report from the host moves it on.

use crate::command::{command_line, CommandView};
use crate::runner::{
    spawn_failure_line, Command, Location, Reply, Request, Wait, WaitEnd, WaitStep,
    COMMAND_TIMEOUT_MS,
};
use crate::status::{StateView, Status};
use crate::text::decimal;
use vstd::prelude::*;

verus! {

/// How long a freshly launched daemon is given to settle, in milliseconds.
pub const SETTLE_MS: u64 = 500;

/// The family a service belongs to. It decides how the service is started
/// and stopped.
#[derive(Clone, Copy, Debug, PartialEq, Eq, Structural)]
pub enum ServiceKind {
    /// Started and stopped by running its program with a flag.
    Simple,
    /// A web server: launched as a daemon, and known to be alive by a marker
    /// file that it keeps.
    WebServer,
    /// A database daemon: needs an initialized data directory, and is
    /// stopped by force if it does not shut down when asked.
    Database,
}

/// Why a start or a stop failed.
#[derive(Clone, Copy, Debug, PartialEq, Eq, Structural)]
pub enum Failure {
    /// A process could not be created.
    SpawnFailed,
    /// A command did not finish in time.
    Timeout,
    /// A command could not be looked at while it ran.
    WaitFailed,
    /// What the service needs before it starts is missing and could not be
    /// made.
    PreconditionFailed,
    /// Every way of stopping the service was tried, and none worked.
    ShutdownExhausted,
}

/// How a start or a stop ended.
#[derive(Clone, Copy, Debug, PartialEq, Eq, Structural)]
pub enum Outcome {
    /// There was nothing to do.
    Unchanged,
    /// It was done.
    Completed,
    /// It failed; the service is left in `Error`.
    Failed { failure: Failure },
}

/// A start or a stop in progress: which reply it is waiting for.
#[derive(Clone, Copy, Debug, PartialEq, Eq, Structural)]
pub enum Operation {
    /// Starting: is the data directory there?
    ProbeData,
    /// Starting: the data directory is being created.
    CreateData,
    /// Starting: initialization failed, the data directory is being removed.
    Rollback,
    /// Starting: does the data directory hold anything?
    VerifyData,
    /// Starting: the daemon is being spawned.
    Launch,
    /// Starting: the daemon `pid` is given a moment to settle.
    Settle { pid: u32 },
    /// Stopping: is the marker file there?
    ProbeMarker,
    /// Starting or stopping: `command` was asked for and is waited for.
    Await { command: Command, wait: Wait },
}

impl Operation {
    /// Whether the operation belongs to a stop.
    pub open spec fn stopping(self) -> bool {
        match self {
            Operation::ProbeMarker => true,
            Operation::Await { command, .. } => command is Shutdown || command is KillProcess
                || command is KillImage,
            _ => false,
        }
    }

    /// An upper bound on the replies the operation can still take before it
    /// is over.
    pub open spec fn budget(self) -> nat {
        let fresh = Wait::started(COMMAND_TIMEOUT_MS).budget();
        match self {
            Operation::ProbeData => fresh + 6,
            Operation::CreateData => fresh + 5,
            Operation::Rollback => 1,
            Operation::VerifyData => 3,
            Operation::Launch => 2,
            Operation::Settle { .. } => 1,
            Operation::ProbeMarker => 3 * fresh + 4,
            Operation::Await { command, wait } => wait.budget() + match command {
                Command::Start => 1nat,
                Command::Initialize => 4nat,
                Command::Shutdown => 2 * fresh + 3,
                Command::KillProcess { .. } => fresh + 2,
                Command::KillImage => 1nat,
            },
        }
    }
}

/// Where a start or a stop stands.
#[derive(Clone, Copy, Debug, PartialEq, Eq, Structural)]
pub enum Step {
    /// It goes on: the host is to carry out `request` and report back with
    /// `operation`.
    Need { operation: Operation, request: Request },
    /// It is over.
    Done { outcome: Outcome },
}

/// What a service is: its name, its family, the path of its program and its
/// shared record.
pub struct ServiceView {
    pub name: Seq<char>,
    pub kind: ServiceKind,
    pub file_path: Seq<char>,
    pub state: StateView,
}

/// What one report from the host leads to: the service's record after it,
/// where the operation stands, and the lines to log, oldest first.
pub struct Decision {
    pub state: StateView,
    pub step: Step,
    pub lines: Seq<Seq<char>>,
}

/// The family of the service with the given name.
pub open spec fn kind_of(name: Seq<char>) -> ServiceKind {
    if name == "Nginx"@ {
        ServiceKind::WebServer
    } else if name == "MariaDB"@ {
        ServiceKind::Database
    } else {
        ServiceKind::Simple
    }
}

/// The failure that the end of a bounded wait stands for.
pub open spec fn failure_of(end: WaitEnd) -> Failure {
    match end {
        WaitEnd::TimedOut => Failure::Timeout,
        WaitEnd::WaitFailed => Failure::WaitFailed,
        _ => Failure::SpawnFailed,
    }
}

/// The directory that a family's commands run in.
pub open spec fn home_of(kind: ServiceKind) -> Option<Seq<char>> {
    match kind {
        ServiceKind::Simple => None,
        ServiceKind::WebServer => Some("./resource/nginx"@),
        ServiceKind::Database => Some("./resource/mariadb"@),
    }
}

/// The program whose processes are ended by force when a service of the
/// family cannot be stopped otherwise, for the families that have one.
pub open spec fn image_of(kind: ServiceKind) -> Option<Seq<char>> {
    match kind {
        ServiceKind::Database => Some("mariadbd.exe"@),
        _ => None,
    }
}

/// The word by which the log speaks of that program.
pub open spec fn image_label_of(kind: ServiceKind) -> Seq<char> {
    match kind {
        ServiceKind::Database => "mariadbd"@,
        _ => Seq::empty(),
    }
}

/// The path of a location, for the families that have it.
pub open spec fn path_of(kind: ServiceKind, location: Location) -> Option<Seq<char>> {
    match (kind, location) {
        (ServiceKind::WebServer, Location::Marker) => Some("./resource/nginx/logs/nginx.pid"@),
        (ServiceKind::Database, Location::DataDir) => Some("./resource/mariadb/data"@),
        _ => None,
    }
}

/// The status a service is given when the supervisor comes up: a family
/// that keeps a marker file is taken to be running if the file is there.
pub open spec fn initial_status(kind: ServiceKind, marker_present: bool) -> Status {
    if kind is WebServer && marker_present {
        Status::Running
    } else {
        Status::Stopped
    }
}

impl ServiceView {
    /// The same service with another record.
    pub open spec fn with_state(self, state: StateView) -> ServiceView {
        ServiceView { state, ..self }
    }

    /// The program and arguments of a command, where the service has it.
    pub open spec fn command(self, command: Command) -> Option<CommandView> {
        match command {
            Command::KillProcess { pid } => Some(
                CommandView {
                    program: "taskkill"@,
                    args: seq!["/F"@, "/PID"@, decimal(pid as nat)],
                    working_dir: None,
                },
            ),
            Command::Start => Some(
                match self.kind {
                    ServiceKind::Simple => CommandView {
                        program: self.file_path,
                        args: seq!["-s"@, "start"@],
                        working_dir: None,
                    },
                    ServiceKind::WebServer => CommandView {
                        program: self.file_path,
                        args: seq!["-c"@, "conf/nginx.conf"@],
                        working_dir: home_of(self.kind),
                    },
                    ServiceKind::Database => CommandView {
                        program: "./resource/mariadb/bin/mariadbd.exe"@,
                        args: seq!["--defaults-file=my.ini"@],
                        working_dir: home_of(self.kind),
                    },
                },
            ),
            Command::Shutdown => Some(
                match self.kind {
                    ServiceKind::Database => CommandView {
                        program: "./resource/mariadb/bin/mysqladmin.exe"@,
                        args: seq!["-u"@, "root"@, "shutdown"@],
                        working_dir: home_of(self.kind),
                    },
                    _ => CommandView {
                        program: self.file_path,
                        args: seq!["-s"@, "stop"@],
                        working_dir: home_of(self.kind),
                    },
                },
            ),
            Command::Initialize => match self.kind {
                ServiceKind::Database => Some(
                    CommandView {
                        program: "./resource/mariadb/bin/mariadb-install-db.exe"@,
                        args: seq!["--datadir=./data"@],
                        working_dir: home_of(self.kind),
                    },
                ),
                _ => None,
            },
            Command::KillImage => match image_of(self.kind) {
                Some(image) => Some(
                    CommandView {
                        program: "taskkill"@,
                        args: seq!["/F"@, "/IM"@, image],
                        working_dir: None,
                    },
                ),
                None => None,
            },
        }
    }

    /// The line logged before a command is run.
    pub open spec fn running_line(self, command: Command) -> Seq<char> {
        "["@ + self.name + "] Running: "@ + match self.command(command) {
            Some(spelled) => command_line(spelled),
            None => Seq::empty(),
        }
    }

    /// The decision that leaves the record as it is.
    pub open spec fn carry_on(self, operation: Operation, request: Request, lines: Seq<Seq<char>>)
        -> Decision {
        Decision { state: self.state, step: Step::Need { operation, request }, lines }
    }

    /// The decision that ends an operation in failure: the service is in
    /// `Error`, and its process is forgotten.
    pub open spec fn fail(self, failure: Failure, lines: Seq<Seq<char>>) -> Decision {
        Decision {
            state: StateView { status: Status::Error, process_id: None },
            step: Step::Done { outcome: Outcome::Failed { failure } },
            lines,
        }
    }

    /// The decision that ends a stop in success: the service is `Stopped`,
    /// and its process is forgotten.
    pub open spec fn halt(self, lines: Seq<Seq<char>>) -> Decision {
        Decision {
            state: StateView::stopped(),
            step: Step::Done { outcome: Outcome::Completed },
            lines,
        }
    }

    /// The decision that ends a start in success: the service is `Running`,
    /// as the process `process_id` if it was spawned to stay.
    pub open spec fn up(self, process_id: Option<u32>, lines: Seq<Seq<char>>) -> Decision {
        Decision {
            state: StateView { status: Status::Running, process_id },
            step: Step::Done { outcome: Outcome::Completed },
            lines,
        }
    }

    /// The decision that asks for `command` and waits for it to finish.
    pub open spec fn await_command(self, command: Command, lines: Seq<Seq<char>>) -> Decision {
        self.carry_on(
            Operation::Await { command, wait: Wait::started(COMMAND_TIMEOUT_MS) },
            Request::Spawn { command, detached: false },
            lines.push(self.running_line(command)),
        )
    }

    /// The decision that asks for the daemon to be spawned.
    pub open spec fn launch(self, lines: Seq<Seq<char>>) -> Decision {
        self.carry_on(
            Operation::Launch,
            Request::Spawn { command: Command::Start, detached: true },
            lines.push(self.running_line(Command::Start)),
        )
    }

    /// The decision that asks whether the data directory holds anything.
    pub open spec fn verify_data(self, lines: Seq<Seq<char>>) -> Decision {
        self.carry_on(
            Operation::VerifyData,
            Request::HasEntries { location: Location::DataDir },
            lines,
        )
    }

    /// What `start` decides. A service that is running is left alone. Any
    /// other is started the way of its family: a simple one by its start
    /// command, a web server by launching it, a database after its data
    /// directory has been looked for.
    pub open spec fn start(self) -> Decision {
        let lines = seq!["Starting "@ + self.name + " service..."@];
        if self.state.status is Running {
            Decision {
                state: self.state,
                step: Step::Done { outcome: Outcome::Unchanged },
                lines: lines.push(self.name + " is already running"@),
            }
        } else {
            match self.kind {
                ServiceKind::Simple => self.await_command(Command::Start, lines),
                ServiceKind::WebServer => self.launch(lines),
                ServiceKind::Database => self.carry_on(
                    Operation::ProbeData,
                    Request::Exists { location: Location::DataDir },
                    lines,
                ),
            }
        }
    }

    /// What `stop` decides. A service that is stopped stays so, and a stale
    /// process identifier is forgotten. Any other is asked to shut down; a
    /// web server only if its marker file is found.
    pub open spec fn stop(self) -> Decision {
        let lines = seq!["Stopping "@ + self.name + " service..."@];
        if self.state.status is Stopped {
            Decision {
                state: StateView::stopped(),
                step: Step::Done { outcome: Outcome::Unchanged },
                lines: lines.push(self.name + " is already stopped"@),
            }
        } else {
            match self.kind {
                ServiceKind::Simple => self.await_command(Command::Shutdown, lines),
                ServiceKind::WebServer => self.carry_on(
                    Operation::ProbeMarker,
                    Request::Exists { location: Location::Marker },
                    lines,
                ),
                ServiceKind::Database => self.await_command(
                    Command::Shutdown,
                    lines.push("Attempting to stop "@ + self.name + " with mysqladmin..."@),
                ),
            }
        }
    }

    /// The second way of stopping, tried when the shutdown command has
    /// failed: ending the process on record by force. With no process on
    /// record, the third way is next.
    pub open spec fn kill_process(self, lines: Seq<Seq<char>>) -> Decision {
        match self.state.process_id {
            Some(pid) => self.await_command(Command::KillProcess { pid }, lines),
            None => self.kill_image(lines),
        }
    }

    /// The third way of stopping, tried when the second has failed or could
    /// not be tried: ending every process of the service's program by force.
    /// A family without such a program is out of ways.
    pub open spec fn kill_image(self, lines: Seq<Seq<char>>) -> Decision {
        if image_of(self.kind) is Some {
            self.await_command(Command::KillImage, lines)
        } else {
            self.fail(Failure::ShutdownExhausted, lines)
        }
    }

    /// The line logged when a command that was waited for has exited.
    pub open spec fn success_line(self, command: Command) -> Seq<char> {
        match command {
            Command::Start => self.name + " started successfully"@,
            Command::Initialize => self.name + " initialized successfully"@,
            Command::Shutdown => match self.kind {
                ServiceKind::Database => self.name + " stopped successfully with mysqladmin"@,
                _ => self.name + " stopped successfully"@,
            },
            Command::KillProcess { pid } => self.name + " stopped successfully with taskkill (PID "@
                + decimal(pid as nat) + ")"@,
            Command::KillImage => self.name + " stopped successfully with taskkill ("@
                + image_label_of(self.kind) + ")"@,
        }
    }

    /// The line logged when a command that was waited for has failed in the
    /// way that `failure` describes.
    pub open spec fn failure_line(self, command: Command, failure: Seq<char>) -> Seq<char> {
        match command {
            Command::Start => "Failed to start "@ + self.name + ": "@ + failure,
            Command::Initialize => self.name + " initialization failed: "@ + failure,
            Command::Shutdown => match self.kind {
                ServiceKind::Database => "Failed to stop "@ + self.name
                    + " with mysqladmin, trying alternative methods..."@,
                _ => "Failed to stop "@ + self.name + ": "@ + failure,
            },
            Command::KillProcess { pid } => "Failed to kill process "@ + decimal(pid as nat),
            Command::KillImage => "Failed to kill "@ + image_label_of(self.kind) + " process"@,
        }
    }

    /// What follows when a command that was waited for has exited. However
    /// it exited, it counts as having done its work.
    pub open spec fn succeeded(self, command: Command, lines: Seq<Seq<char>>) -> Decision {
        let lines = lines.push(self.success_line(command));
        match command {
            Command::Start => self.up(None, lines),
            Command::Initialize => self.verify_data(lines),
            _ => self.halt(lines),
        }
    }

    /// What follows when a command that was waited for could not be spawned,
    /// could not be looked at, or did not exit in time. A failed start or a
    /// failed last resort ends the operation; a failed initialization is
    /// rolled back; a failed way of stopping gives way to the next.
    pub open spec fn gave_up(
        self,
        command: Command,
        end: WaitEnd,
        failure: Seq<char>,
        lines: Seq<Seq<char>>,
    ) -> Decision {
        let lines = lines.push(self.failure_line(command, failure));
        match command {
            Command::Start => self.fail(failure_of(end), lines),
            Command::Initialize => self.carry_on(
                Operation::Rollback,
                Request::RemoveDir { location: Location::DataDir },
                lines,
            ),
            Command::Shutdown => self.kill_process(lines),
            Command::KillProcess { .. } => self.kill_image(lines),
            Command::KillImage => self.fail(Failure::ShutdownExhausted, lines),
        }
    }

    /// What the host's `reply` decides for the operation in progress.
    pub open spec fn resume(self, operation: Operation, reply: Reply) -> Decision {
        match operation {
            Operation::ProbeData => if reply.affirms() {
                self.verify_data(seq![])
            } else {
                self.carry_on(
                    Operation::CreateData,
                    Request::CreateDir { location: Location::DataDir },
                    seq![self.name + " data directory not found. Initializing..."@],
                )
            },
            Operation::CreateData => if reply is Done {
                self.await_command(Command::Initialize, seq![])
            } else {
                self.fail(
                    Failure::PreconditionFailed,
                    seq![
                        "Failed to create "@ + self.name + " data directory: "@ + reply.reason(),
                    ],
                )
            },
            Operation::Rollback => self.fail(
                Failure::PreconditionFailed,
                seq![
                    if reply is Done {
                        "Rolled back "@ + self.name + " data directory."@
                    } else {
                        "Failed to rollback "@ + self.name + " data directory: "@ + reply.reason()
                    },
                ],
            ),
            Operation::VerifyData => if reply.affirms() {
                self.launch(seq!["Starting "@ + self.name + " service..."@])
            } else {
                self.fail(
                    Failure::PreconditionFailed,
                    seq![
                        self.name
                            + " data directory is missing or empty. Cannot start service."@,
                    ],
                )
            },
            Operation::Launch => match reply {
                Reply::Spawned { pid } => if self.kind is Database {
                    Decision {
                        state: StateView { status: Status::Running, process_id: Some(pid) },
                        step: Step::Need {
                            operation: Operation::Settle { pid },
                            request: Request::Sleep { millis: SETTLE_MS },
                        },
                        lines: seq![],
                    }
                } else {
                    self.up(Some(pid), seq![self.name + " started successfully"@])
                },
                _ => self.fail(
                    Failure::SpawnFailed,
                    seq![
                        spawn_failure_line(self.name, reply),
                        "Failed to start "@ + self.name + ": "@ + spawn_failure_line(
                            self.name,
                            reply,
                        ),
                    ],
                ),
            },
            Operation::Settle { pid } => Decision {
                state: self.state,
                step: Step::Done { outcome: Outcome::Completed },
                lines: seq![
                    self.name + " started successfully with PID: "@ + decimal(pid as nat),
                ],
            },
            Operation::ProbeMarker => if reply.affirms() {
                self.await_command(Command::Shutdown, seq![])
            } else {
                self.halt(
                    seq![
                        self.name + " PID file not found, assuming "@ + self.name
                            + " is not running. Setting status to Stopped."@,
                    ],
                )
            },
            Operation::Await { command, wait } => match wait.step(reply) {
                WaitStep::Need { wait: next, request } => self.carry_on(
                    Operation::Await { command, wait: next },
                    request,
                    wait.lines(self.name, reply),
                ),
                WaitStep::Finished { end: WaitEnd::Exited } => self.succeeded(
                    command,
                    wait.lines(self.name, reply),
                ),
                WaitStep::Finished { end } => self.gave_up(
                    command,
                    end,
                    wait.failure(self.name, reply),
                    wait.lines(self.name, reply),
                ),
            },
        }
    }

    /// What the exit of the service's process decides, whenever it is
    /// reported and whatever the service was doing: the service is
    /// `Stopped`, and its process is forgotten.
    pub open spec fn exited(self, report: Reply) -> Decision {
        Decision {
            state: StateView::stopped(),
            step: Step::Done { outcome: Outcome::Completed },
            lines: seq![
                match report {
                    Reply::Exited { status } => self.name + " process exited with status: "@
                        + status@,
                    _ => "Error waiting for "@ + self.name + " process: "@ + report.reason(),
                },
                self.name + " status set to Stopped after process exit."@,
            ],
        }
    }
}

} // verus!
