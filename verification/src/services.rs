//! The controller of one service. It keeps the service's record, decides
//! what a start or a stop needs next, and writes what happens to the log.

use crate::command::CommandSpec;
use crate::model::{
    Decision, Failure, Operation, Outcome, ServiceKind, ServiceView, Step, SETTLE_MS,
};
use crate::runner::{
    Command, Location, Reply, Request, Wait, WaitEnd, WaitStep, COMMAND_TIMEOUT_MS,
};
use crate::status::{ServiceState, StateView, Status};
use crate::terminal::{logged, retained, Terminal};
use crate::text::{
    decimal_text, join2, join3, join4, lines_of, list1, list2, list3, no_lines, same_text,
    with_line,
};
use vstd::prelude::*;
use vstd::string::*;

verus! {

/// The capabilities of a managed service. A start or a stop is a
/// conversation: `start` and `stop` open it, and while the step they return
/// is `Need`, the host carries out the request and hands the reply to
/// `resume`.
pub trait Service {
    /// What the service is, as far as its decisions go.
    spec fn model(&self) -> ServiceView;

    /// Opens a start. On a service that is running this changes nothing,
    /// asks for nothing, and logs that the service is already running.
    fn start(&mut self, log: &mut Terminal) -> (step: Step)
        ensures
            final(self).model() == old(self).model().with_state(
                old(self).model().start().state,
            ),
            step == old(self).model().start().step,
            final(log)@ == logged(old(log)@, old(self).model().start().lines),
            old(self).model().state.status is Running ==> {
                &&& final(self).model() == old(self).model()
                &&& step == (Step::Done { outcome: Outcome::Unchanged })
                &&& final(log)@ == logged(
                    old(log)@,
                    seq![
                        "Starting "@ + old(self).model().name + " service..."@,
                        old(self).model().name + " is already running"@,
                    ],
                )
            },
    ;

    /// Opens a stop. On a service that is stopped this asks for nothing and
    /// leaves it stopped, with no process on record.
    fn stop(&mut self, log: &mut Terminal) -> (step: Step)
        ensures
            final(self).model() == old(self).model().with_state(old(self).model().stop().state),
            step == old(self).model().stop().step,
            final(log)@ == logged(old(log)@, old(self).model().stop().lines),
            old(self).model().state.status is Stopped ==> {
                &&& final(self).model().state == StateView::stopped()
                &&& step == (Step::Done { outcome: Outcome::Unchanged })
            },
    ;

    /// Takes the host's reply to the request that is outstanding and moves
    /// the operation on.
    fn resume(&mut self, operation: Operation, reply: Reply, log: &mut Terminal) -> (step: Step)
        ensures
            final(self).model() == old(self).model().with_state(
                old(self).model().resume(operation, reply).state,
            ),
            step == old(self).model().resume(operation, reply).step,
            final(log)@ == logged(old(log)@, old(self).model().resume(operation, reply).lines),
    ;

    /// The word for the service's status.
    fn status(&self) -> (word: String)
        ensures
            word@ == self.model().state.status.label(),
    ;
}

/// One managed service.
pub struct ServiceInfo {
    /// The name the service goes by.
    pub name: String,
    kind: ServiceKind,
    file_path: String,
    state: ServiceState,
}

impl View for ServiceInfo {
    type V = ServiceView;

    closed spec fn view(&self) -> ServiceView {
        ServiceView {
            name: self.name@,
            kind: self.kind,
            file_path: self.file_path@,
            state: self.state@,
        }
    }
}

/// What a decision comes to in the running program.
struct Decided {
    status: Status,
    process_id: Option<u32>,
    step: Step,
    lines: Vec<String>,
}

impl View for Decided {
    type V = Decision;

    closed spec fn view(&self) -> Decision {
        Decision {
            state: StateView { status: self.status, process_id: self.process_id },
            step: self.step,
            lines: lines_of(self.lines@),
        }
    }
}

/// The lines of the log that is installed in a slot, if one is.
pub open spec fn installed(slot: Option<Terminal>) -> Option<Seq<Seq<char>>> {
    match slot {
        Some(terminal) => Some(terminal@),
        None => None,
    }
}

/// Installs `terminal` in `slot` as the log to write to. A slot takes a log
/// once: if one is installed already, it stays and `terminal` is dropped.
pub fn set_terminal(slot: &mut Option<Terminal>, terminal: Terminal)
    ensures
        installed(*final(slot)) == match installed(*old(slot)) {
            Some(first) => Some(first),
            None => Some(terminal@),
        },
{
    if slot.is_none() {
        *slot = Some(terminal);
    }
}

/// The log that is installed in `slot`, if one is.
pub fn get_terminal(slot: &Option<Terminal>) -> (terminal: Option<&Terminal>)
    ensures
        match terminal {
            Some(found) => installed(*slot) == Some(found@),
            None => installed(*slot) is None,
        },
{
    slot.as_ref()
}

/// Writes `message` to the log that is installed in `slot`. With no log
/// installed, the message is dropped.
pub fn log_message(slot: &mut Option<Terminal>, message: String)
    ensures
        installed(*final(slot)) == match installed(*old(slot)) {
            Some(lines) => Some(retained(lines.push(message@))),
            None => None,
        },
{
    match slot {
        Some(terminal) => {
            terminal.add_log(message);
        },
        None => {},
    }
}

/// The family of the service with the given name.
pub fn kind_of(name: &str) -> (kind: ServiceKind)
    ensures
        kind == crate::model::kind_of(name@),
{
    if same_text(name, "Nginx") {
        ServiceKind::WebServer
    } else if same_text(name, "MariaDB") {
        ServiceKind::Database
    } else {
        ServiceKind::Simple
    }
}

/// The status to give a service when the supervisor comes up, from whether
/// its marker file was found.
pub fn initial_status(kind: ServiceKind, marker_present: bool) -> (status: Status)
    ensures
        status == crate::model::initial_status(kind, marker_present),
{
    match kind {
        ServiceKind::WebServer => if marker_present {
            Status::Running
        } else {
            Status::Stopped
        },
        _ => Status::Stopped,
    }
}

/// The failure that the end of a bounded wait stands for.
fn failure_of(end: WaitEnd) -> (failure: Failure)
    ensures
        failure == crate::model::failure_of(end),
{
    match end {
        WaitEnd::TimedOut => Failure::Timeout,
        WaitEnd::WaitFailed => Failure::WaitFailed,
        _ => Failure::SpawnFailed,
    }
}

fn home_of(kind: ServiceKind) -> (home: Option<String>)
    ensures
        match home {
            Some(dir) => crate::model::home_of(kind) == Some(dir@),
            None => crate::model::home_of(kind) is None,
        },
{
    match kind {
        ServiceKind::Simple => None,
        ServiceKind::WebServer => Some(String::from_str("./resource/nginx")),
        ServiceKind::Database => Some(String::from_str("./resource/mariadb")),
    }
}

fn image_label_of(kind: ServiceKind) -> (label: &'static str)
    ensures
        label@ == crate::model::image_label_of(kind),
{
    match kind {
        ServiceKind::Database => "mariadbd",
        _ => {
            proof {
                reveal_strlit("");
            }
            assert(""@ =~= Seq::<char>::empty());
            ""
        },
    }
}

impl ServiceInfo {
    /// A service with the given name, status word and program path. Its
    /// family follows from its name; it has no process on record.
    pub fn new(name: &str, status: &str, file_path: &str) -> (service: Self)
        ensures
            service@ == (ServiceView {
                name: name@,
                kind: crate::model::kind_of(name@),
                file_path: file_path@,
                state: StateView { status: Status::parsed(status@), process_id: None },
            }),
            service@.state.wf(),
    {
        ServiceInfo {
            name: String::from_str(name),
            kind: kind_of(name),
            file_path: String::from_str(file_path),
            state: ServiceState::new(Status::parse(status)),
        }
    }

    /// Sets the status of a record from its word, as the watcher of a
    /// process does when the process has exited. Leaving `Running` forgets
    /// the process.
    pub fn update_status_static(state: &mut ServiceState, new_status: &str)
        ensures
            final(state)@ == old(state)@.with_status(Status::parsed(new_status@)),
            final(state)@.wf(),
    {
        state.set_status(Status::parse(new_status));
    }

    /// Sets the status of the service. Leaving `Running` forgets the
    /// process.
    pub fn update_status(&mut self, new_status: Status)
        ensures
            final(self)@ == old(self)@.with_state(old(self)@.state.with_status(new_status)),
            final(self)@.state.wf(),
    {
        self.state.set_status(new_status);
    }

    /// Whether the service is believed to be running.
    pub fn is_running(&self) -> (running: bool)
        ensures
            running == (self@.state.status is Running),
    {
        match self.state.get_status() {
            Status::Running => true,
            _ => false,
        }
    }

    /// Whether the service is believed to be stopped.
    pub fn is_stopped(&self) -> (stopped: bool)
        ensures
            stopped == (self@.state.status is Stopped),
    {
        match self.state.get_status() {
            Status::Stopped => true,
            _ => false,
        }
    }

    /// The name the service goes by.
    pub fn name(&self) -> (name: &str)
        ensures
            name@ == self@.name,
    {
        self.name.as_str()
    }

    /// The family of the service.
    pub fn kind(&self) -> (kind: ServiceKind)
        ensures
            kind == self@.kind,
    {
        self.kind
    }

    /// The path of the service's program.
    pub fn file_path(&self) -> (path: &str)
        ensures
            path@ == self@.file_path,
    {
        self.file_path.as_str()
    }

    /// The service's record: its status and, while it runs, its process.
    pub fn state(&self) -> (state: ServiceState)
        ensures
            state@ == self@.state,
            state@.wf(),
    {
        let _ = self.state.get_pid();
        self.state
    }

    /// The identifier of the process that runs the service, if one is on
    /// record.
    pub fn process_id(&self) -> (process_id: Option<u32>)
        ensures
            process_id == self@.state.process_id,
            self@.state.wf(),
    {
        self.state.get_pid()
    }

    /// The path of a location, if the service has it.
    pub fn location(&self, location: Location) -> (path: Option<String>)
        ensures
            match path {
                Some(text) => crate::model::path_of(self@.kind, location) == Some(text@),
                None => crate::model::path_of(self@.kind, location) is None,
            },
    {
        match (self.kind, location) {
            (ServiceKind::WebServer, Location::Marker) => Some(
                String::from_str("./resource/nginx/logs/nginx.pid"),
            ),
            (ServiceKind::Database, Location::DataDir) => Some(
                String::from_str("./resource/mariadb/data"),
            ),
            _ => None,
        }
    }

    /// The program, arguments and directory of a command, if the service
    /// has it.
    pub fn command(&self, command: Command) -> (spelled: Option<CommandSpec>)
        ensures
            match spelled {
                Some(found) => self@.command(command) == Some(found@),
                None => self@.command(command) is None,
            },
    {
        match command {
            Command::KillProcess { pid } => {
                let number = decimal_text(pid as u64);
                Some(
                    CommandSpec {
                        program: String::from_str("taskkill"),
                        args: list3("/F", "/PID", number.as_str()),
                        working_dir: None,
                    },
                )
            },
            Command::Start => Some(
                match self.kind {
                    ServiceKind::Simple => CommandSpec {
                        program: self.file_path.clone(),
                        args: list2("-s", "start"),
                        working_dir: None,
                    },
                    ServiceKind::WebServer => CommandSpec {
                        program: self.file_path.clone(),
                        args: list2("-c", "conf/nginx.conf"),
                        working_dir: home_of(self.kind),
                    },
                    ServiceKind::Database => CommandSpec {
                        program: String::from_str("./resource/mariadb/bin/mariadbd.exe"),
                        args: list1("--defaults-file=my.ini"),
                        working_dir: home_of(self.kind),
                    },
                },
            ),
            Command::Shutdown => Some(
                match self.kind {
                    ServiceKind::Database => CommandSpec {
                        program: String::from_str("./resource/mariadb/bin/mysqladmin.exe"),
                        args: list3("-u", "root", "shutdown"),
                        working_dir: home_of(self.kind),
                    },
                    _ => CommandSpec {
                        program: self.file_path.clone(),
                        args: list2("-s", "stop"),
                        working_dir: home_of(self.kind),
                    },
                },
            ),
            Command::Initialize => match self.kind {
                ServiceKind::Database => Some(
                    CommandSpec {
                        program: String::from_str(
                            "./resource/mariadb/bin/mariadb-install-db.exe",
                        ),
                        args: list1("--datadir=./data"),
                        working_dir: home_of(self.kind),
                    },
                ),
                _ => None,
            },
            Command::KillImage => match self.kind {
                ServiceKind::Database => Some(
                    CommandSpec {
                        program: String::from_str("taskkill"),
                        args: list3("/F", "/IM", "mariadbd.exe"),
                        working_dir: None,
                    },
                ),
                _ => None,
            },
        }
    }

    fn running_line(&self, command: Command) -> (line: String)
        ensures
            line@ == self@.running_line(command),
    {
        let mut line = join3("[", self.name.as_str(), "] Running: ");
        match self.command(command) {
            Some(spelled) => {
                line.append(spelled.line().as_str());
            },
            None => {
                assert(line@ + Seq::<char>::empty() =~= line@);
            },
        }
        line
    }

    fn carry_on(&self, operation: Operation, request: Request, lines: Vec<String>) -> (decided:
        Decided)
        ensures
            decided@ == self@.carry_on(operation, request, lines_of(lines@)),
            self@.state.wf(),
    {
        Decided {
            status: self.state.get_status(),
            process_id: self.state.get_pid(),
            step: Step::Need { operation, request },
            lines,
        }
    }

    fn fail(&self, failure: Failure, lines: Vec<String>) -> (decided: Decided)
        ensures
            decided@ == self@.fail(failure, lines_of(lines@)),
    {
        Decided {
            status: Status::Error,
            process_id: None,
            step: Step::Done { outcome: Outcome::Failed { failure } },
            lines,
        }
    }

    fn halt(&self, lines: Vec<String>) -> (decided: Decided)
        ensures
            decided@ == self@.halt(lines_of(lines@)),
    {
        Decided {
            status: Status::Stopped,
            process_id: None,
            step: Step::Done { outcome: Outcome::Completed },
            lines,
        }
    }

    fn up(&self, process_id: Option<u32>, lines: Vec<String>) -> (decided: Decided)
        ensures
            decided@ == self@.up(process_id, lines_of(lines@)),
    {
        Decided {
            status: Status::Running,
            process_id,
            step: Step::Done { outcome: Outcome::Completed },
            lines,
        }
    }

    fn await_command(&self, command: Command, lines: Vec<String>) -> (decided: Decided)
        ensures
            decided@ == self@.await_command(command, lines_of(lines@)),
    {
        let (wait, request) = Wait::begin(command, COMMAND_TIMEOUT_MS);
        let lines = with_line(lines, self.running_line(command));
        self.carry_on(Operation::Await { command, wait }, request, lines)
    }

    fn launch(&self, lines: Vec<String>) -> (decided: Decided)
        ensures
            decided@ == self@.launch(lines_of(lines@)),
    {
        let lines = with_line(lines, self.running_line(Command::Start));
        self.carry_on(
            Operation::Launch,
            Request::Spawn { command: Command::Start, detached: true },
            lines,
        )
    }

    fn verify_data(&self, lines: Vec<String>) -> (decided: Decided)
        ensures
            decided@ == self@.verify_data(lines_of(lines@)),
    {
        self.carry_on(
            Operation::VerifyData,
            Request::HasEntries { location: Location::DataDir },
            lines,
        )
    }

    fn kill_image(&self, lines: Vec<String>) -> (decided: Decided)
        ensures
            decided@ == self@.kill_image(lines_of(lines@)),
    {
        match self.kind {
            ServiceKind::Database => self.await_command(Command::KillImage, lines),
            _ => self.fail(Failure::ShutdownExhausted, lines),
        }
    }

    fn kill_process(&self, lines: Vec<String>) -> (decided: Decided)
        ensures
            decided@ == self@.kill_process(lines_of(lines@)),
    {
        match self.state.get_pid() {
            Some(pid) => self.await_command(Command::KillProcess { pid }, lines),
            None => self.kill_image(lines),
        }
    }

    fn success_line(&self, command: Command) -> (line: String)
        ensures
            line@ == self@.success_line(command),
    {
        let name = self.name.as_str();
        match command {
            Command::Start => join2(name, " started successfully"),
            Command::Initialize => join2(name, " initialized successfully"),
            Command::Shutdown => match self.kind {
                ServiceKind::Database => join2(name, " stopped successfully with mysqladmin"),
                _ => join2(name, " stopped successfully"),
            },
            Command::KillProcess { pid } => join4(
                name,
                " stopped successfully with taskkill (PID ",
                decimal_text(pid as u64).as_str(),
                ")",
            ),
            Command::KillImage => join4(
                name,
                " stopped successfully with taskkill (",
                image_label_of(self.kind),
                ")",
            ),
        }
    }

    fn failure_line(&self, command: Command, failure: &str) -> (line: String)
        ensures
            line@ == self@.failure_line(command, failure@),
    {
        let name = self.name.as_str();
        match command {
            Command::Start => join4("Failed to start ", name, ": ", failure),
            Command::Initialize => join3(name, " initialization failed: ", failure),
            Command::Shutdown => match self.kind {
                ServiceKind::Database => join3(
                    "Failed to stop ",
                    name,
                    " with mysqladmin, trying alternative methods...",
                ),
                _ => join4("Failed to stop ", name, ": ", failure),
            },
            Command::KillProcess { pid } => join2(
                "Failed to kill process ",
                decimal_text(pid as u64).as_str(),
            ),
            Command::KillImage => join3("Failed to kill ", image_label_of(self.kind), " process"),
        }
    }

    fn succeeded(&self, command: Command, lines: Vec<String>) -> (decided: Decided)
        ensures
            decided@ == self@.succeeded(command, lines_of(lines@)),
    {
        let lines = with_line(lines, self.success_line(command));
        match command {
            Command::Start => self.up(None, lines),
            Command::Initialize => self.verify_data(lines),
            _ => self.halt(lines),
        }
    }

    fn gave_up(&self, command: Command, end: WaitEnd, failure: &str, lines: Vec<String>) -> (decided:
        Decided)
        ensures
            decided@ == self@.gave_up(command, end, failure@, lines_of(lines@)),
    {
        let lines = with_line(lines, self.failure_line(command, failure));
        match command {
            Command::Start => self.fail(failure_of(end), lines),
            Command::Initialize => self.carry_on(
                Operation::Rollback,
                Request::RemoveDir { location: Location::DataDir },
                lines,
            ),
            Command::Shutdown => self.kill_process(lines),
            Command::KillProcess { .. } => self.kill_image(lines),
            Command::KillImage => self.fail(Failure::ShutdownExhausted, lines),
        }
    }

    fn decide_start(&self) -> (decided: Decided)
        ensures
            decided@ == self@.start(),
            self@.state.wf(),
    {
        let name = self.name.as_str();
        let lines = with_line(no_lines(), join3("Starting ", name, " service..."));
        assert(lines_of(lines@) =~= seq!["Starting "@ + self@.name + " service..."@]);
        if self.is_running() {
            Decided {
                status: self.state.get_status(),
                process_id: self.state.get_pid(),
                step: Step::Done { outcome: Outcome::Unchanged },
                lines: with_line(lines, join2(name, " is already running")),
            }
        } else {
            let _ = self.state.get_pid();
            match self.kind {
                ServiceKind::Simple => self.await_command(Command::Start, lines),
                ServiceKind::WebServer => self.launch(lines),
                ServiceKind::Database => self.carry_on(
                    Operation::ProbeData,
                    Request::Exists { location: Location::DataDir },
                    lines,
                ),
            }
        }
    }

    fn decide_stop(&self) -> (decided: Decided)
        ensures
            decided@ == self@.stop(),
            self@.state.wf(),
    {
        let name = self.name.as_str();
        let lines = with_line(no_lines(), join3("Stopping ", name, " service..."));
        assert(lines_of(lines@) =~= seq!["Stopping "@ + self@.name + " service..."@]);
        let _ = self.state.get_pid();
        if self.is_stopped() {
            Decided {
                status: Status::Stopped,
                process_id: None,
                step: Step::Done { outcome: Outcome::Unchanged },
                lines: with_line(lines, join2(name, " is already stopped")),
            }
        } else {
            match self.kind {
                ServiceKind::Simple => self.await_command(Command::Shutdown, lines),
                ServiceKind::WebServer => self.carry_on(
                    Operation::ProbeMarker,
                    Request::Exists { location: Location::Marker },
                    lines,
                ),
                ServiceKind::Database => self.await_command(
                    Command::Shutdown,
                    with_line(lines, join3("Attempting to stop ", name, " with mysqladmin...")),
                ),
            }
        }
    }

    fn decide_resume(&self, operation: Operation, reply: &Reply) -> (decided: Decided)
        ensures
            decided@ == self@.resume(operation, *reply),
            self@.state.wf(),
    {
        let name = self.name.as_str();
        let _ = self.state.get_pid();
        match operation {
            Operation::ProbeData => if reply.is_yes() {
                self.verify_data(no_lines())
            } else {
                self.carry_on(
                    Operation::CreateData,
                    Request::CreateDir { location: Location::DataDir },
                    with_line(
                        no_lines(),
                        join2(name, " data directory not found. Initializing..."),
                    ),
                )
            },
            Operation::CreateData => match reply {
                Reply::Done => self.await_command(Command::Initialize, no_lines()),
                _ => self.fail(
                    Failure::PreconditionFailed,
                    with_line(
                        no_lines(),
                        join4(
                            "Failed to create ",
                            name,
                            " data directory: ",
                            reply.reason_text().as_str(),
                        ),
                    ),
                ),
            },
            Operation::Rollback => {
                let line = match reply {
                    Reply::Done => join3("Rolled back ", name, " data directory."),
                    _ => join4(
                        "Failed to rollback ",
                        name,
                        " data directory: ",
                        reply.reason_text().as_str(),
                    ),
                };
                self.fail(Failure::PreconditionFailed, with_line(no_lines(), line))
            },
            Operation::VerifyData => if reply.is_yes() {
                self.launch(with_line(no_lines(), join3("Starting ", name, " service...")))
            } else {
                self.fail(
                    Failure::PreconditionFailed,
                    with_line(
                        no_lines(),
                        join2(name, " data directory is missing or empty. Cannot start service."),
                    ),
                )
            },
            Operation::Launch => match reply {
                Reply::Spawned { pid } => match self.kind {
                    ServiceKind::Database => Decided {
                        status: Status::Running,
                        process_id: Some(*pid),
                        step: Step::Need {
                            operation: Operation::Settle { pid: *pid },
                            request: Request::Sleep { millis: SETTLE_MS },
                        },
                        lines: no_lines(),
                    },
                    _ => self.up(
                        Some(*pid),
                        with_line(no_lines(), join2(name, " started successfully")),
                    ),
                },
                _ => {
                    let cause = join4(
                        "[",
                        name,
                        "] Failed to execute command: ",
                        reply.reason_text().as_str(),
                    );
                    let line = join4("Failed to start ", name, ": ", cause.as_str());
                    let lines = with_line(with_line(no_lines(), cause), line);
                    assert(lines_of(lines@) =~= seq![
                        crate::runner::spawn_failure_line(self@.name, *reply),
                        "Failed to start "@ + self@.name + ": "@
                            + crate::runner::spawn_failure_line(self@.name, *reply),
                    ]);
                    self.fail(Failure::SpawnFailed, lines)
                },
            },
            Operation::Settle { pid } => Decided {
                status: self.state.get_status(),
                process_id: self.state.get_pid(),
                step: Step::Done { outcome: Outcome::Completed },
                lines: with_line(
                    no_lines(),
                    join3(
                        name,
                        " started successfully with PID: ",
                        decimal_text(pid as u64).as_str(),
                    ),
                ),
            },
            Operation::ProbeMarker => if reply.is_yes() {
                self.await_command(Command::Shutdown, no_lines())
            } else {
                let mut line = join3(name, " PID file not found, assuming ", name);
                line.append(" is not running. Setting status to Stopped.");
                self.halt(with_line(no_lines(), line))
            },
            Operation::Await { command, wait } => {
                let waited = wait.resume(name, reply);
                match waited.step {
                    WaitStep::Need { wait: next, request } => self.carry_on(
                        Operation::Await { command, wait: next },
                        request,
                        waited.lines,
                    ),
                    WaitStep::Finished { end: WaitEnd::Exited } => self.succeeded(
                        command,
                        waited.lines,
                    ),
                    WaitStep::Finished { end } => self.gave_up(
                        command,
                        end,
                        waited.failure.as_str(),
                        waited.lines,
                    ),
                }
            },
        }
    }

    /// Puts a decision into effect: the record is replaced, the lines are
    /// logged.
    fn settle(&mut self, decided: Decided, log: &mut Terminal) -> (step: Step)
        requires
            decided@.state.wf(),
        ensures
            final(self)@ == old(self)@.with_state(decided@.state),
            step == decided@.step,
            final(log)@ == logged(old(log)@, decided@.lines),
    {
        let mut state = ServiceState::new(decided.status);
        state.set_pid(decided.process_id);
        self.state = state;
        log.add_logs(decided.lines);
        decided.step
    }

    /// Records that the service's process has exited, as its watcher
    /// reports it. Whatever the service was doing, it is `Stopped`
    /// afterwards, with no process on record.
    pub fn process_exited(&mut self, report: &Reply, log: &mut Terminal)
        ensures
            final(self)@ == old(self)@.with_state(old(self)@.exited(*report).state),
            final(self)@.state == StateView::stopped(),
            final(log)@ == logged(old(log)@, old(self)@.exited(*report).lines),
    {
        let name = self.name.as_str();
        let first = match report {
            Reply::Exited { status } => join3(name, " process exited with status: ", status.as_str()),
            _ => join4(
                "Error waiting for ",
                name,
                " process: ",
                report.reason_text().as_str(),
            ),
        };
        let second = join2(name, " status set to Stopped after process exit.");
        let lines = with_line(with_line(no_lines(), first), second);
        assert(lines_of(lines@) =~= old(self)@.exited(*report).lines);
        ServiceInfo::update_status_static(&mut self.state, "Stopped");
        proof {
            reveal_strlit("Stopped");
            reveal_strlit("Running");
            assert("Stopped"@[0] == 'S');
            assert("Running"@[0] == 'R');
        }
        log.add_logs(lines);
    }
}

impl Service for ServiceInfo {
    open spec fn model(&self) -> ServiceView {
        self@
    }

    fn start(&mut self, log: &mut Terminal) -> (step: Step) {
        let decided = self.decide_start();
        proof {
            crate::laws::lemma_start_keeps_record_sound(self@);
            let name = self@.name;
            assert(seq!["Starting "@ + name + " service..."@].push(name + " is already running"@)
                =~= seq!["Starting "@ + name + " service..."@, name + " is already running"@]);
        }
        self.settle(decided, log)
    }

    fn stop(&mut self, log: &mut Terminal) -> (step: Step) {
        let decided = self.decide_stop();
        proof {
            crate::laws::lemma_stop_keeps_record_sound(self@);
        }
        self.settle(decided, log)
    }

    fn resume(&mut self, operation: Operation, reply: Reply, log: &mut Terminal) -> (step: Step) {
        let decided = self.decide_resume(operation, &reply);
        proof {
            crate::laws::lemma_resume_keeps_record_sound(self@, operation, reply);
        }
        self.settle(decided, log)
    }

    fn status(&self) -> (word: String) {
        String::from_str(self.state.get_status().as_str())
    }
}

} // verus!
