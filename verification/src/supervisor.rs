//! The supervisor: the services it manages, the log they share, and the
//! orderly shutdown of all of them within a bounded time.

use crate::model::{Operation, ServiceView, Step};
use crate::runner::Reply;
use crate::services::{Service, ServiceInfo};
use crate::terminal::{logged, Terminal};
use crate::text::{decimal, decimal_text, join3, lines_of, no_lines, with_line};
use vstd::prelude::*;
use vstd::string::*;

verus! {

/// How long a shutdown waits for the services to stop unless told
/// otherwise, in milliseconds.
pub const SHUTDOWN_TIMEOUT_MS: u64 = 10_000;

/// The pause between two looks at the services during a shutdown, in
/// milliseconds.
pub const SHUTDOWN_POLL_MS: u64 = 500;

/// How a shutdown ended.
#[derive(Clone, Copy, Debug, PartialEq, Eq, Structural)]
pub enum ShutdownEnd {
    /// No service was running when the shutdown began.
    NothingToStop,
    /// Every service is stopped.
    AllStopped,
    /// The time was up while some service was not stopped.
    TimedOut,
}

/// What a shutdown is doing.
#[derive(Clone, Copy, Debug, PartialEq, Eq, Structural)]
pub enum ShutdownPhase {
    /// Asking the running services to stop, one after the other; those
    /// before `next` have been dealt with.
    Stopping { next: usize },
    /// Waiting for the services to stop.
    Polling,
}

/// A shutdown in progress.
#[derive(Clone, Copy, Debug, PartialEq, Eq, Structural)]
pub struct Shutdown {
    pub phase: ShutdownPhase,
    pub timeout_ms: u64,
    pub waited_ms: u64,
}

/// Where a shutdown stands.
#[derive(Clone, Copy, Debug, PartialEq, Eq, Structural)]
pub enum ShutdownStep {
    /// The host is to open a stop on the service at `index` and see to it,
    /// without needing to wait for its end, and come back with `shutdown`.
    Stop { index: usize, shutdown: Shutdown },
    /// The host is to pause for `millis` milliseconds and come back with
    /// `shutdown`.
    Wait { millis: u64, shutdown: Shutdown },
    /// The shutdown is over.
    Finished { end: ShutdownEnd },
}

/// What a step of a shutdown leads to: where it stands, and the lines to
/// log, oldest first.
pub struct ShutdownDecision {
    pub step: ShutdownStep,
    pub lines: Seq<Seq<char>>,
}

/// What a supervisor holds: its services, in order, and its log.
pub struct SupervisorView {
    pub services: Seq<ServiceView>,
    pub log: Seq<Seq<char>>,
}

/// How many of the first `upto` services are running.
pub open spec fn running_among(services: Seq<ServiceView>, upto: int) -> nat
    decreases upto,
{
    if upto <= 0 {
        0
    } else {
        running_among(services, upto - 1) + if services[upto - 1].state.status is Running {
            1nat
        } else {
            0nat
        }
    }
}

/// How many services are running.
pub open spec fn running_count(services: Seq<ServiceView>) -> nat {
    running_among(services, services.len() as int)
}

/// The place of the first running service at or after `from`, or the number
/// of services if there is none.
pub open spec fn first_running(services: Seq<ServiceView>, from: int) -> int
    decreases services.len() - from,
{
    if from >= services.len() {
        services.len() as int
    } else if from >= 0 && services[from].state.status is Running {
        from
    } else {
        first_running(services, from + 1)
    }
}

/// Whether every service is `Stopped`. A service in `Error` is not: it may
/// still be running.
pub open spec fn all_stopped(services: Seq<ServiceView>) -> bool {
    forall|i: int| 0 <= i < services.len() ==> (#[trigger] services[i]).state.status is Stopped
}

/// What a look at the services decides during the wait: the shutdown is over
/// when every service is stopped or the time is up, and pauses otherwise.
pub open spec fn poll(services: Seq<ServiceView>, shutdown: Shutdown, lines: Seq<Seq<char>>)
    -> ShutdownDecision {
    if all_stopped(services) {
        ShutdownDecision {
            step: ShutdownStep::Finished { end: ShutdownEnd::AllStopped },
            lines: lines.push("All services stopped successfully."@).push(
                "Service cleanup completed."@,
            ),
        }
    } else if shutdown.waited_ms >= shutdown.timeout_ms {
        ShutdownDecision {
            step: ShutdownStep::Finished { end: ShutdownEnd::TimedOut },
            lines: lines.push(
                "Timeout waiting for services to stop. Some services may still be running."@,
            ).push("Service cleanup completed."@),
        }
    } else {
        ShutdownDecision {
            step: ShutdownStep::Wait {
                millis: SHUTDOWN_POLL_MS,
                shutdown: Shutdown { phase: ShutdownPhase::Polling, ..shutdown },
            },
            lines,
        }
    }
}

/// What is decided once the services before `from` have been dealt with: the
/// next running service is to be stopped, or, if there is none, the wait
/// begins.
pub open spec fn seek(
    services: Seq<ServiceView>,
    from: int,
    timeout_ms: u64,
    lines: Seq<Seq<char>>,
) -> ShutdownDecision {
    let index = first_running(services, from);
    if index < services.len() {
        ShutdownDecision {
            step: ShutdownStep::Stop {
                index: index as usize,
                shutdown: Shutdown {
                    phase: ShutdownPhase::Stopping { next: (index + 1) as usize },
                    timeout_ms,
                    waited_ms: 0,
                },
            },
            lines: lines.push("Stopping "@ + services[index].name + "..."@),
        }
    } else {
        poll(
            services,
            Shutdown { phase: ShutdownPhase::Polling, timeout_ms, waited_ms: 0 },
            lines.push("Waiting for services to shut down..."@),
        )
    }
}

/// What `stop_all` decides: with no service running there is nothing to do;
/// otherwise the running services are stopped in order.
pub open spec fn begin_shutdown(services: Seq<ServiceView>, timeout_ms: u64) -> ShutdownDecision {
    let lines = seq!["Cleaning up services..."@];
    if running_count(services) == 0 {
        ShutdownDecision {
            step: ShutdownStep::Finished { end: ShutdownEnd::NothingToStop },
            lines: lines.push("No services to clean up."@),
        }
    } else {
        seek(
            services,
            0,
            timeout_ms,
            lines.push(
                "Found "@ + decimal(running_count(services)) + " running services. Stopping all..."@,
            ),
        )
    }
}

/// The time waited after one more pause. It never wraps.
pub open spec fn paused(shutdown: Shutdown) -> Shutdown {
    Shutdown {
        waited_ms: if shutdown.waited_ms + SHUTDOWN_POLL_MS > u64::MAX {
            u64::MAX
        } else {
            (shutdown.waited_ms + SHUTDOWN_POLL_MS) as u64
        },
        ..shutdown
    }
}

/// What is decided when the host comes back to a shutdown in progress.
pub open spec fn resume_shutdown(services: Seq<ServiceView>, shutdown: Shutdown)
    -> ShutdownDecision {
    match shutdown.phase {
        ShutdownPhase::Stopping { next } => seek(services, next as int, shutdown.timeout_ms, seq![]),
        ShutdownPhase::Polling => poll(services, paused(shutdown), seq![]),
    }
}

/// An upper bound on the times the host can still be sent away before the
/// shutdown is over.
pub open spec fn shutdown_budget(services: Seq<ServiceView>, shutdown: Shutdown) -> nat {
    match shutdown.phase {
        ShutdownPhase::Stopping { next } => (if next >= services.len() {
            0nat
        } else {
            (services.len() - next) as nat
        }) + pauses_left(shutdown.timeout_ms, 0) + 2,
        ShutdownPhase::Polling => pauses_left(shutdown.timeout_ms, shutdown.waited_ms),
    }
}

/// How many pauses fit between the time waited and the timeout, and one.
pub open spec fn pauses_left(timeout_ms: u64, waited_ms: u64) -> nat {
    if waited_ms >= timeout_ms {
        0
    } else {
        ((timeout_ms - waited_ms) / (SHUTDOWN_POLL_MS as int) + 1) as nat
    }
}

/// The views of a list of services, in order.
pub open spec fn views_of(services: Seq<ServiceInfo>) -> Seq<ServiceView> {
    services.map_values(|service: ServiceInfo| service@)
}

/// The services under management and the log they write to.
pub struct Supervisor {
    services: Vec<ServiceInfo>,
    terminal: Terminal,
}

impl View for Supervisor {
    type V = SupervisorView;

    closed spec fn view(&self) -> SupervisorView {
        SupervisorView { services: views_of(self.services@), log: self.terminal@ }
    }
}

impl Supervisor {
    /// A supervisor of the given services, writing to the given log.
    pub fn new(services: Vec<ServiceInfo>, terminal: Terminal) -> (supervisor: Self)
        ensures
            supervisor@.services == views_of(services@),
            supervisor@.log == terminal@,
    {
        Supervisor { services, terminal }
    }

    /// The services, in order.
    pub fn services(&self) -> (services: &Vec<ServiceInfo>)
        ensures
            views_of(services@) == self@.services,
    {
        &self.services
    }

    /// The log.
    pub fn get_terminal(&self) -> (terminal: &Terminal)
        ensures
            terminal@ == self@.log,
    {
        &self.terminal
    }

    /// Writes a line to the log.
    pub fn log(&mut self, line: String)
        ensures
            final(self)@.services == old(self)@.services,
            final(self)@.log == logged(old(self)@.log, seq![line@]),
    {
        proof {
            crate::terminal::lemma_logged_one(self.terminal@, line@);
        }
        self.terminal.add_log(line);
    }

    fn count_running(&self) -> (count: usize)
        ensures
            count == running_count(self@.services),
    {
        let mut count: usize = 0;
        let mut i: usize = 0;
        while i < self.services.len()
            invariant
                i <= self.services@.len(),
                count == running_among(views_of(self.services@), i as int),
                count <= i,
            decreases self.services@.len() - i,
        {
            if self.services[i].is_running() {
                count += 1;
            }
            i += 1;
        }
        count
    }

    fn find_running(&self, from: usize) -> (index: usize)
        ensures
            index == first_running(self@.services, from as int),
            from <= index || index == self@.services.len(),
            index <= self@.services.len(),
    {
        let mut i: usize = from;
        while i < self.services.len()
            invariant
                from <= i,
                first_running(views_of(self.services@), i as int) == first_running(
                    views_of(self.services@),
                    from as int,
                ),
            decreases self.services@.len() - i,
        {
            if self.services[i].is_running() {
                return i;
            }
            i += 1;
        }
        self.services.len()
    }

    fn every_one_stopped(&self) -> (stopped: bool)
        ensures
            stopped == all_stopped(self@.services),
    {
        let mut i: usize = 0;
        while i < self.services.len()
            invariant
                i <= self.services@.len(),
                forall|j: int|
                    0 <= j < i ==> (#[trigger] views_of(
                        self.services@,
                    )[j]).state.status is Stopped,
            decreases self.services@.len() - i,
        {
            if !self.services[i].is_stopped() {
                assert(!(views_of(self.services@)[i as int].state.status is Stopped));
                return false;
            }
            i += 1;
        }
        true
    }

    fn decide_poll(&self, shutdown: Shutdown, lines: Vec<String>) -> (out: (
        ShutdownStep,
        Vec<String>,
    ))
        ensures
            out.0 == poll(self@.services, shutdown, lines_of(lines@)).step,
            lines_of(out.1@) == poll(self@.services, shutdown, lines_of(lines@)).lines,
    {
        if self.every_one_stopped() {
            let lines = with_line(lines, String::from_str("All services stopped successfully."));
            let lines = with_line(lines, String::from_str("Service cleanup completed."));
            (ShutdownStep::Finished { end: ShutdownEnd::AllStopped }, lines)
        } else if shutdown.waited_ms >= shutdown.timeout_ms {
            let lines = with_line(
                lines,
                String::from_str(
                    "Timeout waiting for services to stop. Some services may still be running.",
                ),
            );
            let lines = with_line(lines, String::from_str("Service cleanup completed."));
            (ShutdownStep::Finished { end: ShutdownEnd::TimedOut }, lines)
        } else {
            (
                ShutdownStep::Wait {
                    millis: SHUTDOWN_POLL_MS,
                    shutdown: Shutdown {
                        phase: ShutdownPhase::Polling,
                        timeout_ms: shutdown.timeout_ms,
                        waited_ms: shutdown.waited_ms,
                    },
                },
                lines,
            )
        }
    }

    fn decide_seek(&self, from: usize, timeout_ms: u64, lines: Vec<String>) -> (out: (
        ShutdownStep,
        Vec<String>,
    ))
        ensures
            out.0 == seek(self@.services, from as int, timeout_ms, lines_of(lines@)).step,
            lines_of(out.1@) == seek(
                self@.services,
                from as int,
                timeout_ms,
                lines_of(lines@),
            ).lines,
    {
        let index = self.find_running(from);
        if index < self.services.len() {
            let lines = with_line(
                lines,
                join3("Stopping ", self.services[index].name(), "..."),
            );
            (
                ShutdownStep::Stop {
                    index,
                    shutdown: Shutdown {
                        phase: ShutdownPhase::Stopping { next: index + 1 },
                        timeout_ms,
                        waited_ms: 0,
                    },
                },
                lines,
            )
        } else {
            let lines = with_line(
                lines,
                String::from_str("Waiting for services to shut down..."),
            );
            self.decide_poll(
                Shutdown { phase: ShutdownPhase::Polling, timeout_ms, waited_ms: 0 },
                lines,
            )
        }
    }

    /// Begins the shutdown of every running service, to be over within
    /// `timeout_ms` of waiting. With no service running it is over at once.
    /// No service is touched: stopping each is left to the host.
    pub fn stop_all(&mut self, timeout_ms: u64) -> (step: ShutdownStep)
        ensures
            final(self)@.services == old(self)@.services,
            step == begin_shutdown(old(self)@.services, timeout_ms).step,
            final(self)@.log == logged(
                old(self)@.log,
                begin_shutdown(old(self)@.services, timeout_ms).lines,
            ),
            running_count(old(self)@.services) == 0 ==> step == (ShutdownStep::Finished {
                end: ShutdownEnd::NothingToStop,
            }),
    {
        let lines = with_line(no_lines(), String::from_str("Cleaning up services..."));
        assert(lines_of(lines@) =~= seq!["Cleaning up services..."@]);
        let count = self.count_running();
        let (step, lines) = if count == 0 {
            (
                ShutdownStep::Finished { end: ShutdownEnd::NothingToStop },
                with_line(lines, String::from_str("No services to clean up.")),
            )
        } else {
            let line = join3(
                "Found ",
                decimal_text(count as u64).as_str(),
                " running services. Stopping all...",
            );
            self.decide_seek(0, timeout_ms, with_line(lines, line))
        };
        self.terminal.add_logs(lines);
        step
    }

    /// Goes on with a shutdown when the host comes back: the next running
    /// service is named, or the services are looked at once more. The
    /// shutdown ends as `AllStopped` only when every service is `Stopped`; a
    /// pause is asked for only while some service is not and the time waited
    /// is short of the timeout.
    pub fn resume_stop_all(&mut self, shutdown: Shutdown) -> (step: ShutdownStep)
        ensures
            final(self)@.services == old(self)@.services,
            step == resume_shutdown(old(self)@.services, shutdown).step,
            final(self)@.log == logged(
                old(self)@.log,
                resume_shutdown(old(self)@.services, shutdown).lines,
            ),
            step matches ShutdownStep::Wait { millis, shutdown: next } ==> {
                &&& millis == SHUTDOWN_POLL_MS
                &&& next.timeout_ms == shutdown.timeout_ms
                &&& next.waited_ms < shutdown.timeout_ms
                &&& !all_stopped(old(self)@.services)
            },
            step == (ShutdownStep::Finished { end: ShutdownEnd::AllStopped }) ==> all_stopped(
                old(self)@.services,
            ),
    {
        let (step, lines) = match shutdown.phase {
            ShutdownPhase::Stopping { next } => self.decide_seek(
                next,
                shutdown.timeout_ms,
                no_lines(),
            ),
            ShutdownPhase::Polling => self.decide_poll(
                Shutdown {
                    phase: shutdown.phase,
                    timeout_ms: shutdown.timeout_ms,
                    waited_ms: shutdown.waited_ms.saturating_add(SHUTDOWN_POLL_MS),
                },
                no_lines(),
            ),
        };
        self.terminal.add_logs(lines);
        step
    }

    /// Opens a start on the service at `index`. `None` if there is no such
    /// service.
    pub fn start(&mut self, index: usize) -> (step: Option<Step>)
        ensures
            index >= old(self)@.services.len() ==> step is None && final(self)@ == old(self)@,
            index < old(self)@.services.len() ==> {
                let service = old(self)@.services[index as int];
                &&& step == Some(service.start().step)
                &&& final(self)@.services == old(self)@.services.update(
                    index as int,
                    service.with_state(service.start().state),
                )
                &&& final(self)@.log == logged(old(self)@.log, service.start().lines)
            },
    {
        if index >= self.services.len() {
            return None;
        }
        let ghost before = views_of(self.services@);
        let step = self.services[index].start(&mut self.terminal);
        assert(views_of(self.services@) =~= before.update(
            index as int,
            before[index as int].with_state(before[index as int].start().state),
        ));
        Some(step)
    }

    /// Opens a stop on the service at `index`. `None` if there is no such
    /// service.
    pub fn stop(&mut self, index: usize) -> (step: Option<Step>)
        ensures
            index >= old(self)@.services.len() ==> step is None && final(self)@ == old(self)@,
            index < old(self)@.services.len() ==> {
                let service = old(self)@.services[index as int];
                &&& step == Some(service.stop().step)
                &&& final(self)@.services == old(self)@.services.update(
                    index as int,
                    service.with_state(service.stop().state),
                )
                &&& final(self)@.log == logged(old(self)@.log, service.stop().lines)
            },
    {
        if index >= self.services.len() {
            return None;
        }
        let ghost before = views_of(self.services@);
        let step = self.services[index].stop(&mut self.terminal);
        assert(views_of(self.services@) =~= before.update(
            index as int,
            before[index as int].with_state(before[index as int].stop().state),
        ));
        Some(step)
    }

    /// Hands the host's reply to the operation in progress on the service
    /// at `index`. `None` if there is no such service.
    pub fn resume(&mut self, index: usize, operation: Operation, reply: Reply) -> (step: Option<
        Step,
    >)
        ensures
            index >= old(self)@.services.len() ==> step is None && final(self)@ == old(self)@,
            index < old(self)@.services.len() ==> {
                let service = old(self)@.services[index as int];
                &&& step == Some(service.resume(operation, reply).step)
                &&& final(self)@.services == old(self)@.services.update(
                    index as int,
                    service.with_state(service.resume(operation, reply).state),
                )
                &&& final(self)@.log == logged(
                    old(self)@.log,
                    service.resume(operation, reply).lines,
                )
            },
    {
        if index >= self.services.len() {
            return None;
        }
        let ghost before = views_of(self.services@);
        let step = self.services[index].resume(operation, reply, &mut self.terminal);
        assert(views_of(self.services@) =~= before.update(
            index as int,
            before[index as int].with_state(before[index as int].resume(operation, reply).state),
        ));
        Some(step)
    }

    /// Records that the process of the service at `index` has exited. The
    /// service is `Stopped` afterwards, with no process on record. Nothing
    /// happens if there is no such service.
    pub fn process_exited(&mut self, index: usize, report: &Reply)
        ensures
            index >= old(self)@.services.len() ==> final(self)@ == old(self)@,
            index < old(self)@.services.len() ==> {
                let service = old(self)@.services[index as int];
                &&& final(self)@.services == old(self)@.services.update(
                    index as int,
                    service.with_state(service.exited(*report).state),
                )
                &&& final(self)@.log == logged(old(self)@.log, service.exited(*report).lines)
            },
    {
        if index >= self.services.len() {
            return ;
        }
        let ghost before = views_of(self.services@);
        self.services[index].process_exited(report, &mut self.terminal);
        assert(views_of(self.services@) =~= before.update(
            index as int,
            before[index as int].with_state(before[index as int].exited(*report).state),
        ));
    }
}

} // verus!
