//! What holds of every service, whatever its family and whatever the host
//! reports.

use crate::model::{Decision, Operation, Outcome, ServiceView, Step};
use crate::runner::{lemma_wait_progress, Command, Reply, Request, Wait};
use crate::status::StateView;
use crate::supervisor::{
    all_stopped, paused, resume_shutdown, running_among, running_count, shutdown_budget,
    Shutdown, ShutdownEnd, ShutdownPhase, ShutdownStep, SHUTDOWN_POLL_MS,
};
use vstd::prelude::*;

verus! {

/// Where a conversation stands once the host has given `replies`, in order,
/// starting from `decision`. Replies that come after its end change
/// nothing; the lines of all decisions add up.
pub open spec fn drive(service: ServiceView, decision: Decision, replies: Seq<Reply>) -> Decision
    decreases replies.len(),
{
    match decision.step {
        Step::Done { .. } => decision,
        Step::Need { operation, .. } => if replies.len() == 0 {
            decision
        } else {
            let next = service.with_state(decision.state).resume(operation, replies.first());
            drive(
                service,
                Decision { lines: decision.lines + next.lines, ..next },
                replies.drop_first(),
            )
        },
    }
}

/// Where a conversation stands after at most `turns` replies of a host that
/// answers each request the way `host` says.
pub open spec fn converse(
    service: ServiceView,
    decision: Decision,
    host: spec_fn(Request) -> Reply,
    turns: nat,
) -> Decision
    decreases turns,
{
    match decision.step {
        Step::Done { .. } => decision,
        Step::Need { operation, request } => if turns == 0 {
            decision
        } else {
            let next = service.with_state(decision.state).resume(operation, host(request));
            converse(
                service,
                Decision { lines: decision.lines + next.lines, ..next },
                host,
                (turns - 1) as nat,
            )
        },
    }
}

/// A host under which every command is spawned and exits, with whatever
/// status.
pub open spec fn commands_exit(host: spec_fn(Request) -> Reply) -> bool {
    &&& host(Request::TryWait) is Exited
    &&& forall|command: Command| #[trigger]
        host(Request::Spawn { command, detached: false }) is Spawned
}

/// The record a stop can leave behind: `Stopped` or `Error`, and no process.
pub open spec fn at_rest(state: StateView) -> bool {
    &&& state.process_id is None
    &&& state.status is Stopped || state.status is Error
}

/// A start never leaves a process on record for a service that is not
/// running.
pub proof fn lemma_start_keeps_record_sound(service: ServiceView)
    requires
        service.state.wf(),
    ensures
        service.start().state.wf(),
{
}

/// A stop never leaves a process on record for a service that is not
/// running.
pub proof fn lemma_stop_keeps_record_sound(service: ServiceView)
    requires
        service.state.wf(),
    ensures
        service.stop().state.wf(),
{
}

/// No reply leaves a process on record for a service that is not running.
pub proof fn lemma_resume_keeps_record_sound(
    service: ServiceView,
    operation: Operation,
    reply: Reply,
)
    requires
        service.state.wf(),
    ensures
        service.resume(operation, reply).state.wf(),
{
}

/// Starting a service that is running is a no-op: its record stays as it
/// is, nothing is asked of the host, and the log gains the opening line and
/// exactly one line saying that the service is already running.
pub proof fn lemma_start_when_running(service: ServiceView)
    requires
        service.state.status is Running,
    ensures
        service.start().state == service.state,
        service.start().step == (Step::Done { outcome: Outcome::Unchanged }),
        service.start().lines == seq![
            "Starting "@ + service.name + " service..."@,
            service.name + " is already running"@,
        ],
{
    assert(service.start().lines =~= seq![
        "Starting "@ + service.name + " service..."@,
        service.name + " is already running"@,
    ]);
}

/// Stopping a service that is stopped is a no-op: it stays stopped, no
/// process is on record, and nothing is asked of the host.
pub proof fn lemma_stop_when_stopped(service: ServiceView)
    requires
        service.state.status is Stopped,
    ensures
        service.stop().state == StateView::stopped(),
        service.stop().step == (Step::Done { outcome: Outcome::Unchanged }),
{
}

/// While a stop is in progress the record is not touched, and when it ends
/// the service is at rest: `Stopped` or `Error`, with no process on record.
pub proof fn lemma_stop_step(service: ServiceView, operation: Operation, reply: Reply)
    requires
        operation.stopping(),
    ensures
        match service.resume(operation, reply).step {
            Step::Need { operation: next, .. } => next.stopping() && service.resume(
                operation,
                reply,
            ).state == service.state,
            Step::Done { .. } => at_rest(service.resume(operation, reply).state),
        },
{
}

/// However the host replies, a stop that has come to its end has left the
/// service at rest.
pub proof fn lemma_stop_ends_at_rest(service: ServiceView, replies: Seq<Reply>)
    ensures
        drive(service, service.stop(), replies).step is Done ==> at_rest(
            drive(service, service.stop(), replies).state,
        ),
{
    lemma_stopping_ends_at_rest(service, service.stop(), replies);
}

proof fn lemma_stopping_ends_at_rest(service: ServiceView, decision: Decision, replies: Seq<Reply>)
    requires
        match decision.step {
            Step::Need { operation, .. } => operation.stopping(),
            Step::Done { .. } => at_rest(decision.state),
        },
    ensures
        drive(service, decision, replies).step is Done ==> at_rest(
            drive(service, decision, replies).state,
        ),
    decreases replies.len(),
{
    match decision.step {
        Step::Done { .. } => {},
        Step::Need { operation, .. } => {
            if replies.len() > 0 {
                let current = service.with_state(decision.state);
                let next = current.resume(operation, replies.first());
                lemma_stop_step(current, operation, replies.first());
                lemma_stopping_ends_at_rest(
                    service,
                    Decision { lines: decision.lines + next.lines, ..next },
                    replies.drop_first(),
                );
            }
        },
    }
}

/// Stopping twice is stopping once: when a stop has left the service
/// stopped, a second stop right after it asks nothing of the host and leaves
/// the same record, `Stopped` with no process.
pub proof fn lemma_stop_twice(service: ServiceView, replies: Seq<Reply>)
    requires
        drive(service, service.stop(), replies).step is Done,
        drive(service, service.stop(), replies).state.status is Stopped,
    ensures
        ({
            let once = drive(service, service.stop(), replies).state;
            let again = service.with_state(once).stop();
            &&& once == StateView::stopped()
            &&& again.state == once
            &&& again.step == (Step::Done { outcome: Outcome::Unchanged })
        }),
{
    lemma_stop_ends_at_rest(service, replies);
}

/// How many replies a decision of a stop is from its end under a host whose
/// commands all exit, for the decisions that such a stop passes through.
pub open spec fn turns_to_rest(decision: Decision) -> Option<nat> {
    match decision.step {
        Step::Done { .. } => if decision.state == StateView::stopped() {
            Some(0nat)
        } else {
            None
        },
        Step::Need { operation: Operation::ProbeMarker, .. } => Some(3nat),
        Step::Need { operation: Operation::Await { command: Command::Shutdown, wait }, request } => {
            if wait.phase is Spawning && wait.waited_ms < wait.timeout_ms && request == (
            Request::Spawn { command: Command::Shutdown, detached: false }) {
                Some(2nat)
            } else if wait.phase is Checking && request == Request::TryWait {
                Some(1nat)
            } else {
                None
            }
        },
        _ => None,
    }
}

proof fn lemma_exiting_commands_stop(
    service: ServiceView,
    decision: Decision,
    host: spec_fn(Request) -> Reply,
    turns: nat,
)
    requires
        commands_exit(host),
        turns_to_rest(decision) matches Some(rank) && turns >= rank,
    ensures
        converse(service, decision, host, turns).step is Done,
        converse(service, decision, host, turns).state == StateView::stopped(),
    decreases turns,
{
    match decision.step {
        Step::Done { .. } => {},
        Step::Need { operation, request } => {
            let next = service.with_state(decision.state).resume(operation, host(request));
            let after = Decision { lines: decision.lines + next.lines, ..next };
            assert(host(Request::Spawn { command: Command::Shutdown, detached: false })
                is Spawned);
            assert(turns_to_rest(after) matches Some(rank) && turns - 1 >= rank);
            lemma_exiting_commands_stop(service, after, host, (turns - 1) as nat);
        },
    }
}

/// Under a host whose commands all exit, a stop is over within three
/// replies and leaves the service stopped, with no process on record,
/// whatever the record was before and however the commands exited.
pub proof fn lemma_stop_with_exiting_commands(
    service: ServiceView,
    host: spec_fn(Request) -> Reply,
    turns: nat,
)
    requires
        commands_exit(host),
        turns >= 3,
    ensures
        converse(service, service.stop(), host, turns).step is Done,
        converse(service, service.stop(), host, turns).state == StateView::stopped(),
{
    lemma_exiting_commands_stop(service, service.stop(), host, turns);
}

/// A start, however it went, followed by a stop under a host whose commands
/// all exit leaves the service stopped, with no process on record.
pub proof fn lemma_round_trip(
    service: ServiceView,
    replies: Seq<Reply>,
    host: spec_fn(Request) -> Reply,
)
    requires
        commands_exit(host),
    ensures
        ({
            let started = service.with_state(drive(service, service.start(), replies).state);
            let stopped = converse(started, started.stop(), host, 3);
            &&& stopped.step is Done
            &&& stopped.state == StateView::stopped()
        }),
{
    let started = service.with_state(drive(service, service.start(), replies).state);
    lemma_stop_with_exiting_commands(started, host, 3);
}

/// When the shutdown command has failed and a process is on record, the
/// next thing asked for is the end of that process, by its identifier.
pub proof fn lemma_process_is_killed_first(service: ServiceView, wait: Wait, reply: Reply, pid: u32)
    requires
        service.state.process_id == Some(pid),
        wait.step(reply) is Finished,
        !(wait.step(reply)->end is Exited),
    ensures
        service.resume(Operation::Await { command: Command::Shutdown, wait }, reply).step == (
        Step::Need {
            operation: Operation::Await {
                command: Command::KillProcess { pid },
                wait: Wait::started(crate::runner::COMMAND_TIMEOUT_MS),
            },
            request: Request::Spawn { command: Command::KillProcess { pid }, detached: false },
        }),
{
}

/// Ending the service's processes by the name of their program is the last
/// resort: it is asked for only when ending the process on record has been
/// tried and has failed, or when the shutdown command has failed and no
/// process is on record. Opening a start or a stop never asks for it.
pub proof fn lemma_image_is_killed_last(service: ServiceView, operation: Operation, reply: Reply)
    ensures
        service.resume(operation, reply).step matches Step::Need { request, .. } && request
            matches Request::Spawn { command, .. } && command is KillImage ==> {
            ||| operation matches Operation::Await { command, wait } && command is KillProcess
                && wait.step(reply) is Finished && !(wait.step(reply)->end is Exited)
            ||| operation matches Operation::Await { command, wait } && command is Shutdown
                && wait.step(reply) is Finished && !(wait.step(reply)->end is Exited)
                && service.state.process_id is None
        },
        !(service.start().step matches Step::Need { request, .. } && request matches Request::Spawn {
            command,
            ..
        } && (command is KillImage || command is KillProcess)),
        !(service.stop().step matches Step::Need { request, .. } && request matches Request::Spawn {
            command,
            ..
        } && (command is KillImage || command is KillProcess)),
{
}

/// Every reply brings an operation closer to its end: no start and no stop
/// can keep the host busy for ever.
pub proof fn lemma_operation_progress(service: ServiceView, operation: Operation, reply: Reply)
    ensures
        service.resume(operation, reply).step matches Step::Need { operation: next, .. }
            ==> next.budget() < operation.budget(),
{
    match operation {
        Operation::Await { command, wait } => {
            lemma_wait_progress(wait, reply);
        },
        _ => {},
    }
}

/// A conversation is over once the host has given as many replies as the
/// budget of the operation it began with.
pub proof fn lemma_conversation_ends(service: ServiceView, decision: Decision, replies: Seq<Reply>)
    requires
        decision.step matches Step::Need { operation, .. } ==> replies.len() >= operation.budget(),
    ensures
        drive(service, decision, replies).step is Done,
    decreases replies.len(),
{
    match decision.step {
        Step::Done { .. } => {},
        Step::Need { operation, .. } => {
            let current = service.with_state(decision.state);
            lemma_operation_progress(current, operation, replies.first());
            if replies.len() > 0 {
                let next = current.resume(operation, replies.first());
                lemma_conversation_ends(
                    service,
                    Decision { lines: decision.lines + next.lines, ..next },
                    replies.drop_first(),
                );
            } else {
                lemma_budget_is_positive(operation);
            }
        },
    }
}

/// An operation in progress has at least one reply to take.
pub proof fn lemma_budget_is_positive(operation: Operation)
    ensures
        operation.budget() > 0,
{
}

/// The exit of a service's process leaves the service stopped, with no
/// process on record, whatever it was doing and without any stop.
pub proof fn lemma_exit_stops(service: ServiceView, report: Reply)
    ensures
        service.exited(report).state == StateView::stopped(),
{
}

/// The total of the pauses that a shutdown asks for from now on, if the
/// services are as `snapshots` say each time the host comes back.
pub open spec fn pauses_ahead(snapshots: Seq<Seq<ServiceView>>, shutdown: Shutdown) -> nat
    decreases snapshots.len(),
{
    if snapshots.len() == 0 {
        0
    } else {
        match resume_shutdown(snapshots.first(), shutdown).step {
            ShutdownStep::Wait { millis, shutdown: next } => millis as nat + pauses_ahead(
                snapshots.drop_first(),
                next,
            ),
            _ => 0,
        }
    }
}

/// A shutdown that is waiting never waits much longer than its timeout:
/// whatever the services do, the pause under way and all the pauses still to
/// come add up to less than the timeout and one pause.
pub proof fn lemma_shutdown_wait_is_bounded(snapshots: Seq<Seq<ServiceView>>, shutdown: Shutdown)
    requires
        shutdown.phase is Polling,
        shutdown.waited_ms < shutdown.timeout_ms,
    ensures
        shutdown.waited_ms + SHUTDOWN_POLL_MS + pauses_ahead(snapshots, shutdown)
            < shutdown.timeout_ms + SHUTDOWN_POLL_MS,
    decreases snapshots.len(),
{
    if snapshots.len() > 0 {
        match resume_shutdown(snapshots.first(), shutdown).step {
            ShutdownStep::Wait { millis, shutdown: next } => {
                lemma_shutdown_wait_is_bounded(snapshots.drop_first(), next);
            },
            _ => {},
        }
    }
}

/// Where a service is running, not every service is stopped.
pub proof fn lemma_running_is_not_stopped(services: Seq<ServiceView>)
    requires
        running_count(services) > 0,
    ensures
        !all_stopped(services),
{
    if all_stopped(services) {
        lemma_none_running_among(services, services.len() as int);
    }
}

proof fn lemma_none_running_among(services: Seq<ServiceView>, upto: int)
    requires
        all_stopped(services),
        0 <= upto <= services.len(),
    ensures
        running_among(services, upto) == 0,
    decreases upto,
{
    if upto > 0 {
        lemma_none_running_among(services, upto - 1);
        assert(services[upto - 1].state.status is Stopped);
    }
}

/// A shutdown ends as all stopped only when every service is `Stopped`: a
/// service left in `Error` keeps the wait going until the time is up.
pub proof fn lemma_all_stopped_means_stopped(services: Seq<ServiceView>, shutdown: Shutdown)
    ensures
        resume_shutdown(services, shutdown).step == (ShutdownStep::Finished {
            end: ShutdownEnd::AllStopped,
        }) ==> all_stopped(services),
{
}

/// When the host comes back from a pause that used up the timeout and some
/// service is not stopped, be it running or in `Error`, the shutdown ends as
/// timed out and says so in the log.
pub proof fn lemma_shutdown_times_out(services: Seq<ServiceView>, shutdown: Shutdown)
    requires
        shutdown.phase is Polling,
        !all_stopped(services),
        shutdown.waited_ms + SHUTDOWN_POLL_MS >= shutdown.timeout_ms,
    ensures
        resume_shutdown(services, shutdown).step == (ShutdownStep::Finished {
            end: ShutdownEnd::TimedOut,
        }),
        resume_shutdown(services, shutdown).lines == seq![
            "Timeout waiting for services to stop. Some services may still be running."@,
            "Service cleanup completed."@,
        ],
{
    assert(resume_shutdown(services, shutdown).lines =~= seq![
        "Timeout waiting for services to stop. Some services may still be running."@,
        "Service cleanup completed."@,
    ]);
}

/// Every time the host comes back, a shutdown is closer to its end, however
/// many services there are and whatever they do in between: a shutdown
/// cannot keep the host busy for ever.
pub proof fn lemma_shutdown_progress(
    before: Seq<ServiceView>,
    after: Seq<ServiceView>,
    shutdown: Shutdown,
)
    requires
        before.len() == after.len(),
        before.len() <= usize::MAX,
    ensures
        match resume_shutdown(before, shutdown).step {
            ShutdownStep::Stop { shutdown: next, .. } => shutdown_budget(after, next)
                < shutdown_budget(before, shutdown),
            ShutdownStep::Wait { shutdown: next, .. } => shutdown_budget(after, next)
                < shutdown_budget(before, shutdown),
            ShutdownStep::Finished { .. } => true,
        },
{
    match shutdown.phase {
        ShutdownPhase::Stopping { next } => {
            lemma_first_running_bounds(before, next as int);
        },
        ShutdownPhase::Polling => {
            let later = paused(shutdown);
            if later.waited_ms < later.timeout_ms {
                let rest = later.timeout_ms - later.waited_ms;
                assert((rest + 500) / 500 == rest / 500 + 1) by (nonlinear_arith)
                    requires
                        rest >= 0,
                ;
            }
        },
    }
}

/// The first running service at or after a place is at or after that place.
pub proof fn lemma_first_running_bounds(services: Seq<ServiceView>, from: int)
    requires
        from >= 0,
    ensures
        first_running_at(services, from),
    decreases services.len() - from,
{
    if from < services.len() && !(services[from].state.status is Running) {
        lemma_first_running_bounds(services, from + 1);
    }
}

/// Where the first running service at or after `from` lies: at or after
/// `from`, and at a service that is running unless there is none.
pub open spec fn first_running_at(services: Seq<ServiceView>, from: int) -> bool {
    let index = crate::supervisor::first_running(services, from);
    &&& index <= services.len() || index == from
    &&& from <= index || index == services.len()
    &&& index < services.len() ==> services[index].state.status is Running
}

} // verus!
