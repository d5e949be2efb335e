//! What is known of a service: its status and, while it runs, its process.

use crate::text::same_text;
use vstd::prelude::*;

verus! {

/// The condition a service is believed to be in.
#[derive(Clone, Copy, Debug, PartialEq, Eq, Structural)]
pub enum Status {
    /// No process of the service is believed alive.
    Stopped,
    /// The service was started, or was found alive, and is still believed so.
    Running,
    /// The last attempt to start or stop the service failed.
    Error,
}

impl Status {
    /// The word a status is shown as.
    pub open spec fn label(self) -> Seq<char> {
        match self {
            Status::Stopped => "Stopped"@,
            Status::Running => "Running"@,
            Status::Error => "Error"@,
        }
    }

    /// The status a word stands for. Any word but the labels of `Running`
    /// and `Stopped` stands for `Error`.
    pub open spec fn parsed(word: Seq<char>) -> Status {
        if word == "Running"@ {
            Status::Running
        } else if word == "Stopped"@ {
            Status::Stopped
        } else {
            Status::Error
        }
    }

    /// The word this status is shown as.
    pub fn as_str(self) -> (word: &'static str)
        ensures
            word@ == self.label(),
    {
        match self {
            Status::Stopped => "Stopped",
            Status::Running => "Running",
            Status::Error => "Error",
        }
    }

    /// Reads a status from the word it is shown as.
    pub fn parse(word: &str) -> (status: Status)
        ensures
            status == Status::parsed(word@),
    {
        if same_text(word, "Running") {
            Status::Running
        } else if same_text(word, "Stopped") {
            Status::Stopped
        } else {
            Status::Error
        }
    }
}

/// Reading back the word of a status gives that status.
pub proof fn lemma_parse_label(status: Status)
    ensures
        Status::parsed(status.label()) == status,
{
    reveal_strlit("Stopped");
    reveal_strlit("Running");
    reveal_strlit("Error");
    assert("Stopped"@[0] == 'S');
    assert("Running"@[0] == 'R');
    assert("Error"@[0] == 'E');
}

/// The shared record of one service: its status and the identifier of the
/// process spawned for it. A process identifier is held only while the
/// status is `Running`.
#[derive(Clone, Copy, Debug)]
pub struct ServiceState {
    status: Status,
    process_id: Option<u32>,
}

/// What a `ServiceState` holds.
pub struct StateView {
    pub status: Status,
    pub process_id: Option<u32>,
}

impl StateView {
    /// A process identifier is present only while the status is `Running`.
    pub open spec fn wf(self) -> bool {
        self.process_id is Some ==> self.status is Running
    }

    /// The record after its status has been set: leaving `Running` forgets
    /// the process.
    pub open spec fn with_status(self, status: Status) -> StateView {
        StateView {
            status,
            process_id: if status is Running {
                self.process_id
            } else {
                None
            },
        }
    }

    /// The record after its process identifier has been set: one is kept
    /// only while the status is `Running`.
    pub open spec fn with_pid(self, process_id: Option<u32>) -> StateView {
        StateView {
            status: self.status,
            process_id: if self.status is Running {
                process_id
            } else {
                None
            },
        }
    }

    /// The record of a service that is not running.
    pub open spec fn stopped() -> StateView {
        StateView { status: Status::Stopped, process_id: None }
    }
}

impl View for ServiceState {
    type V = StateView;

    closed spec fn view(&self) -> StateView {
        StateView { status: self.status, process_id: self.process_id }
    }
}

impl ServiceState {
    #[verifier::type_invariant]
    spec fn pid_only_while_running(&self) -> bool {
        self.process_id is Some ==> self.status is Running
    }

    /// A record with the given status and no process.
    pub fn new(status: Status) -> (state: Self)
        ensures
            state@ == (StateView { status, process_id: None }),
            state@.wf(),
    {
        ServiceState { status, process_id: None }
    }

    /// The current status.
    pub fn get_status(&self) -> (status: Status)
        ensures
            status == self@.status,
    {
        self.status
    }

    /// The process identifier on record, if any.
    pub fn get_pid(&self) -> (process_id: Option<u32>)
        ensures
            process_id == self@.process_id,
            self@.wf(),
    {
        proof {
            use_type_invariant(self);
        }
        self.process_id
    }

    /// Sets the status. Leaving `Running` forgets the process.
    pub fn set_status(&mut self, status: Status)
        ensures
            final(self)@ == old(self)@.with_status(status),
            final(self)@.wf(),
    {
        proof {
            use_type_invariant(&*self);
        }
        let process_id = match status {
            Status::Running => self.process_id,
            _ => None,
        };
        *self = ServiceState { status, process_id };
    }

    /// Sets the process identifier. It is kept only while the status is
    /// `Running`; otherwise none is recorded.
    pub fn set_pid(&mut self, process_id: Option<u32>)
        ensures
            final(self)@ == old(self)@.with_pid(process_id),
            final(self)@.wf(),
    {
        let kept = match self.status {
            Status::Running => process_id,
            _ => None,
        };
        *self = ServiceState { status: self.status, process_id: kept };
    }

    /// What a reader takes the record to be when it could not be read: a
    /// snapshot that is missing counts as `Error`, with no process.
    pub fn fail_safe(snapshot: Option<ServiceState>) -> (state: ServiceState)
        ensures
            state@ == match snapshot {
                Some(read) => read@,
                None => (StateView { status: Status::Error, process_id: None }),
            },
            state@.wf(),
    {
        match snapshot {
            Some(read) => {
                proof {
                    use_type_invariant(&read);
                }
                read
            },
            None => ServiceState::new(Status::Error),
        }
    }
}

} // verus!
