//! The relay parent's loop over candidate devices, one at a time, as a state
//! machine: the caller runs the broker, receives, and identifies as asked.
use vstd::prelude::*;
use crate::relay::RecvOutcome;
use crate::session::SessionError;

verus! {

/// What ended a relay run early.
#[derive(Debug, Clone, Copy, PartialEq, Eq, Structural)]
pub enum RunError {
    /// The broker could not be run for a device.
    Broker,
    /// A delivered descriptor could not be identified.
    Session(SessionError),
}

/// Where the loop stands on the current device.
#[derive(Debug, Clone, Copy, PartialEq, Eq, Structural)]
pub enum Phase {
    Request,
    Receive,
    Identify,
    Done,
}

/// What came of the last action.
#[derive(Debug, Clone, Copy, PartialEq, Eq, Structural)]
pub enum RelayEvent {
    /// The broker ran and exited, whatever its status.
    BrokerExited,
    /// The broker could not be run.
    BrokerFailed,
    Received(RecvOutcome),
    /// The delivered descriptor was identified.
    Identified,
    IdentifyFailed(SessionError),
}

/// What the caller is to do next.
#[derive(Debug)]
pub enum RelayAction {
    /// Run the broker for the device at `path`.
    RequestDevice { path: String },
    /// Receive once on the relay socket.
    Receive,
    /// Identify the device behind descriptor `fd`.
    Identify { fd: i32 },
    /// The run is over; `resolved` devices were identified.
    Finish { resolved: usize },
    Abort(RunError),
}

/// The relay parent's progress through its candidate devices.
pub struct RelayParent {
    devices: Vec<String>,
    index: usize,
    phase: Phase,
    fd: i32,
    resolved: usize,
    error: Option<RunError>,
}

impl RelayParent {
    /// The candidate device paths, in the order they are tried.
    pub closed spec fn devices(&self) -> Seq<Seq<char>> {
        self.devices.deep_view()
    }

    /// Position of the current device in the list.
    pub closed spec fn index(&self) -> nat {
        self.index as nat
    }

    /// The step reached on the current device.
    pub closed spec fn phase(&self) -> Phase {
        self.phase
    }

    /// The descriptor delivered for the current device.
    pub closed spec fn fd(&self) -> i32 {
        self.fd
    }

    /// How many devices have been identified.
    pub closed spec fn resolved(&self) -> nat {
        self.resolved as nat
    }

    /// What ended the run early, if anything did.
    pub closed spec fn error(&self) -> Option<RunError> {
        self.error
    }

    /// The position stays within the list, and only a finished run has an
    /// error.
    pub closed spec fn wf(&self) -> bool {
        &&& self.index <= self.devices@.len()
        &&& self.phase != Phase::Done ==> self.index < self.devices@.len()
        &&& self.error is Some ==> self.phase == Phase::Done
        &&& self.resolved <= self.index
    }

    /// A run over `devices`, in their order.
    pub fn new(devices: Vec<String>) -> (r: RelayParent)
        ensures
            r.wf(),
            r.devices() == devices.deep_view(),
            r.index() == 0,
            r.resolved() == 0,
            r.error() is None,
            r.phase() == (if devices@.len() == 0 { Phase::Done } else { Phase::Request }),
    {
        let phase = if devices.len() == 0 { Phase::Done } else { Phase::Request };
        RelayParent { devices, index: 0, phase, fd: -1, resolved: 0, error: None }
    }

    /// Whether the run is over.
    pub fn is_done(&self) -> (r: bool)
        ensures
            r == (self.phase() == Phase::Done),
    {
        self.phase == Phase::Done
    }

    /// The action that the current phase asks for.
    pub fn action(&self) -> (r: RelayAction)
        requires
            self.wf(),
        ensures
            self.phase() == Phase::Request ==> (r matches RelayAction::RequestDevice { path }
                && path@ == self.devices()[self.index() as int]),
            self.phase() == Phase::Receive ==> r is Receive,
            self.phase() == Phase::Identify ==> r == (RelayAction::Identify { fd: self.fd() }),
            self.phase() == Phase::Done ==> r == (match self.error() {
                Some(e) => RelayAction::Abort(e),
                None => RelayAction::Finish { resolved: self.resolved() as usize },
            }),
    {
        match self.phase {
            Phase::Request => RelayAction::RequestDevice { path: self.devices[self.index].clone() },
            Phase::Receive => RelayAction::Receive,
            Phase::Identify => RelayAction::Identify { fd: self.fd },
            Phase::Done => match self.error {
                Some(e) => RelayAction::Abort(e),
                None => RelayAction::Finish { resolved: self.resolved },
            },
        }
    }

    /// Moves on to the next device, or ends the run after the last.
    fn next_device(&mut self)
        requires
            old(self).wf(),
            old(self).phase() != Phase::Done,
            old(self).error() is None,
        ensures
            final(self).wf(),
            final(self).devices() == old(self).devices(),
            final(self).index() == old(self).index() + 1,
            final(self).resolved() == old(self).resolved(),
            final(self).error() is None,
            final(self).fd() == old(self).fd(),
            final(self).phase() == (if final(self).index() == final(self).devices().len() {
                Phase::Done
            } else {
                Phase::Request
            }),
    {
        let n = self.devices.len();
        self.index = self.index + 1;
        self.phase = if self.index == n { Phase::Done } else { Phase::Request };
    }

    /// Takes in what came of the action that the current phase asked for.
    /// An event that does not answer that action changes nothing.
    pub fn record(&mut self, ev: RelayEvent)
        requires
            old(self).wf(),
        ensures
            final(self).wf(),
            final(self).devices() == old(self).devices(),
            old(self).phase() == Phase::Done ==> *final(self) == *old(self),
            old(self).phase() == Phase::Request ==> (match ev {
                RelayEvent::BrokerExited => final(self).phase() == Phase::Receive
                    && final(self).index() == old(self).index()
                    && final(self).resolved() == old(self).resolved()
                    && final(self).error() is None,
                RelayEvent::BrokerFailed => final(self).phase() == Phase::Done
                    && final(self).resolved() == old(self).resolved()
                    && final(self).error() == Some(RunError::Broker),
                _ => *final(self) == *old(self),
            }),
            old(self).phase() == Phase::Receive ==> (match ev {
                RelayEvent::Received(RecvOutcome::Delivered { size: _, fd }) =>
                    final(self).phase() == Phase::Identify
                    && final(self).fd() == fd
                    && final(self).index() == old(self).index()
                    && final(self).resolved() == old(self).resolved()
                    && final(self).error() is None,
                RelayEvent::Received(_) => final(self).index() == old(self).index() + 1
                    && final(self).resolved() == old(self).resolved()
                    && final(self).error() is None,
                _ => *final(self) == *old(self),
            }),
            old(self).phase() == Phase::Identify ==> (match ev {
                RelayEvent::Identified => final(self).index() == old(self).index() + 1
                    && final(self).resolved() == old(self).resolved() + 1
                    && final(self).error() is None,
                RelayEvent::IdentifyFailed(e) => final(self).phase() == Phase::Done
                    && final(self).resolved() == old(self).resolved()
                    && final(self).error() == Some(RunError::Session(e)),
                _ => *final(self) == *old(self),
            }),
            final(self).index() == old(self).index() + 1 ==> final(self).phase() == (if final(self).index() == final(self).devices().len() {
                    Phase::Done
                } else {
                    Phase::Request
                }),
    {
        match self.phase {
            Phase::Request => match ev {
                RelayEvent::BrokerExited => { self.phase = Phase::Receive; },
                RelayEvent::BrokerFailed => {
                    self.phase = Phase::Done;
                    self.error = Some(RunError::Broker);
                },
                _ => {},
            },
            Phase::Receive => match ev {
                RelayEvent::Received(RecvOutcome::Delivered { size: _, fd }) => {
                    self.fd = fd;
                    self.phase = Phase::Identify;
                },
                RelayEvent::Received(_) => { self.next_device(); },
                _ => {},
            },
            Phase::Identify => match ev {
                RelayEvent::Identified => {
                    self.next_device();
                    self.resolved = self.resolved + 1;
                },
                RelayEvent::IdentifyFailed(e) => {
                    self.phase = Phase::Done;
                    self.error = Some(RunError::Session(e));
                },
                _ => {},
            },
            Phase::Done => {},
        }
    }
}

/// A run over no candidate devices ends at once, cleanly, having identified
/// none: its next action is `Finish` with a count of zero.
pub proof fn lemma_no_candidates_clean_run(p: RelayParent)
    requires
        p.wf(),
        p.devices().len() == 0,
        p.error() is None,
    ensures
        p.phase() == Phase::Done,
        p.resolved() == 0,
{
}

} // verus!
