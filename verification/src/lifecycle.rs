//! The listener lifecycle state machine.
//!
//! A single run of the server goes bind -> serve -> graceful shutdown ->
//! terminate. This module models that run as an explicit state machine:
//! the process around the library reports what happened at the socket
//! (an [`Event`]) and performs what the machine decides ([`Action`]).
//! Keeping the decisions here, as plain data, makes the controller
//! independently checkable: a synthetic event sequence stands in for the
//! real sockets and the real interrupt signal.

use vstd::prelude::*;

verus! {

/// The terminal failures of a lifecycle run. Both are final for the run;
/// retrying is the caller's business.
#[derive(Debug, PartialEq, Eq)]
pub enum Error {
    /// The initial socket bind failed (address in use, permission denied,
    /// invalid address). No connection was ever served and no resource is
    /// still held.
    CouldNotStart(String),
    /// The serving phase ended through an unrecoverable transport failure
    /// rather than a clean shutdown.
    BadExit(String),
}

impl Error {
    /// The underlying detail message, whichever kind this is.
    pub open spec fn spec_detail(self) -> Seq<char> {
        match self {
            Error::CouldNotStart(d) => d@,
            Error::BadExit(d) => d@,
        }
    }

    /// True of a failure to start, false of a failure while running.
    pub fn is_bind_failure(&self) -> (r: bool)
        ensures
            r == (self is CouldNotStart),
    {
        match self {
            Error::CouldNotStart(_) => true,
            Error::BadExit(_) => false,
        }
    }

    /// The underlying detail message.
    pub fn detail(&self) -> (r: &String)
        ensures
            r@ == self.spec_detail(),
    {
        match self {
            Error::CouldNotStart(d) => d,
            Error::BadExit(d) => d,
        }
    }
}

/// What the caller supplies to start the server: the local port to bind.
/// The host is always the loopback address.
pub struct Arguments {
    pub port: u16,
}

/// A bindable local address: four IPv4 octets and a port. The transport
/// layer turns it into a real socket address.
pub struct ListenAddress {
    pub octet0: u8,
    pub octet1: u8,
    pub octet2: u8,
    pub octet3: u8,
    pub port: u16,
}

impl ListenAddress {
    /// The address names the local loopback interface.
    pub open spec fn is_loopback(self) -> bool {
        self.octet0 == 127 && self.octet1 == 0 && self.octet2 == 0 && self.octet3 == 1
    }
}

impl Arguments {
    /// The address a run with these arguments binds: loopback at the
    /// caller's port.
    pub fn bind_address(&self) -> (r: ListenAddress)
        ensures
            r.is_loopback(),
            r.port == self.port,
    {
        ListenAddress { octet0: 127, octet1: 0, octet2: 0, octet3: 1, port: self.port }
    }
}

/// The phases of a single lifecycle run, in the order they are passed:
/// `Unbound -> Bound -> Serving -> ShuttingDown -> Terminated`, with the
/// two shortcuts that skip the middle (a failed bind terminates at once,
/// and a shutdown signal with nothing in flight needs no drain).
#[derive(Clone, Copy, Debug, PartialEq, Eq, Structural)]
pub enum Phase {
    /// No socket is held yet; binding has not been attempted.
    Unbound,
    /// The bind succeeded; the server handle owns the socket but the
    /// accept loop has not started.
    Bound,
    /// The steady state: connections are accepted and served while the
    /// shutdown watcher waits for the interrupt signal.
    Serving,
    /// The shutdown signal was observed: no new connection is accepted,
    /// and the connections already in flight drain to completion.
    ShuttingDown,
    /// The run is over and its outcome is recorded. Absorbing: no event
    /// is permitted here, and the socket has been released.
    Terminated,
}

/// What the process around the library observes at the socket and
/// reports to the controller.
#[derive(Debug)]
pub enum Event {
    /// The bind attempt succeeded; the socket is held.
    BindSucceeded,
    /// The bind attempt failed, with the transport's detail message.
    BindFailed(String),
    /// A client attempted a connection.
    ConnectionArrived,
    /// A connection that had been accepted finished: its responses are
    /// written and flushed.
    ConnectionFinished,
    /// The interrupt signal fired.
    ShutdownSignal,
    /// The transport reported an unrecoverable error that aborts the
    /// server loop, with its detail message.
    TransportFailed(String),
}

/// What the controller decides in answer to an event; the process around
/// the library performs it.
#[derive(Clone, Copy, Debug, PartialEq, Eq, Structural)]
pub enum Action {
    /// Start the accept loop and the shutdown watcher together, and emit
    /// the one informational notice naming the bound address.
    BeginServing,
    /// Dispatch the accepted connection to the request handler.
    ServeConnection,
    /// Close the connection attempt unserved: the run is shutting down.
    RefuseConnection,
    /// Stop accepting new connections; keep the in-flight ones running.
    StopAccepting,
    /// Release whatever is still held and hand the recorded outcome to
    /// the caller.
    Finish,
    /// Nothing to perform; the run goes on as it is.
    KeepWaiting,
}

/// One lifecycle run: the current phase, how many accepted connections
/// are still in flight, and the outcome once the run has terminated.
///
/// A fresh value is made per run by [`Lifecycle::new`]; nothing survives
/// from one run to the next.
#[derive(Debug)]
pub struct Lifecycle {
    pub phase: Phase,
    pub in_flight: usize,
    pub outcome: Option<Result<(), Error>>,
}

impl Lifecycle {
    /// Well-formedness, established at creation and preserved by every
    /// step: an outcome is recorded exactly in `Terminated`; connections
    /// are in flight only while serving or draining; and the drain phase
    /// is never empty (with nothing in flight a shutdown terminates at
    /// once).
    pub open spec fn wf(self) -> bool {
        &&& (self.outcome is Some <==> self.phase is Terminated)
        &&& (self.phase is ShuttingDown ==> self.in_flight > 0)
        &&& (self.phase is Unbound || self.phase is Bound || self.phase is Terminated
            ==> self.in_flight == 0)
    }

    /// Which events the environment can deliver in which phase. Bind
    /// results answer a bind attempt; connections arrive only while the
    /// listener exists; a finish matches an earlier accept; the one
    /// shutdown signal fires during serving; transport failures abort
    /// serving or draining. The bound on `in_flight` is a machine limit:
    /// the count must stay representable.
    pub open spec fn permits(self, ev: Event) -> bool {
        match ev {
            Event::BindSucceeded => self.phase is Unbound,
            Event::BindFailed(_) => self.phase is Unbound,
            Event::ConnectionArrived => (self.phase is Serving && self.in_flight < usize::MAX)
                || self.phase is ShuttingDown,
            Event::ConnectionFinished => (self.phase is Serving || self.phase is ShuttingDown)
                && self.in_flight > 0,
            Event::ShutdownSignal => self.phase is Serving,
            Event::TransportFailed(_) => self.phase is Serving || self.phase is ShuttingDown,
        }
    }

    /// The state after an event: the transition relation of the machine.
    pub open spec fn next(self, ev: Event) -> Lifecycle {
        match ev {
            Event::BindSucceeded => (Lifecycle { phase: Phase::Bound, ..self }),
            Event::BindFailed(d) => (Lifecycle {
                phase: Phase::Terminated,
                in_flight: self.in_flight,
                outcome: Some(Err(Error::CouldNotStart(d))),
            }),
            Event::ConnectionArrived => if self.phase is Serving {
                Lifecycle { in_flight: (self.in_flight + 1) as usize, ..self }
            } else {
                self
            },
            Event::ConnectionFinished => if self.phase is ShuttingDown && self.in_flight == 1 {
                Lifecycle { phase: Phase::Terminated, in_flight: 0, outcome: Some(Ok(())) }
            } else {
                Lifecycle { in_flight: (self.in_flight - 1) as usize, ..self }
            },
            Event::ShutdownSignal => if self.in_flight == 0 {
                Lifecycle { phase: Phase::Terminated, in_flight: 0, outcome: Some(Ok(())) }
            } else {
                Lifecycle { phase: Phase::ShuttingDown, ..self }
            },
            Event::TransportFailed(d) => (Lifecycle {
                phase: Phase::Terminated,
                in_flight: 0,
                outcome: Some(Err(Error::BadExit(d))),
            }),
        }
    }

    /// The action decided for an event: what the environment must
    /// perform alongside the transition that `next` describes.
    pub open spec fn decide(self, ev: Event) -> Action {
        match ev {
            Event::BindSucceeded => Action::BeginServing,
            Event::BindFailed(_) => Action::Finish,
            Event::ConnectionArrived => if self.phase is Serving {
                Action::ServeConnection
            } else {
                Action::RefuseConnection
            },
            Event::ConnectionFinished => if self.phase is ShuttingDown && self.in_flight == 1 {
                Action::Finish
            } else {
                Action::KeepWaiting
            },
            Event::ShutdownSignal => if self.in_flight == 0 {
                Action::Finish
            } else {
                Action::StopAccepting
            },
            Event::TransportFailed(_) => Action::Finish,
        }
    }

    /// A fresh run: unbound, nothing in flight, no outcome yet.
    pub fn new() -> (r: Lifecycle)
        ensures
            r.wf(),
            r.phase is Unbound,
            r.in_flight == 0,
            r.outcome is None,
    {
        Lifecycle { phase: Phase::Unbound, in_flight: 0, outcome: None }
    }

    /// Feed one observed event to the controller; the state moves as
    /// `next` describes and the returned action is what `decide` says.
    pub fn step(&mut self, ev: Event) -> (act: Action)
        requires
            old(self).wf(),
            old(self).permits(ev),
        ensures
            *final(self) == old(self).next(ev),
            act == old(self).decide(ev),
            final(self).wf(),
    {
        match ev {
            Event::BindSucceeded => {
                self.phase = Phase::Bound;
                Action::BeginServing
            },
            Event::BindFailed(d) => {
                self.phase = Phase::Terminated;
                self.outcome = Some(Err(Error::CouldNotStart(d)));
                Action::Finish
            },
            Event::ConnectionArrived => {
                if self.phase == Phase::Serving {
                    self.in_flight = self.in_flight + 1;
                    Action::ServeConnection
                } else {
                    Action::RefuseConnection
                }
            },
            Event::ConnectionFinished => {
                if self.phase == Phase::ShuttingDown && self.in_flight == 1 {
                    self.phase = Phase::Terminated;
                    self.in_flight = 0;
                    self.outcome = Some(Ok(()));
                    Action::Finish
                } else {
                    self.in_flight = self.in_flight - 1;
                    Action::KeepWaiting
                }
            },
            Event::ShutdownSignal => {
                if self.in_flight == 0 {
                    self.phase = Phase::Terminated;
                    self.outcome = Some(Ok(()));
                    Action::Finish
                } else {
                    self.phase = Phase::ShuttingDown;
                    Action::StopAccepting
                }
            },
            Event::TransportFailed(d) => {
                self.phase = Phase::Terminated;
                self.in_flight = 0;
                self.outcome = Some(Err(Error::BadExit(d)));
                Action::Finish
            },
        }
    }

    /// Enter the serving phase. Not an answer to an event: it follows a
    /// successful bind immediately, as serving and shutdown-watching
    /// start together.
    pub fn enter_serving(&mut self)
        requires
            old(self).wf(),
            old(self).phase is Bound,
        ensures
            final(self).wf(),
            final(self).phase is Serving,
            final(self).in_flight == old(self).in_flight,
            final(self).outcome == old(self).outcome,
    {
        self.phase = Phase::Serving;
    }

    /// The state after a whole sequence of events, delivered first to
    /// last.
    pub open spec fn run(self, evs: Seq<Event>) -> Lifecycle
        decreases evs.len(),
    {
        if evs.len() == 0 {
            self
        } else {
            self.next(evs[0]).run(evs.drop_first())
        }
    }

    /// The sequence is deliverable: each event is permitted in the state
    /// it meets.
    pub open spec fn run_permitted(self, evs: Seq<Event>) -> bool
        decreases evs.len(),
    {
        evs.len() == 0 || (self.permits(evs[0]) && self.next(evs[0]).run_permitted(
            evs.drop_first(),
        ))
    }

    /// Every permitted transition preserves well-formedness.
    pub proof fn lemma_next_preserves_wf(self, ev: Event)
        requires
            self.wf(),
            self.permits(ev),
        ensures
            self.next(ev).wf(),
    {
    }

    /// Law: `Terminated` is absorbing. Once a run has terminated, no
    /// event whatever is permitted, so no transition leaves the state.
    pub proof fn lemma_terminated_absorbing(self, ev: Event)
        requires
            self.phase is Terminated,
        ensures
            !self.permits(ev),
    {
    }

    /// Law: exactly one outcome per run. Along any deliverable event
    /// sequence the machine stays well formed, and once an outcome is
    /// recorded the run never moves again — in particular the outcome is
    /// never overwritten by a second one.
    pub proof fn lemma_single_outcome(self, evs: Seq<Event>)
        requires
            self.wf(),
            self.run_permitted(evs),
        ensures
            self.run(evs).wf(),
            self.outcome is Some ==> self.run(evs) == self,
        decreases evs.len(),
    {
        if evs.len() > 0 {
            self.lemma_next_preserves_wf(evs[0]);
            self.next(evs[0]).lemma_single_outcome(evs.drop_first());
        }
    }

    /// Law: graceful drain. From the moment the shutdown signal is
    /// observed, letting every in-flight connection finish — and nothing
    /// else — is a deliverable sequence, and it ends the run terminated
    /// with the clean outcome, never a failure.
    pub proof fn lemma_graceful_drain(self, evs: Seq<Event>)
        requires
            self.wf(),
            self.phase is ShuttingDown,
            evs.len() == self.in_flight,
            forall|i: int| 0 <= i < evs.len() ==> evs[i] is ConnectionFinished,
        ensures
            self.run_permitted(evs),
            self.run(evs).phase is Terminated,
            self.run(evs).outcome == Some(Result::<(), Error>::Ok(())),
        decreases evs.len(),
    {
        assert(evs[0] is ConnectionFinished);
        let rest = evs.drop_first();
        assert forall|i: int| 0 <= i < rest.len() implies rest[i] is ConnectionFinished by {
            assert(rest[i] == evs[i + 1]);
        }
        let drained_one = self.next(evs[0]);
        assert(self.run(evs) == drained_one.run(rest));
        if self.in_flight == 1 {
            assert(drained_one.phase is Terminated);
            assert(rest.len() == 0);
            assert(drained_one.run(rest) == drained_one);
            assert(drained_one.run_permitted(rest));
        } else {
            drained_one.lemma_graceful_drain(rest);
        }
    }

    /// Law: a connection accepted immediately before the shutdown signal
    /// is still dispatched to the handler, and once it and the other
    /// in-flight connections finish, the run's outcome is the clean one.
    pub proof fn lemma_accepted_before_signal_still_served(self, evs: Seq<Event>)
        requires
            self.wf(),
            self.phase is Serving,
            self.in_flight < usize::MAX,
            evs.len() == self.in_flight + 1,
            forall|i: int| 0 <= i < evs.len() ==> evs[i] is ConnectionFinished,
        ensures
            self.decide(Event::ConnectionArrived) is ServeConnection,
            self.next(Event::ConnectionArrived).next(Event::ShutdownSignal).run(evs).outcome
                == Some(Result::<(), Error>::Ok(())),
    {
        let draining = self.next(Event::ConnectionArrived).next(Event::ShutdownSignal);
        draining.lemma_graceful_drain(evs);
    }

    /// Law: no new connections after the signal. While the run is
    /// shutting down, a connection attempt is refused, is never
    /// dispatched to the handler, and leaves the state untouched.
    pub proof fn lemma_no_service_after_signal(self)
        requires
            self.wf(),
            self.phase is ShuttingDown,
        ensures
            self.decide(Event::ConnectionArrived) is RefuseConnection,
            self.next(Event::ConnectionArrived) == self,
    {
    }

    /// Law: while the run is serving and the machine can still count it,
    /// every arriving connection is dispatched to the handler and joins
    /// the in-flight set; serving goes on.
    pub proof fn lemma_served_while_serving(self)
        requires
            self.wf(),
            self.phase is Serving,
            self.in_flight < usize::MAX,
        ensures
            self.decide(Event::ConnectionArrived) is ServeConnection,
            self.next(Event::ConnectionArrived).phase is Serving,
            self.next(Event::ConnectionArrived).in_flight == self.in_flight + 1,
    {
    }

    /// Law: the two answers to a bind attempt are distinguishable at the
    /// machine. A granted bind moves the run towards serving with no
    /// outcome yet; a refused bind terminates it at once with the
    /// start-failure outcome carrying the transport's detail. Which of
    /// two runs racing for one address gets which answer is the
    /// operating system's choice, not the machine's.
    pub proof fn lemma_bind_outcomes(self, d: String)
        requires
            self.wf(),
            self.phase is Unbound,
        ensures
            self.next(Event::BindSucceeded).phase is Bound,
            self.next(Event::BindSucceeded).outcome is None,
            self.next(Event::BindFailed(d)).phase is Terminated,
            self.next(Event::BindFailed(d)).outcome == Some(
                Result::<(), Error>::Err(Error::CouldNotStart(d)),
            ),
    {
    }

    /// Consume a terminated run and hand its one outcome to the caller.
    pub fn finish(self) -> (r: Result<(), Error>)
        requires
            self.wf(),
            self.phase is Terminated,
        ensures
            Some(r) == self.outcome,
    {
        self.outcome.unwrap()
    }
}

} // verus!
