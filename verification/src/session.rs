//! The session: one long-lived state machine over the whole bridge.
//!
//! A session moves one way through three phases.  `Sequencing` powers
//! the target up; `Relaying` streams the fixed-size bitstream from the
//! host link to the configuration bus; `Dispatching` interprets host
//! bytes as line commands for the rest of the session.  No phase is
//! ever revisited.
//!
//! The session decides, the shell acts: every inbound [`Event`] yields
//! the [`Action`]s to perform, in order, before the next event is
//! handled.

use vstd::prelude::*;
use crate::device::{acts_of, Act, Action};
use crate::dispatch::{run_bytes, Dispatcher};
use crate::relay::{chunk_acts, Relay, MAX_CHUNK};
use crate::sequencer::{power_on_actions, power_on_acts};

verus! {

/// The three operating stages, in their one-directional order.
#[derive(Clone, Copy, Debug, PartialEq, Eq, Structural)]
pub enum Phase {
    /// Powering the target up; the host link is not consumed yet.
    Sequencing,
    /// Streaming the bitstream; the relay owns the host link.
    Relaying,
    /// Interpreting line commands; the dispatcher owns the host link.
    Dispatching,
}

/// Position of a phase in the one-directional order.
pub open spec fn phase_index(phase: Phase) -> int {
    match phase {
        Phase::Sequencing => 0,
        Phase::Relaying => 1,
        Phase::Dispatching => 2,
    }
}

/// Ghost-level form of an [`Event`].
pub enum Ev {
    /// The host link handed over a chunk of inbound bytes.
    Chunk(Seq<u8>),
    /// The host link reported it is not connected.
    LinkDown,
}

/// One occurrence at the host link, as the shell reports it.
pub enum Event {
    /// The host link handed over a chunk of inbound bytes.
    Chunk(Vec<u8>),
    /// The host link reported it is not connected.
    LinkDown,
}

impl View for Event {
    type V = Ev;

    open spec fn view(&self) -> Ev {
        match self {
            Event::Chunk(data) => Ev::Chunk(data@),
            Event::LinkDown => Ev::LinkDown,
        }
    }
}

/// Mathematical state of a session: phase, relay accounting, and the
/// dispatcher's line buffer.
pub struct SessionModel {
    pub phase: Phase,
    pub relayed: int,
    pub target: int,
    pub line: Seq<u8>,
}

/// How one event moves the session forward: the next state and the
/// actions to perform.
///
/// A link-down report suspends the session until reconnection and drops
/// any partial line, so accumulation resumes from an empty buffer.  A
/// chunk is consumed by whichever phase owns the link: the relay frames
/// and counts it, handing the session over to the dispatcher exactly
/// when the running total reaches the target; the dispatcher feeds it
/// byte by byte through the line buffer.
pub open spec fn step(s: SessionModel, ev: Ev) -> (SessionModel, Seq<Act>) {
    match ev {
        Ev::LinkDown => (
            SessionModel { line: Seq::empty(), ..s },
            seq![Act::AwaitConnection],
        ),
        Ev::Chunk(data) => match s.phase {
            Phase::Sequencing => (s, Seq::empty()),
            Phase::Relaying => if data.len() == 0 {
                (s, Seq::empty())
            } else {
                let counted = s.relayed + data.len();
                (
                    SessionModel {
                        phase: if counted >= s.target {
                            Phase::Dispatching
                        } else {
                            Phase::Relaying
                        },
                        relayed: counted,
                        ..s
                    },
                    chunk_acts(data),
                )
            },
            Phase::Dispatching => {
                let run = run_bytes(s.line, data);
                (SessionModel { line: run.0, ..s }, run.1)
            },
        },
    }
}

/// The bridge's protocol state machine.
pub struct Session {
    /// Current operating stage.
    pub phase: Phase,
    /// Relay accounting: bytes forwarded and the total to forward.
    pub relay: Relay,
    /// The command dispatcher and its line buffer.
    pub dispatcher: Dispatcher,
}

impl View for Session {
    type V = SessionModel;

    open spec fn view(&self) -> SessionModel {
        SessionModel {
            phase: self.phase,
            relayed: self.relay.relayed as int,
            target: self.relay.target as int,
            line: self.dispatcher@,
        }
    }
}

impl Session {
    /// The session invariant: the relay can still count a maximum-size
    /// chunk, the line buffer is bounded, the relaying phase is entered
    /// only with payload still owed, and no line accumulates before the
    /// dispatching phase.
    pub open spec fn wf(&self) -> bool {
        &&& self.relay.wf()
        &&& self.dispatcher.wf()
        &&& self.phase is Relaying ==> self.relay.relayed < self.relay.target
        &&& self.phase is Sequencing ==> self.relay.relayed == 0
        &&& !(self.phase is Dispatching) ==> self.dispatcher@ =~= Seq::<u8>::empty()
    }

    /// A fresh session that will relay a payload of `target` bytes.
    pub fn new(target: usize) -> (session: Session)
        requires
            target <= usize::MAX - MAX_CHUNK,
        ensures
            session@.phase is Sequencing,
            session@.relayed == 0,
            session@.target == target,
            session@.line =~= Seq::<u8>::empty(),
            session.wf(),
    {
        Session {
            phase: Phase::Sequencing,
            relay: Relay::new(target),
            dispatcher: Dispatcher::new(),
        }
    }

    /// Current operating stage.
    pub fn phase(&self) -> (phase: Phase)
        ensures
            phase == self@.phase,
    {
        self.phase
    }

    /// Begin the session: hand out the power-up sequence and move to
    /// the relaying phase — or straight to dispatching when no payload
    /// is owed.
    pub fn start(&mut self) -> (actions: Vec<Action>)
        requires
            old(self).wf(),
            old(self)@.phase is Sequencing,
        ensures
            acts_of(actions@) =~= power_on_acts(),
            final(self)@.relayed == old(self)@.relayed,
            final(self)@.target == old(self)@.target,
            final(self)@.line =~= Seq::<u8>::empty(),
            final(self)@.phase == (if old(self)@.target > 0 {
                Phase::Relaying
            } else {
                Phase::Dispatching
            }),
            final(self).wf(),
    {
        if self.relay.done() {
            self.phase = Phase::Dispatching;
        } else {
            self.phase = Phase::Relaying;
        }
        power_on_actions()
    }

    /// Consume one event and hand out the actions it gives rise to.
    ///
    /// The phase order is one-directional: the phase after the event is
    /// never an earlier one.
    pub fn on_event(&mut self, event: Event) -> (actions: Vec<Action>)
        requires
            old(self).wf(),
            !(old(self)@.phase is Sequencing),
            event matches Event::Chunk(data) ==> data@.len() <= MAX_CHUNK,
        ensures
            final(self)@ == step(old(self)@, event@).0,
            acts_of(actions@) =~= step(old(self)@, event@).1,
            final(self).wf(),
            phase_index(old(self)@.phase) <= phase_index(final(self)@.phase),
    {
        match event {
            Event::LinkDown => {
                self.dispatcher.reset();
                let mut actions: Vec<Action> = Vec::new();
                actions.push(Action::AwaitConnection);
                actions
            },
            Event::Chunk(data) => {
                match self.phase {
                    Phase::Sequencing => Vec::new(),
                    Phase::Relaying => {
                        let actions = self.relay.on_chunk(data);
                        if self.relay.done() {
                            self.phase = Phase::Dispatching;
                        }
                        actions
                    },
                    Phase::Dispatching => {
                        let ghost line0 = self.dispatcher@;
                        let ghost relay0 = self.relay;
                        let mut actions: Vec<Action> = Vec::new();
                        let mut i: usize = 0;
                        while i < data.len()
                            invariant
                                i <= data@.len(),
                                self.phase is Dispatching,
                                self.relay == relay0,
                                self.dispatcher.wf(),
                                self.dispatcher@ == run_bytes(line0, data@.take(i as int)).0,
                                acts_of(actions@) =~= run_bytes(line0, data@.take(i as int)).1,
                            decreases data@.len() - i,
                        {
                            let byte = data[i];
                            proof {
                                crate::dispatch::lemma_run_bytes_snoc(
                                    line0,
                                    data@.take(i as int),
                                    byte,
                                );
                                assert(data@.take(i as int).push(byte) =~= data@.take(
                                    i as int + 1,
                                ));
                            }
                            let mut step_actions = self.dispatcher.on_byte(byte);
                            proof {
                                crate::device::lemma_acts_of_concat(actions@, step_actions@);
                            }
                            actions.append(&mut step_actions);
                            i = i + 1;
                        }
                        proof {
                            assert(data@.take(data@.len() as int) =~= data@);
                        }
                        actions
                    },
                }
            },
        }
    }
}

} // verus!
