//! The bitstream relay phase.
//!
//! A payload of known total length is streamed from the host link to the
//! configuration bus.  Each non-empty inbound chunk is forwarded as one
//! transfer framed by a chip-select assert/release pair, and its length
//! is added to the running total.  The phase is over exactly when the
//! running total reaches the target; deciding that is the session's job
//! (see [`crate::session`]), the relay only accounts and frames.

use vstd::prelude::*;
use crate::device::{acts_of, Act, Action};

verus! {

/// Largest chunk the host link can hand over at once: its maximum
/// packet size.
pub const MAX_CHUNK: usize = 64;

/// Progress accounting for the relay phase.
pub struct Relay {
    /// Bytes forwarded to the configuration bus so far.
    pub relayed: usize,
    /// Total payload length to forward before the phase ends.
    pub target: usize,
}

/// The framed transfer for one non-empty chunk: assert chip-select,
/// write the chunk as a single transfer, release chip-select.
pub open spec fn chunk_acts(chunk: Seq<u8>) -> Seq<Act> {
    seq![Act::SetChipSelect(false), Act::WriteConfig(chunk), Act::SetChipSelect(true)]
}

impl Relay {
    /// The running total can always absorb one more maximum-size chunk
    /// without overflowing.
    pub open spec fn wf(&self) -> bool {
        self.target <= usize::MAX - MAX_CHUNK
    }

    /// The whole payload has been forwarded.
    pub open spec fn spec_done(&self) -> bool {
        self.relayed >= self.target
    }

    /// Fresh accounting for a payload of `target` bytes.
    pub fn new(target: usize) -> (relay: Relay)
        requires
            target <= usize::MAX - MAX_CHUNK,
        ensures
            relay.relayed == 0,
            relay.target == target,
            relay.wf(),
    {
        Relay { relayed: 0, target }
    }

    /// Whether the whole payload has been forwarded.
    pub fn done(&self) -> (done: bool)
        ensures
            done == self.spec_done(),
    {
        self.relayed >= self.target
    }

    /// Account for one inbound chunk and produce its framed transfer.
    ///
    /// An empty chunk is no data: nothing is written and nothing is
    /// counted.  A non-empty chunk is forwarded verbatim inside exactly
    /// one chip-select assert/release pair.
    pub fn on_chunk(&mut self, chunk: Vec<u8>) -> (actions: Vec<Action>)
        requires
            old(self).wf(),
            !old(self).spec_done(),
            chunk.len() <= MAX_CHUNK,
        ensures
            final(self).target == old(self).target,
            final(self).wf(),
            chunk@.len() == 0 ==> final(self).relayed == old(self).relayed && actions@.len() == 0,
            chunk@.len() > 0 ==> final(self).relayed == old(self).relayed + chunk@.len()
                && acts_of(actions@) =~= chunk_acts(chunk@),
    {
        let mut actions: Vec<Action> = Vec::new();
        if chunk.len() > 0 {
            let len = chunk.len();
            actions.push(Action::SetChipSelect(false));
            actions.push(Action::WriteConfig(chunk));
            actions.push(Action::SetChipSelect(true));
            self.relayed = self.relayed + len;
        }
        actions
    }
}

} // verus!
