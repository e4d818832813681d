//! Decides whether a frame has to be sent again.

use crate::dmx_data::DMXData;
use vstd::prelude::*;

verus! {

/// Unchanged data is sent again once more than this many milliseconds have
/// passed since it was last sent.
pub const KEEPALIVE_MILLIS: u64 = 800;

/// What a `Suppressor` remembers.
#[verifier::ext_equal]
pub struct SuppressorState {
    /// The channel values of the frame that was accepted last.
    pub previous: Seq<u8>,
    /// When a frame was last sent, in milliseconds; `None` until the first one.
    pub last_packed: Option<u64>,
}

/// The state of a suppressor that has seen `initial` and sent nothing yet.
pub open spec fn fresh(initial: Seq<u8>) -> SuppressorState {
    SuppressorState { previous: initial, last_packed: None }
}

/// Whether the keepalive interval has run out at `now`.
///
/// It has for a suppressor that never sent anything.
pub open spec fn keepalive_due(last_packed: Option<u64>, now: u64) -> bool {
    match last_packed {
        None => true,
        Some(last) => now > last + KEEPALIVE_MILLIS,
    }
}

/// Whether `new` has to be sent at `now`: it differs from the frame before
/// it, or the keepalive interval has run out.
pub open spec fn must_pack(state: SuppressorState, new: Seq<u8>, now: u64) -> bool {
    new != state.previous || keepalive_due(state.last_packed, now)
}

/// The state after the decision on `new` at `now`: a frame that is sent
/// becomes the previous one, sent at `now`; a suppressed one changes nothing.
pub open spec fn after_decision(state: SuppressorState, new: Seq<u8>, now: u64) -> SuppressorState {
    if must_pack(state, new, now) {
        SuppressorState { previous: new, last_packed: Some(now) }
    } else {
        state
    }
}

/// Holds the frame that was last accepted for one universe and the time at
/// which a packet was last made for it.
pub struct Suppressor {
    previous: DMXData,
    last_packed: Option<u64>,
}

impl View for Suppressor {
    type V = SuppressorState;

    closed spec fn view(&self) -> SuppressorState {
        SuppressorState { previous: self.previous@, last_packed: self.last_packed }
    }
}

impl Suppressor {
    /// A suppressor that has sent nothing yet, so that its first decision is
    /// to send, whatever the time.
    pub fn new(dmx: &DMXData) -> (suppressor: Suppressor)
        ensures
            suppressor@ == fresh(dmx@),
    {
        Suppressor { previous: dmx.clone(), last_packed: None }
    }

    /// Decides whether `new` has to be sent at `now`, a time in milliseconds
    /// on a clock that never runs backwards, and remembers the decision.
    pub fn should_pack(&mut self, new: &DMXData, now: u64) -> (pack: bool)
        ensures
            pack == must_pack(old(self)@, new@, now),
            final(self)@ == after_decision(old(self)@, new@, now),
    {
        if *new != self.previous {
            self.previous = new.clone();
            self.last_packed = Some(now);
            true
        } else {
            let due = match self.last_packed {
                None => true,
                Some(last) => now > last && now - last > KEEPALIVE_MILLIS,
            };
            if due {
                self.last_packed = Some(now);
            }
            due
        }
    }
}

/// The first decision of a suppressor is to send, whatever the frame and
/// whatever the time.
pub proof fn lemma_first_decision_packs(initial: Seq<u8>, new: Seq<u8>, now: u64)
    ensures
        must_pack(fresh(initial), new, now),
        after_decision(fresh(initial), new, now) == (SuppressorState {
            previous: new,
            last_packed: Some(now),
        }),
{
}

/// A frame that differs from the one before it is sent at once, however
/// little time has passed.
pub proof fn lemma_change_packs(state: SuppressorState, new: Seq<u8>, now: u64)
    requires
        new != state.previous,
    ensures
        must_pack(state, new, now),
{
}

/// Once a frame was sent at `now`, the same frame is held back up to and
/// including `now + KEEPALIVE_MILLIS` and sent again at any later time.
pub proof fn lemma_keepalive(state: SuppressorState, data: Seq<u8>, now: u64, later: u64)
    requires
        must_pack(state, data, now),
    ensures
        must_pack(after_decision(state, data, now), data, later) <==> later > now
            + KEEPALIVE_MILLIS,
{
}

/// A frame that is held back leaves the state as it was.
pub proof fn lemma_suppressed_changes_nothing(state: SuppressorState, data: Seq<u8>, now: u64)
    requires
        !must_pack(state, data, now),
    ensures
        after_decision(state, data, now) == state,
        data == state.previous,
{
}

} // verus!
