//! Relay-side batch formation against a transport's maximum handover dimensions.
//!
//! A *window* is one handover's worth of work: what the target's transport is
//! currently holding, submitted before the relay waits, closed when the last of
//! it resolves. The bounds are envelope count and canonical payload bytes; only
//! the transport can count tokens, so the relay never budgets in them.
//!
//! A window is not a batch. A batch is the unit of authorization and is fixed
//! before any member of it is authorized; a window accumulates across batches
//! and bounds how much is handed over, never which members share a fate.
use vstd::prelude::*;
use vstd::string::*;

verus! {

/// The most a transport will hold in one handover.
#[derive(Clone, Copy, Debug, PartialEq, Eq)]
pub struct HandoverDimensions {
    pub envelopes_max: usize,
    pub canonical_bytes_max: u64,
}

/// How much of a target's pending work is currently handed over to its
/// transport.
///
/// `Copy` so a batch can be proposed against a scratch copy and the real window
/// advanced only once that batch is authorized: a refused proposal leaves the
/// window exactly as it found it.
#[derive(Clone, Copy, Debug)]
pub struct HandoverWindow {
    /// `None` for a transport that accepts no handover at all; treated as
    /// unbounded rather than closed.
    pub dimensions: Option<HandoverDimensions>,
    pub envelopes: usize,
    pub bytes: u64,
}

/// `x + y`, saturated at `u64::MAX`.
pub open spec fn saturating_sum(x: u64, y: u64) -> int {
    if x + y > u64::MAX {
        u64::MAX as int
    } else {
        x + y
    }
}

impl HandoverWindow {
    /// Whether a window with these counters could accept any further member.
    pub open spec fn spec_has_room(self) -> bool {
        match self.dimensions {
            None => true,
            Some(d) => self.envelopes < d.envelopes_max && self.bytes < d.canonical_bytes_max,
        }
    }

    /// Whether a candidate of `candidate_bytes` fits the room that remains.
    /// An empty window admits anything: admission has already rejected a member
    /// no window could hold, so this is a stall guard, not a tolerance.
    pub open spec fn spec_admits(self, candidate_bytes: u64) -> bool {
        match self.dimensions {
            None => true,
            Some(d) => {
                ||| self.envelopes == 0
                ||| (self.envelopes < d.envelopes_max && saturating_sum(self.bytes, candidate_bytes)
                    <= d.canonical_bytes_max)
            },
        }
    }

    /// Within one handover's worth of work, except for a lone member, which the
    /// empty-window floor may admit whatever its size.
    pub open spec fn within_bounds(self) -> bool {
        match self.dimensions {
            None => true,
            Some(d) => self.envelopes <= 1 || (self.envelopes <= d.envelopes_max
                && self.bytes <= d.canonical_bytes_max),
        }
    }

    /// An empty window for a transport reporting `dimensions` (`None` when it
    /// accepts no handover at all).
    pub fn for_transport(dimensions: Option<HandoverDimensions>) -> (window: Self)
        ensures
            window.dimensions == dimensions,
            window.envelopes == 0,
            window.bytes == 0,
    {
        HandoverWindow { dimensions, envelopes: 0, bytes: 0 }
    }

    /// Whether the window could accept any further member at all. Asked before
    /// a candidate is known, so a full window stops the worker receiving.
    pub fn has_room(&self) -> (room: bool)
        ensures
            room == self.spec_has_room(),
    {
        match self.dimensions {
            None => true,
            Some(dimensions) => self.envelopes < dimensions.envelopes_max && self.bytes
                < dimensions.canonical_bytes_max,
        }
    }

    /// Whether this specific candidate fits the room that remains. The byte sum
    /// saturates: a wrap would silently admit an unbounded batch.
    pub fn admits(&self, candidate_bytes: u64) -> (admitted: bool)
        ensures
            admitted == self.spec_admits(candidate_bytes),
    {
        match self.dimensions {
            None => true,
            Some(dimensions) => {
                if self.envelopes == 0 {
                    return true;
                }
                if self.envelopes >= dimensions.envelopes_max {
                    return false;
                }
                self.bytes.saturating_add(candidate_bytes) <= dimensions.canonical_bytes_max
            },
        }
    }

    /// Records an admitted member against the window's budget.
    pub fn record(&mut self, candidate_bytes: u64)
        requires
            old(self).envelopes < usize::MAX,
        ensures
            final(self).dimensions == old(self).dimensions,
            final(self).envelopes == old(self).envelopes + 1,
            final(self).bytes == saturating_sum(old(self).bytes, candidate_bytes),
    {
        self.envelopes = self.envelopes + 1;
        self.bytes = self.bytes.saturating_add(candidate_bytes);
    }

    /// Closes the window once nothing is in flight, so the next member is offered
    /// a full handover's worth of room again.
    pub fn close(&mut self)
        ensures
            final(self).dimensions == old(self).dimensions,
            final(self).envelopes == 0,
            final(self).bytes == 0,
    {
        self.envelopes = 0;
        self.bytes = 0;
    }
}

/// What forming a batch around the head member settled on.
#[derive(Debug)]
pub enum BatchFormation {
    /// The head did not fit the room a batch still in flight left: hold it,
    /// since letting a smaller member behind it pass would reorder the queue.
    NoRoom,
    /// The batch is the head alone, proposed against this copy of the window;
    /// the real window takes it only once the batch is authorized.
    Fixed(HandoverWindow),
}

/// Forms one batch around the head member of `head_bytes` canonical payload
/// bytes: the head alone, when the window admits it, recorded against a
/// proposed copy of the window (the real one is left as it is).
pub fn form_batch(window: &HandoverWindow, head_bytes: u64) -> (formed: BatchFormation)
    requires
        window.envelopes < usize::MAX,
    ensures
        !window.spec_admits(head_bytes) ==> formed is NoRoom,
        window.spec_admits(head_bytes) ==> (formed matches BatchFormation::Fixed(proposed)
            && proposed.dimensions == window.dimensions && proposed.envelopes == window.envelopes
            + 1 && proposed.bytes == saturating_sum(window.bytes, head_bytes)),
{
    if !window.admits(head_bytes) {
        return BatchFormation::NoRoom;
    }
    let mut proposed = *window;
    proposed.record(head_bytes);
    BatchFormation::Fixed(proposed)
}

/// What a formed batch comes to once its authorization is known.
#[derive(Debug)]
pub enum BatchSettlement {
    /// Submit every member; the window now holds the batch.
    Submit,
    /// Submit nothing: every member is refused with this code and reason, and
    /// the window is left as it was.
    Refuse { code: String, reason: String },
}

/// Settles a formed batch against the window: a batch with no admitted member
/// (relay-originated work such as a receipt) holds no queue entry and needs no
/// authorization; any other batch is submitted only when `authorized`. A
/// submitted batch advances the window to the proposal; a refused one leaves
/// it exactly as it was, since nothing of it is in flight.
pub fn settle_batch(
    window: &mut HandoverWindow,
    proposed: HandoverWindow,
    any_admitted: bool,
    authorized: bool,
) -> (settled: BatchSettlement)
    ensures
        (!any_admitted || authorized) ==> settled is Submit && *final(window) == proposed,
        any_admitted && !authorized ==> *final(window) == *old(window),
        any_admitted && !authorized ==> (settled matches BatchSettlement::Refuse { code, reason }
            && code@ == "delivery_batch_not_authorized"@ && reason@
            == "the relay could not authorize this batch, so no member of it was submitted"@),
{
    if any_admitted && !authorized {
        let code = String::from_str("delivery_batch_not_authorized");
        let reason = String::from_str(
            "the relay could not authorize this batch, so no member of it was submitted",
        );
        proof {
            reveal_strlit("delivery_batch_not_authorized");
            reveal_strlit("the relay could not authorize this batch, so no member of it was submitted");
        }
        return BatchSettlement::Refuse { code, reason };
    }
    *window = proposed;
    BatchSettlement::Submit
}

/// A window only ever holds one handover's worth: recording a member the window
/// admitted keeps it within its dimensions, save for a lone member the
/// empty-window floor let in.
pub proof fn lemma_admitted_record_stays_bounded(window: HandoverWindow, candidate_bytes: u64)
    requires
        window.within_bounds(),
        window.spec_admits(candidate_bytes),
        window.envelopes < usize::MAX,
    ensures
        (HandoverWindow {
            dimensions: window.dimensions,
            envelopes: (window.envelopes + 1) as usize,
            bytes: saturating_sum(window.bytes, candidate_bytes) as u64,
        }).within_bounds(),
{
}

/// Closing restores a whole handover's room: a closed window admits any
/// candidate, so a bound can delay a member but never stop a queue.
pub proof fn lemma_closed_window_admits_anything(window: HandoverWindow, candidate_bytes: u64)
    requires
        window.envelopes == 0,
    ensures
        window.spec_admits(candidate_bytes),
        window.within_bounds(),
{
}

/// A full window (no room and not empty) refuses a further member whenever its
/// envelope count is what filled it.
pub proof fn lemma_envelope_cap_refuses(window: HandoverWindow, candidate_bytes: u64)
    requires
        window.dimensions is Some,
        window.envelopes > 0,
        window.envelopes >= window.dimensions.unwrap().envelopes_max,
    ensures
        !window.spec_has_room(),
        !window.spec_admits(candidate_bytes),
{
}

} // verus!
