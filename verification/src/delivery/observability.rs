//! The mutation events of the choices queue, as in-process subscribers see
//! them. Publishing them is the host's.
use vstd::prelude::*;

verus! {

/// A mutation of the choices queue. `Resolved` covers operator decisions;
/// `Invalidated` covers system-driven removals (a respawn invalidates pending
/// records, a shutdown cancels them), told apart by `reason_code`.
#[derive(Clone, Debug)]
pub enum ChoicesQueueEvent {
    Enqueued { choice_request_id: String, message_id: String, target_session: String },
    Resolved { choice_request_id: String, target_session: String },
    Invalidated { choice_request_id: String, target_session: String, reason_code: String },
}

} // verus!
