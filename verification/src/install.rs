//! Installing a peer relay's credential into this relay's own peer slot.
//!
//! The requester must hold at least one of the two applicable controls
//! (registering a peer, rotating a credential) before anything is looked at.
//! The alias must name a registered relay principal, so no credential file
//! exists without one. What the slot holds then decides which control the
//! write needs: an empty slot needs the registering one, different content
//! the rotating one, and identical content either, so a retry after a lost
//! answer succeeds for the caller that wrote it.
use vstd::prelude::*;
use vstd::string::*;

use crate::errors::{error_view, one_detail, relay_error, text_detail, text_field, RelayError, RelayErrorView};
use crate::identity::PrincipalType;
use crate::identity_admin::{record_of, store_view};
use crate::principals::PrincipalStore;

verus! {

/// What the peer slot holds, compared with the credential being installed.
#[derive(Clone, Copy, Debug, PartialEq, Eq, Structural)]
pub enum SlotState {
    Absent,
    Identical,
    Different,
}

/// Refuses an install with an empty credential.
pub fn install_precheck(alias: &str, psk: &str) -> (checked: Result<(), RelayError>)
    ensures
        psk@.len() == 0 ==> checked is Err && checked->Err_0@ == error_view(
            "validation_invalid_params"@,
            "psk must not be empty for peer credential install"@,
            Some(seq![text_detail("alias"@, alias@)]),
        ),
        psk@.len() > 0 ==> checked is Ok,
{
    if psk.unicode_len() == 0 {
        return Err(
            relay_error(
                "validation_invalid_params",
                "psk must not be empty for peer credential install",
                one_detail(text_field("alias", alias)),
            ),
        );
    }
    Ok(())
}

/// The first authorization check of an install: a requester denied both controls is
/// refused with the registering control's denial; otherwise both verdicts are
/// kept for the slot-dependent check.
pub fn install_gate(new_denial: Option<RelayError>, change_denial: Option<RelayError>) -> (gated:
    Result<(Option<RelayError>, Option<RelayError>), RelayError>)
    ensures
        (new_denial is Some && change_denial is Some) ==> gated is Err && gated->Err_0@
            == new_denial.unwrap()@,
        !(new_denial is Some && change_denial is Some) ==> gated is Ok && gated->Ok_0.0
            == new_denial && gated->Ok_0.1 == change_denial,
{
    if new_denial.is_some() && change_denial.is_some() {
        match new_denial {
            Some(denial) => return Err(denial),
            None => {},
        }
    }
    Ok((new_denial, change_denial))
}

fn bytes_equal(a: &[u8], b: &[u8]) -> (equal: bool)
    ensures
        equal == (a@ == b@),
{
    if a.len() != b.len() {
        return false;
    }
    let mut i: usize = 0;
    while i < a.len()
        invariant
            i <= a@.len(),
            a@.len() == b@.len(),
            forall|j: int| 0 <= j < i ==> a@[j] == b@[j],
        decreases a@.len() - i,
    {
        if a[i] != b[i] {
            return false;
        }
        i = i + 1;
    }
    assert(a@ =~= b@);
    true
}

/// What the slot holds, compared with `psk`'s bytes.
pub open spec fn spec_slot_state(current: Option<Seq<u8>>, psk: Seq<u8>) -> SlotState {
    match current {
        None => SlotState::Absent,
        Some(bytes) => if bytes == psk {
            SlotState::Identical
        } else {
            SlotState::Different
        },
    }
}

/// Compares what the slot holds with the credential being installed.
pub fn classify_slot(current: &Option<Vec<u8>>, psk: &str) -> (slot: SlotState)
    ensures
        slot == spec_slot_state(
            match current {
                None => None,
                Some(b) => Some(b@),
            },
            psk.spec_bytes(),
        ),
{
    match current {
        None => SlotState::Absent,
        Some(bytes) => if bytes_equal(bytes.as_slice(), psk.as_bytes()) {
            SlotState::Identical
        } else {
            SlotState::Different
        },
    }
}

/// The principal id an alias names.
pub open spec fn relay_principal_of(alias: Seq<char>) -> Seq<char> {
    alias + "@RELAY"@
}

/// What an install decides once one control was granted, before anything is written:
/// the alias must name a registered relay principal in the store; the slot
/// (as reading it turned out) is compared with the credential; an empty slot
/// needs the registering control, different content the rotating one, and
/// identical content either. Returns what the slot holds.
pub fn install_after_gate(
    store: Result<PrincipalStore, RelayError>,
    alias: &str,
    slot_content: Result<Option<Vec<u8>>, RelayError>,
    psk: &str,
    new_denial: Option<RelayError>,
    change_denial: Option<RelayError>,
) -> (decided: Result<SlotState, RelayError>)
    ensures
        match store_view(store) {
            Err(e) => decided is Err && decided->Err_0@ == e,
            Ok(records) => {
                let referent = record_of(records, relay_principal_of(alias@));
                if !(referent is Some && referent.unwrap().principal_type == PrincipalType::Relay) {
                    decided is Err && decided->Err_0@ == error_view(
                        "validation_unknown_principal"@,
                        "no relay principal registered for alias; register it with new peer first"@,
                        Some(seq![text_detail("alias"@, alias@)]),
                    )
                } else {
                    match slot_content {
                        Err(e) => decided is Err && decided->Err_0@ == e@,
                        Ok(current) => {
                            let slot = spec_slot_state(
                                match current {
                                    None => None,
                                    Some(b) => Some(b@),
                                },
                                psk.spec_bytes(),
                            );
                            &&& slot == SlotState::Absent && new_denial is Some ==> decided is Err
                                && decided->Err_0@ == new_denial.unwrap()@
                            &&& slot == SlotState::Different && change_denial is Some
                                ==> decided is Err && decided->Err_0@ == change_denial.unwrap()@
                            &&& (slot == SlotState::Identical || (slot == SlotState::Absent
                                && new_denial is None) || (slot == SlotState::Different
                                && change_denial is None)) ==> decided == Ok::<
                                SlotState,
                                RelayError,
                            >(slot)
                        },
                    }
                }
            },
        },
{
    let store = match store {
        Err(e) => return Err(e),
        Ok(s) => s,
    };
    let mut principal = String::from_str(alias);
    principal.append("@RELAY");
    let is_relay = match crate::identity_admin::lookup_record(&store, principal.as_str()) {
        None => false,
        Some(record) => match record.principal_type {
            PrincipalType::Relay => true,
            _ => false,
        },
    };
    if !is_relay {
        return Err(
            relay_error(
                "validation_unknown_principal",
                "no relay principal registered for alias; register it with new peer first",
                one_detail(text_field("alias", alias)),
            ),
        );
    }
    let current = match slot_content {
        Err(e) => return Err(e),
        Ok(c) => c,
    };
    let slot = classify_slot(&current, psk);
    match slot {
        SlotState::Absent => match new_denial {
            Some(denial) => Err(denial),
            None => Ok(slot),
        },
        SlotState::Identical => Ok(slot),
        SlotState::Different => match change_denial {
            Some(denial) => Err(denial),
            None => Ok(slot),
        },
    }
}

/// A slot holding exactly the credential's bytes is identical; a slot whose
/// bytes differ from them in length or in any byte is different; an empty
/// slot is absent.
pub proof fn lemma_slot_identical_only_for_the_same_bytes(current: Option<Seq<u8>>, psk: Seq<u8>)
    ensures
        current is None ==> spec_slot_state(current, psk) == SlotState::Absent,
        current is Some ==> (spec_slot_state(current, psk) == SlotState::Identical <==> current.unwrap()
            =~= psk),
        current is Some && current.unwrap().len() != psk.len() ==> spec_slot_state(current, psk)
            == SlotState::Different,
        forall|i: int|
            current is Some && 0 <= i < current.unwrap().len() && i < psk.len()
                && #[trigger] current.unwrap()[i] != psk[i] ==> spec_slot_state(current, psk)
                == SlotState::Different,
{
}

} // verus!
