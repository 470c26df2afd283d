//! What holds of the registry over any series of requests.

use vstd::prelude::*;
use crate::address::Address;
use crate::document::DocumentInfo;
use crate::error::RegistryError;
use crate::state::{Call, RegistryState};

verus! {

/// A refused request changes nothing, and neither does a query: the
/// records, the owner index, the counter and the notification log are
/// what they were. An accepted registration or revocation leaves exactly
/// one notification more.
pub proof fn law_all_or_nothing(s: RegistryState, call: Call)
    ensures
        s.refusal(call) is Some ==> s.apply(call) == s,
        !(call is RegisterDocument || call is RevokeDocument) ==> s.apply(call) == s,
        (call is RegisterDocument || call is RevokeDocument) && s.refusal(call) is None
            ==> s.apply(call).events.len() == s.events.len() + 1,
        call is RevokeDocument ==> s.apply(call).total == s.total && s.apply(call).owned == s.owned,
{
}

/// What one request can and cannot do: it leads from a reachable state to a
/// reachable state, keeps every record with its owner and timestamp, never
/// clears a revocation flag, and only ever appends to the lists of the
/// owner index and to the notification log.
pub proof fn law_step(s: RegistryState, call: Call)
    requires
        s.inv(),
    ensures
        s.apply(call).inv(),
        forall|h: Seq<u8>| #[trigger]
            s.records.dom().contains(h) ==> {
                &&& s.apply(call).records.dom().contains(h)
                &&& s.apply(call).records[h].owner == s.records[h].owner
                &&& s.apply(call).records[h].timestamp == s.records[h].timestamp
                &&& s.records[h].is_revoked ==> s.apply(call).records[h].is_revoked
            },
        forall|o: Address|
            (#[trigger] s.documents_of(o)).is_prefix_of(s.apply(call).documents_of(o)),
        s.events.is_prefix_of(s.apply(call).events),
{
    match call {
        Call::RegisterDocument { document_hash, caller, timestamp } => {
            s.lemma_register_keeps_inv(document_hash, caller, timestamp);
        },
        Call::RevokeDocument { document_hash, caller } => {
            s.lemma_revoke_keeps_inv(document_hash, caller);
        },
        _ => {},
    }
}

/// Over any series of requests: the state stays reachable, a record once
/// created stays with its owner and timestamp, a revocation flag once set
/// stays set, and the lists of the owner index and the notification log
/// only grow at their ends.
pub proof fn law_history(s: RegistryState, calls: Seq<Call>)
    requires
        s.inv(),
    ensures
        s.run(calls).inv(),
        forall|h: Seq<u8>| #[trigger]
            s.records.dom().contains(h) ==> {
                &&& s.run(calls).records.dom().contains(h)
                &&& s.run(calls).records[h].owner == s.records[h].owner
                &&& s.run(calls).records[h].timestamp == s.records[h].timestamp
                &&& s.records[h].is_revoked ==> s.run(calls).records[h].is_revoked
            },
        forall|o: Address|
            (#[trigger] s.documents_of(o)).is_prefix_of(s.run(calls).documents_of(o)),
        s.events.is_prefix_of(s.run(calls).events),
    decreases calls.len(),
{
    if calls.len() > 0 {
        let before = s.run(calls.drop_last());
        law_history(s, calls.drop_last());
        law_step(before, calls.last());
        assert forall|o: Address| (#[trigger] s.documents_of(o)).is_prefix_of(
            s.run(calls).documents_of(o),
        ) by {
            assert(s.documents_of(o).is_prefix_of(before.documents_of(o)));
            assert(before.documents_of(o).is_prefix_of(s.run(calls).documents_of(o)));
        }
    }
}

/// Once a fingerprint was registered, every later registration of it is
/// refused as a duplicate, by whomever and whenever it is asked, and
/// changes nothing: the record keeps the owner and the timestamp of the
/// first registration.
pub proof fn law_duplicate_rejected(
    s: RegistryState,
    document_hash: Seq<u8>,
    first_caller: Address,
    first_time: u64,
    between: Seq<Call>,
    second_caller: Address,
    second_time: u64,
)
    requires
        s.inv(),
        s.register_outcome(document_hash, first_caller, first_time) is Ok,
    ensures
        ({
            let later = s.register(document_hash, first_caller, first_time).run(between);
            &&& later.register_outcome(document_hash, second_caller, second_time)
                == Err::<DocumentInfo, RegistryError>(RegistryError::DuplicateDocument)
            &&& later.register(document_hash, second_caller, second_time) == later
            &&& later.records.dom().contains(document_hash)
            &&& later.records[document_hash].owner == first_caller
            &&& later.records[document_hash].timestamp == first_time
        }),
{
    let registered = s.register(document_hash, first_caller, first_time);
    s.lemma_register_keeps_inv(document_hash, first_caller, first_time);
    assert(registered.records.dom().contains(document_hash));
    law_history(registered, between);
}

/// A registration of a byte string that is not 32 bytes long is refused
/// and changes nothing: no record is created and the counter stays. No
/// reachable state holds a record for such a byte string.
pub proof fn law_length_guard(s: RegistryState, document_hash: Seq<u8>, caller: Address, now: u64)
    requires
        s.inv(),
        document_hash.len() != 32,
    ensures
        s.register_outcome(document_hash, caller, now)
            == Err::<DocumentInfo, RegistryError>(RegistryError::InvalidHashLength),
        s.register(document_hash, caller, now) == s,
        !s.records.dom().contains(document_hash),
{
}

/// A revocation asked by anyone but the owner of the record is refused as
/// unauthorized and changes nothing: the flag of the record stays as it
/// was.
pub proof fn law_only_owner_revokes(s: RegistryState, document_hash: Seq<u8>, caller: Address)
    requires
        s.inv(),
        s.records.dom().contains(document_hash),
        s.records[document_hash].owner != caller,
    ensures
        s.revoke_outcome(document_hash, caller) == Err::<DocumentInfo, RegistryError>(
            RegistryError::Unauthorized,
        ),
        s.revoke(document_hash, caller) == s,
{
}

/// Once a revocation succeeded, the flag of the record is set, and after
/// any further requests it is still set and a second revocation by the
/// owner is refused as already done.
pub proof fn law_revocation_is_final(
    s: RegistryState,
    document_hash: Seq<u8>,
    caller: Address,
    between: Seq<Call>,
)
    requires
        s.inv(),
        s.revoke_outcome(document_hash, caller) is Ok,
    ensures
        s.revoke(document_hash, caller).records[document_hash].is_revoked,
        ({
            let later = s.revoke(document_hash, caller).run(between);
            &&& later.records.dom().contains(document_hash)
            &&& later.records[document_hash].is_revoked
            &&& later.revoke_outcome(document_hash, caller)
                == Err::<DocumentInfo, RegistryError>(RegistryError::AlreadyRevoked)
            &&& later.revoke(document_hash, caller) == later
        }),
{
    let revoked = s.revoke(document_hash, caller);
    s.lemma_revoke_keeps_inv(document_hash, caller);
    assert(revoked.records.dom().contains(document_hash));
    law_history(revoked, between);
}

/// Over any series of requests the counter grows by the number of distinct
/// fingerprints whose registration was accepted, whatever else was asked
/// and however many requests were refused; those fingerprints are exactly
/// the records that the series added.
pub proof fn law_counter_growth(s: RegistryState, calls: Seq<Call>)
    requires
        s.inv(),
    ensures
        s.registered_during(calls).finite(),
        s.registered_during(calls).disjoint(s.records.dom()),
        s.run(calls).records.dom() == s.records.dom().union(s.registered_during(calls)),
        s.run(calls).total == s.total + s.registered_during(calls).len(),
    decreases calls.len(),
{
    if calls.len() > 0 {
        let before = s.run(calls.drop_last());
        law_counter_growth(s, calls.drop_last());
        law_history(s, calls.drop_last());
        if before.accepts_registration(calls.last()) {
            let h = calls.last()->RegisterDocument_document_hash;
            assert(!before.records.dom().contains(h));
            assert(s.run(calls).records.dom() == before.records.dom().insert(h));
        } else {
            assert(s.run(calls).records.dom() == before.records.dom());
        }
    }
}

/// In a registry that started empty, the counter is exactly the number of
/// distinct fingerprints whose registration was accepted, and those are
/// exactly the fingerprints that have a record.
pub proof fn law_counter_correct(calls: Seq<Call>)
    ensures
        RegistryState::empty().run(calls).total == RegistryState::empty().registered_during(
            calls,
        ).len(),
        RegistryState::empty().run(calls).records.dom() == RegistryState::empty().registered_during(
            calls,
        ),
{
    RegistryState::lemma_empty_inv();
    law_counter_growth(RegistryState::empty(), calls);
}

} // verus!
