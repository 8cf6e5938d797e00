//! What holds of the registry whatever is asked of it.
use vstd::prelude::*;
use crate::address::{is_zero_hash, Address};
use crate::error::RegistryError;
use crate::record::{ApprovalAccount, DocumentAccount, Record};
use crate::state::{Call, RegistryState};

verus! {

/// A successful anchoring leaves every record sound.
pub proof fn lemma_anchor_keeps_consistent(state: RegistryState, authority: Address, doc_hash: [u8; 32], now: i64)
    requires
        state.consistent(),
        state.anchor_derivable(authority, doc_hash),
    ensures
        state.after_anchor(authority, doc_hash, now).consistent(),
{
}

/// A successful approval leaves every record sound.
pub proof fn lemma_approve_keeps_consistent(state: RegistryState, user: Address, doc_hash: [u8; 32], now: i64)
    requires
        state.consistent(),
        state.approve_derivable(user, doc_hash),
    ensures
        state.after_approve(user, doc_hash, now).consistent(),
{
}

/// Whatever is attempted, every record stays sound.
pub proof fn lemma_attempt_keeps_consistent(state: RegistryState, call: Call)
    requires
        state.consistent(),
    ensures
        state.after(call).consistent(),
{
    if state.derivable(call) {
        match call {
            Call::Anchor { authority, doc_hash, now } => {
                lemma_anchor_keeps_consistent(state, authority, doc_hash, now);
            },
            Call::Approve { user, doc_hash, now } => {
                lemma_approve_keeps_consistent(state, user, doc_hash, now);
            },
        }
    }
}

/// Every record is sound in every state that a sequence of attempts reaches from a state
/// in which every record is sound; from an empty registry, for one.
pub proof fn law_records_stay_sound(state: RegistryState, calls: Seq<Call>, count: nat)
    requires
        state.consistent(),
        count <= calls.len(),
    ensures
        state.after_first(calls, count).consistent(),
    decreases count,
{
    if count > 0 {
        law_records_stay_sound(state, calls, (count - 1) as nat);
        lemma_attempt_keeps_consistent(state.after_first(calls, (count - 1) as nat), calls[count - 1]);
    }
}

/// Where every record is sound, a hash has at most one document record: two slots that
/// hold document records of one hash are one slot.
pub proof fn law_one_document_per_hash(state: RegistryState, first: Seq<u8>, second: Seq<u8>)
    requires
        state.consistent(),
        state.slots.contains_key(first),
        state.slots.contains_key(second),
        state.slots[first].record is Document,
        state.slots[second].record is Document,
        state.slots[first].record->Document_0.doc_hash == state.slots[second].record->Document_0.doc_hash,
    ensures
        first == second,
{
}

/// Where every record is sound, a hash and a user have at most one approval record: two
/// slots that hold approvals of one hash by one user are one slot.
pub proof fn law_one_approval_per_user(state: RegistryState, first: Seq<u8>, second: Seq<u8>)
    requires
        state.consistent(),
        state.slots.contains_key(first),
        state.slots.contains_key(second),
        state.slots[first].record is Approval,
        state.slots[second].record is Approval,
        state.slots[first].record->Approval_0.doc_hash == state.slots[second].record->Approval_0.doc_hash,
        state.slots[first].record->Approval_0.user == state.slots[second].record->Approval_0.user,
    ensures
        first == second,
{
}

/// Where every record is sound, each document record holds a hash that is not all-zero
/// and names the administrator as the one who anchored it, and each approval record
/// approves a document that is anchored.
pub proof fn law_sound_records(state: RegistryState, address: Seq<u8>)
    requires
        state.consistent(),
        state.slots.contains_key(address),
    ensures
        match state.slots[address].record {
            Record::Document(document) => !is_zero_hash(document.doc_hash) && document.anchored_by == state.admin,
            Record::Approval(approval) => state.document(approval.doc_hash) is Some,
        },
{
}

/// No attempt removes or changes a record, or changes the configuration.
pub proof fn law_records_persist(state: RegistryState, call: Call)
    ensures
        state.kept_by(state.after(call)),
{
}

/// What is stored after some attempts is still stored, unchanged, after more of them.
pub proof fn lemma_kept_by_later(state: RegistryState, calls: Seq<Call>, early: nat, late: nat)
    requires
        early <= late <= calls.len(),
    ensures
        state.after_first(calls, early).kept_by(state.after_first(calls, late)),
    decreases late,
{
    if early < late {
        let first = state.after_first(calls, early);
        let previous = state.after_first(calls, (late - 1) as nat);
        lemma_kept_by_later(state, calls, early, (late - 1) as nat);
        law_records_persist(previous, calls[late - 1]);
        vstd::map_lib::lemma_submap_of_trans(first.slots, previous.slots, previous.after(calls[late - 1]).slots);
    }
}

/// The administrator's anchoring of a hash that is not all-zero, into a vacant slot,
/// succeeds and stores the document's record with that hash. After it, an anchoring of
/// the same hash fails whoever calls: for the administrator because the document is
/// anchored already, for anyone else because they are not the administrator.
pub proof fn law_anchor_once(state: RegistryState, doc_hash: [u8; 32], now: i64, caller: Address, later: i64)
    requires
        !is_zero_hash(doc_hash),
        state.doc_address(doc_hash) is Some,
        !state.slots.contains_key(state.doc_address(doc_hash).unwrap()),
    ensures
        state.attempt(Call::Anchor { authority: state.admin, doc_hash, now }) == Some(Ok::<(), RegistryError>(())),
        state.after(Call::Anchor { authority: state.admin, doc_hash, now }).document(doc_hash) == Some(
            DocumentAccount { doc_hash, anchored_by: state.admin, anchored_at: now },
        ),
        state.after(Call::Anchor { authority: state.admin, doc_hash, now }).attempt(
            Call::Anchor { authority: caller, doc_hash, now: later },
        ) == Some(
            Err::<(), RegistryError>(
                if caller == state.admin {
                    RegistryError::DuplicateAnchor
                } else {
                    RegistryError::NotAdmin
                },
            ),
        ),
{
}

/// An anchoring of the all-zero hash fails with `InvalidDocHash` whoever calls and
/// whatever is stored, and changes nothing.
pub proof fn law_zero_hash_refused(state: RegistryState, caller: Address, doc_hash: [u8; 32], now: i64)
    requires
        is_zero_hash(doc_hash),
    ensures
        state.attempt(Call::Anchor { authority: caller, doc_hash, now }) == Some(
            Err::<(), RegistryError>(RegistryError::InvalidDocHash),
        ),
        state.after(Call::Anchor { authority: caller, doc_hash, now }) == state,
{
}

/// An anchoring of a hash that is not all-zero by anyone but the administrator fails
/// with `NotAdmin`, whether or not the hash was seen before, and changes nothing.
pub proof fn law_only_admin_anchors(state: RegistryState, caller: Address, doc_hash: [u8; 32], now: i64)
    requires
        !is_zero_hash(doc_hash),
        caller != state.admin,
    ensures
        state.attempt(Call::Anchor { authority: caller, doc_hash, now }) == Some(
            Err::<(), RegistryError>(RegistryError::NotAdmin),
        ),
        state.after(Call::Anchor { authority: caller, doc_hash, now }) == state,
{
}

/// An approval of a hash that is not all-zero, while no document record is stored at the
/// address of the hash, fails with `DocNotAnchored` and changes nothing.
pub proof fn law_approve_needs_anchor(state: RegistryState, user: Address, doc_hash: [u8; 32], now: i64)
    requires
        !is_zero_hash(doc_hash),
        state.doc_address(doc_hash) is Some,
        state.document_found(doc_hash) is None,
    ensures
        state.attempt(Call::Approve { user, doc_hash, now }) == Some(
            Err::<(), RegistryError>(RegistryError::DocNotAnchored),
        ),
        state.after(Call::Approve { user, doc_hash, now }) == state,
{
}

/// A user's approval of an anchored document, into a vacant slot, succeeds and stores
/// the approval's record with that hash and that user, and leaves the document's record
/// as it was. After it, the same user's approval of the same document fails with
/// `AlreadyApproved`.
pub proof fn law_approve_once(state: RegistryState, user: Address, doc_hash: [u8; 32], now: i64, later: i64)
    requires
        !is_zero_hash(doc_hash),
        state.document(doc_hash) is Some,
        state.approval_address(doc_hash, user) is Some,
        !state.slots.contains_key(state.approval_address(doc_hash, user).unwrap()),
    ensures
        state.attempt(Call::Approve { user, doc_hash, now }) == Some(Ok::<(), RegistryError>(())),
        state.after(Call::Approve { user, doc_hash, now }).approval(doc_hash, user) == Some(
            ApprovalAccount { doc_hash, user, approved_at: now },
        ),
        state.after(Call::Approve { user, doc_hash, now }).document(doc_hash) == state.document(doc_hash),
        state.after(Call::Approve { user, doc_hash, now }).attempt(Call::Approve { user, doc_hash, now: later })
            == Some(Err::<(), RegistryError>(RegistryError::AlreadyApproved)),
{
}

/// One user's approval does not bear on another's: where the two approvals have slots
/// of their own, what the other user's approval of the same document gives is the same
/// before and after. So after a first user's approval, a second user's approval into a
/// vacant slot succeeds.
pub proof fn law_approvals_independent(
    state: RegistryState,
    user: Address,
    other: Address,
    doc_hash: [u8; 32],
    now: i64,
    later: i64,
)
    requires
        state.attempt(Call::Approve { user, doc_hash, now }) == Some(Ok::<(), RegistryError>(())),
        state.approval_address(doc_hash, other) is Some,
        state.approval_address(doc_hash, user) != state.approval_address(doc_hash, other),
    ensures
        state.after(Call::Approve { user, doc_hash, now }).attempt(
            Call::Approve { user: other, doc_hash, now: later },
        ) == state.attempt(Call::Approve { user: other, doc_hash, now: later }),
        !state.slots.contains_key(state.approval_address(doc_hash, other).unwrap()) ==> state.after(
            Call::Approve { user, doc_hash, now },
        ).attempt(Call::Approve { user: other, doc_hash, now: later }) == Some(Ok::<(), RegistryError>(())),
{
}

/// Neither operation is idempotent: of the attempts in a sequence that are for one key,
/// at most one succeeds. Once an anchoring of a hash has succeeded, every later
/// anchoring of that hash fails, with `DuplicateAnchor` for the administrator; once an
/// approval has succeeded, every later approval of that hash by that user fails with
/// `AlreadyApproved`.
pub proof fn law_one_success_per_key(state: RegistryState, calls: Seq<Call>, early: nat, late: nat)
    requires
        early < late < calls.len(),
        calls[early as int].same_key(calls[late as int]),
        state.after_first(calls, early).attempt(calls[early as int]) == Some(Ok::<(), RegistryError>(())),
    ensures
        match calls[late as int] {
            Call::Anchor { authority, .. } => state.after_first(calls, late).attempt(calls[late as int]) == Some(
                Err::<(), RegistryError>(
                    if authority == state.admin {
                        RegistryError::DuplicateAnchor
                    } else {
                        RegistryError::NotAdmin
                    },
                ),
            ),
            Call::Approve { .. } => state.after_first(calls, late).attempt(calls[late as int]) == Some(
                Err::<(), RegistryError>(RegistryError::AlreadyApproved),
            ),
        },
{
    let before = state.after_first(calls, early);
    let made = state.after_first(calls, early + 1);
    let then = state.after_first(calls, late);
    lemma_kept_by_later(state, calls, 0, early);
    lemma_kept_by_later(state, calls, early + 1, late);
    assert(made == before.after(calls[early as int]));
    match calls[early as int] {
        Call::Anchor { doc_hash, .. } => {
            let target = before.doc_address(doc_hash).unwrap();
            assert(made.slots.contains_key(target));
            assert(then.slots.contains_key(target));
        },
        Call::Approve { user, doc_hash, .. } => {
            let anchored = before.doc_address(doc_hash).unwrap();
            let target = before.approval_address(doc_hash, user).unwrap();
            assert(made.slots.contains_key(anchored));
            assert(then.slots.contains_key(anchored));
            assert(made.slots.contains_key(target));
            assert(then.slots.contains_key(target));
        },
    }
}

} // verus!
