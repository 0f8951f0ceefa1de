//! What holds of the registry over single operations and over whole runs of
//! submissions.
//!
//! Every statement here is about [`Registry`], the state machine that the
//! pallet's contracts refer to, and so holds of the pallet.

use vstd::prelude::*;

use crate::identifier::is_account_identifier;
use crate::model::{Call, Registry, Submission, Transition};
use crate::trail::{recorded_entry, trail_of, valid_trail, TRAIL_CAPACITY};
use crate::types::{
    AccountId, BlockNumber, Error, EventView, VerifiableCredentialLog,
    VerifiableCredentialMetadataPayloadView, VerifiableCredentialStatus,
};

verus! {

// What a call is about

/// The call creates a DID document under `did_uri`.
pub open spec fn creates_did(call: Call, did_uri: Seq<u8>) -> bool {
    call matches Call::CreateDid { did_uri: named, .. } && named == did_uri
}

/// The call updates the DID document under `did_uri`.
pub open spec fn updates_did(call: Call, did_uri: Seq<u8>) -> bool {
    call matches Call::UpdateDidDocument { did_uri: named, .. } && named == did_uri
}

/// The call revokes the DID document under `did_uri`.
pub open spec fn revokes_did(call: Call, did_uri: Seq<u8>) -> bool {
    call matches Call::RevokeDidDocument { did_uri: named } && named == did_uri
}

/// The call creates a credential record under `fingerprint`.
pub open spec fn creates_credential(call: Call, fingerprint: Seq<u8>) -> bool {
    call matches Call::CreateVerifiableCredential { vc_finger_print: named, .. } && named
        == fingerprint
}

/// The call updates the credential record under `fingerprint`.
pub open spec fn updates_credential(call: Call, fingerprint: Seq<u8>) -> bool {
    call matches Call::UpdateVerifiableCredential { vc_finger_print: named, .. } && named
        == fingerprint
}

/// The call revokes the credential record under `fingerprint`.
pub open spec fn revokes_credential(call: Call, fingerprint: Seq<u8>) -> bool {
    call matches Call::RevokeVerifiableCredential { vc_finger_print: named } && named
        == fingerprint
}

/// The call traces the credential under `fingerprint`.
pub open spec fn traces_credential(call: Call, fingerprint: Seq<u8>) -> bool {
    call matches Call::TraceCredential { vc_finger_print: named, .. } && named == fingerprint
}

/// The key that a call names: a DID URI or a fingerprint.
pub open spec fn named_key(call: Call) -> Seq<u8> {
    match call {
        Call::CreateDid { did_uri, .. } => did_uri,
        Call::UpdateDidDocument { did_uri, .. } => did_uri,
        Call::RevokeDidDocument { did_uri } => did_uri,
        Call::CreateVerifiableCredential { vc_finger_print, .. } => vc_finger_print,
        Call::UpdateVerifiableCredential { vc_finger_print, .. } => vc_finger_print,
        Call::RevokeVerifiableCredential { vc_finger_print } => vc_finger_print,
        Call::TraceCredential { vc_finger_print, .. } => vc_finger_print,
    }
}

// What a run holds and what it adds

/// No submission revokes the DID document under `did_uri`.
pub open spec fn no_did_revoked(submissions: Seq<Submission>, did_uri: Seq<u8>) -> bool {
    forall|i: int|
        #![trigger submissions[i]]
        0 <= i < submissions.len() ==> !revokes_did(submissions[i].call, did_uri)
}

/// No submission revokes the credential record under `fingerprint`.
pub open spec fn no_credential_revoked(
    submissions: Seq<Submission>,
    fingerprint: Seq<u8>,
) -> bool {
    forall|i: int|
        #![trigger submissions[i]]
        0 <= i < submissions.len() ==> !revokes_credential(submissions[i].call, fingerprint)
}

/// No submission updates or revokes the credential record under
/// `fingerprint`.
pub open spec fn credential_left_alone(
    submissions: Seq<Submission>,
    fingerprint: Seq<u8>,
) -> bool {
    forall|i: int|
        #![trigger submissions[i]]
        0 <= i < submissions.len() ==> !updates_credential(submissions[i].call, fingerprint)
            && !revokes_credential(submissions[i].call, fingerprint)
}

/// The blocks of the submissions never fall: the first is not before
/// `now`, and none is before the one it follows.
pub open spec fn rising(now: BlockNumber, submissions: Seq<Submission>) -> bool {
    &&& forall|i: int|
        #![trigger submissions[i]]
        0 <= i < submissions.len() ==> now <= submissions[i].block_number
    &&& forall|i: int, j: int|
        #![trigger submissions[i], submissions[j]]
        0 <= i <= j < submissions.len() ==> submissions[i].block_number
            <= submissions[j].block_number
}

/// The entries that one submission adds to the trail of `fingerprint`: one
/// if it is a trace of that credential and succeeds, none otherwise.
pub open spec fn appended(
    registry: Registry,
    submission: Submission,
    fingerprint: Seq<u8>,
) -> Seq<VerifiableCredentialLog> {
    match submission.call {
        Call::TraceCredential { account_id, vc_finger_print, status } => {
            if vc_finger_print == fingerprint && registry.submit(submission).outcome is Ok {
                seq![
                    recorded_entry(
                        trail_of(registry.trails, fingerprint),
                        account_id,
                        status,
                        submission.block_number,
                    ),
                ]
            } else {
                Seq::empty()
            }
        },
        _ => Seq::empty(),
    }
}

/// The entries that a run adds to the trail of `fingerprint`, in the order of
/// the submissions.
pub open spec fn appended_by_run(
    registry: Registry,
    submissions: Seq<Submission>,
    fingerprint: Seq<u8>,
) -> Seq<VerifiableCredentialLog>
    decreases submissions.len(),
{
    if submissions.len() == 0 {
        Seq::empty()
    } else {
        appended_by_run(registry, submissions.drop_last(), fingerprint) + appended(
            registry.run(submissions.drop_last()),
            submissions.last(),
            fingerprint,
        )
    }
}

/// The number of submissions in a run that trace `fingerprint` and succeed.
pub open spec fn successful_traces(
    registry: Registry,
    submissions: Seq<Submission>,
    fingerprint: Seq<u8>,
) -> nat
    decreases submissions.len(),
{
    if submissions.len() == 0 {
        0
    } else {
        let earlier = successful_traces(registry, submissions.drop_last(), fingerprint);
        if traces_credential(submissions.last().call, fingerprint) && registry.run(
            submissions.drop_last(),
        ).submit(submissions.last()).outcome is Ok {
            earlier + 1
        } else {
            earlier
        }
    }
}

/// Running two sequences one after the other is running their
/// concatenation.
pub proof fn lemma_run_concat(
    registry: Registry,
    first: Seq<Submission>,
    second: Seq<Submission>,
)
    ensures
        registry.run(first + second) == registry.run(first).run(second),
    decreases second.len(),
{
    if second.len() == 0 {
        assert(first + second =~= first);
    } else {
        lemma_run_concat(registry, first, second.drop_last());
        assert((first + second).drop_last() =~= first + second.drop_last());
        assert((first + second).last() == second.last());
    }
}

// What every submission keeps

/// A refused submission changes nothing: whatever is submitted, if it ends
/// in an error then no record and no trail differs from before.
pub proof fn law_refusal_changes_nothing(registry: Registry, submission: Submission)
    requires
        registry.submit(submission).outcome is Err,
    ensures
        registry.submit(submission).registry == registry.at_block(submission.block_number),
{
}

/// Keys are independent: whatever is submitted, what is stored under any key
/// but the one the call names stays as it was, in all three maps.
pub proof fn law_other_keys_are_untouched(
    registry: Registry,
    submission: Submission,
    other: Seq<u8>,
)
    requires
        other != named_key(submission.call),
    ensures
        registry.submit(submission).registry.did_documents.contains_key(other)
            == registry.did_documents.contains_key(other),
        registry.did_documents.contains_key(other) ==> registry.submit(
            submission,
        ).registry.did_documents[other] == registry.did_documents[other],
        registry.submit(submission).registry.credentials.contains_key(other)
            == registry.credentials.contains_key(other),
        registry.credentials.contains_key(other) ==> registry.submit(
            submission,
        ).registry.credentials[other] == registry.credentials[other],
        registry.submit(submission).registry.trails.contains_key(other)
            == registry.trails.contains_key(other),
        registry.trails.contains_key(other) ==> registry.submit(submission).registry.trails[other]
            == registry.trails[other],
{
}

/// The registry with nothing stored is valid, and no submission makes a valid
/// registry invalid: every stored trail has an entry, is within the
/// capacity, and begins with `Created`.
pub proof fn law_validity_is_kept(registry: Registry, submission: Submission)
    requires
        registry.valid(),
    ensures
        Registry::empty().valid(),
        registry.submit(submission).registry.valid(),
{
    let after = registry.submit(submission).registry;
    assert forall|fingerprint: Seq<u8>| #[trigger]
        after.trails.contains_key(fingerprint) implies after.trails[fingerprint].len() > 0
        && valid_trail(after.trails[fingerprint]) by {
        if registry.trails.contains_key(fingerprint) {
            assert(registry.trails[fingerprint].len() > 0);
        }
    }
}

/// No run of submissions makes a valid registry invalid.
pub proof fn law_validity_is_kept_by_runs(registry: Registry, submissions: Seq<Submission>)
    requires
        registry.valid(),
    ensures
        registry.run(submissions).valid(),
    decreases submissions.len(),
{
    if submissions.len() > 0 {
        law_validity_is_kept_by_runs(registry, submissions.drop_last());
        law_validity_is_kept(registry.run(submissions.drop_last()), submissions.last());
    }
}

// Order in time

/// The block at which an entry was appended, or -1 if it carries none.
pub open spec fn block_of(entry: VerifiableCredentialLog) -> int {
    match entry.block_number {
        Some(block_number) => block_number as int,
        None => -1,
    }
}

/// Every entry carries a block, none later than `now`, and no entry carries
/// an earlier block than an entry before it.
pub open spec fn chronological(entries: Seq<VerifiableCredentialLog>, now: BlockNumber) -> bool {
    &&& forall|i: int| 0 <= i < entries.len() ==> 0 <= #[trigger] block_of(entries[i]) <= now
    &&& forall|i: int, j: int|
        0 <= i <= j < entries.len() ==> #[trigger] block_of(entries[i]) <= #[trigger] block_of(
            entries[j],
        )
}

/// Nothing in the registry is stamped with a block that the host has not
/// reached, no record was updated before it was created, and every trail is
/// chronological.
pub open spec fn in_order(registry: Registry) -> bool {
    &&& forall|did_uri: Seq<u8>| #[trigger]
        registry.did_documents.contains_key(did_uri) ==> registry.did_documents[did_uri].block_number
            <= registry.did_documents[did_uri].updated_block_number <= registry.block_number
    &&& forall|fingerprint: Seq<u8>| #[trigger]
        registry.credentials.contains_key(fingerprint)
            ==> registry.credentials[fingerprint].block_number
            <= registry.credentials[fingerprint].updated_block_number <= registry.block_number
    &&& forall|fingerprint: Seq<u8>| #[trigger]
        registry.trails.contains_key(fingerprint) ==> chronological(
            registry.trails[fingerprint],
            registry.block_number,
        )
}

/// Order in time is kept by every submission that is not made at an earlier
/// block than the host had reached: the registry with nothing stored is in
/// order, and a registry in order is in order afterwards.
pub proof fn law_order_in_time_is_kept(registry: Registry, submission: Submission)
    requires
        in_order(registry),
        registry.block_number <= submission.block_number,
    ensures
        in_order(Registry::empty()),
        in_order(registry.submit(submission).registry),
        registry.submit(submission).registry.block_number == submission.block_number,
{
    let after = registry.submit(submission).registry;
    assert forall|fingerprint: Seq<u8>| #[trigger]
        after.trails.contains_key(fingerprint) implies chronological(
        after.trails[fingerprint],
        after.block_number,
    ) by {
        let entries = after.trails[fingerprint];
        if registry.trails.contains_key(fingerprint) {
            let before = registry.trails[fingerprint];
            assert(chronological(before, registry.block_number));
            if entries != before {
                assert(entries == before.push(entries.last()));
                assert forall|i: int| 0 <= i < entries.len() implies 0 <= #[trigger] block_of(
                    entries[i],
                ) <= after.block_number by {
                    if i < before.len() {
                        assert(entries[i] == before[i]);
                        assert(0 <= block_of(before[i]) <= registry.block_number);
                    }
                }
                assert forall|i: int, j: int| 0 <= i <= j < entries.len() implies #[trigger] block_of(
                    entries[i],
                ) <= #[trigger] block_of(entries[j]) by {
                    if i < before.len() {
                        assert(entries[i] == before[i]);
                        assert(0 <= block_of(before[i]) <= registry.block_number);
                    }
                    if j < before.len() {
                        assert(entries[j] == before[j]);
                        assert(block_of(before[i]) <= block_of(before[j]));
                    }
                }
            } else {
                assert forall|i: int| 0 <= i < entries.len() implies 0 <= #[trigger] block_of(
                    entries[i],
                ) <= after.block_number by {
                    assert(0 <= block_of(before[i]) <= registry.block_number);
                }
            }
        }
    }
}

/// Order in time is kept by every run whose blocks never fall.
pub proof fn law_order_in_time_is_kept_by_runs(registry: Registry, submissions: Seq<Submission>)
    requires
        in_order(registry),
        rising(registry.block_number, submissions),
    ensures
        in_order(registry.run(submissions)),
        submissions.len() > 0 ==> registry.run(submissions).block_number
            == submissions.last().block_number,
    decreases submissions.len(),
{
    if submissions.len() > 0 {
        let earlier = submissions.drop_last();
        assert(rising(registry.block_number, earlier)) by {
            assert forall|i: int| 0 <= i < earlier.len() implies registry.block_number <= (
            #[trigger] earlier[i]).block_number by {
                assert(earlier[i] == submissions[i]);
            }
            assert forall|i: int, j: int| 0 <= i <= j < earlier.len() implies (
            #[trigger] earlier[i]).block_number <= (#[trigger] earlier[j]).block_number by {
                assert(earlier[i] == submissions[i]);
                assert(earlier[j] == submissions[j]);
            }
        }
        law_order_in_time_is_kept_by_runs(registry, earlier);
        let last = submissions[submissions.len() - 1];
        if earlier.len() > 0 {
            let before_last = submissions[submissions.len() - 2];
            assert(earlier.last() == before_last);
            assert(before_last.block_number <= last.block_number);
        }
        law_order_in_time_is_kept(registry.run(earlier), last);
    }
}

// DID documents

/// A stored DID document stays stored, with the block of its creation
/// unchanged, through every run in which it is not revoked, whatever is
/// updated meanwhile.
pub proof fn law_did_creation_stamp_is_kept(
    registry: Registry,
    submissions: Seq<Submission>,
    did_uri: Seq<u8>,
)
    requires
        registry.did_documents.contains_key(did_uri),
        no_did_revoked(submissions, did_uri),
    ensures
        registry.run(submissions).did_documents.contains_key(did_uri),
        registry.run(submissions).did_documents[did_uri].block_number
            == registry.did_documents[did_uri].block_number,
    decreases submissions.len(),
{
    if submissions.len() > 0 {
        let earlier = submissions.drop_last();
        assert forall|i: int| 0 <= i < earlier.len() implies !revokes_did(
            (#[trigger] earlier[i]).call,
            did_uri,
        ) by {
            assert(earlier[i] == submissions[i]);
        }
        law_did_creation_stamp_is_kept(registry, earlier, did_uri);
        assert(!revokes_did(submissions[submissions.len() - 1].call, did_uri));
    }
}

/// Uniqueness of DID documents: once a document has been created under a
/// URI, creating one under the same URI is refused with `DIDExists`, and
/// changes nothing, for as long as the document has not been revoked.
pub proof fn law_did_is_unique(
    registry: Registry,
    create: Submission,
    later: Seq<Submission>,
    again: Submission,
    did_uri: Seq<u8>,
)
    requires
        creates_did(create.call, did_uri),
        registry.submit(create).outcome is Ok,
        no_did_revoked(later, did_uri),
        creates_did(again.call, did_uri),
    ensures
        registry.submit(create).registry.run(later).submit(again).outcome == Err::<
            EventView,
            Error,
        >(Error::DIDExists),
        registry.submit(create).registry.run(later).submit(again).registry == registry.submit(
            create,
        ).registry.run(later).at_block(again.block_number),
{
    law_did_creation_stamp_is_kept(registry.submit(create).registry, later, did_uri);
}

/// Once a DID document has been revoked, one can be created under its URI
/// again.
pub proof fn law_did_is_free_after_revocation(
    registry: Registry,
    revoke: Submission,
    create: Submission,
    did_uri: Seq<u8>,
)
    requires
        revokes_did(revoke.call, did_uri),
        registry.submit(revoke).outcome is Ok,
        creates_did(create.call, did_uri),
    ensures
        registry.submit(revoke).registry.submit(create).outcome is Ok,
{
}

/// The stamps of a DID document: through any number of updates, and whatever
/// else is submitted, the block of its creation stays the block at which it
/// was created; and after an update the block of its update is the block at
/// which that update was made.
pub proof fn law_did_stamps(
    registry: Registry,
    create: Submission,
    later: Seq<Submission>,
    did_uri: Seq<u8>,
)
    requires
        creates_did(create.call, did_uri),
        registry.submit(create).outcome is Ok,
        no_did_revoked(later, did_uri),
    ensures
        registry.submit(create).registry.run(later).did_documents.contains_key(did_uri),
        registry.submit(create).registry.run(later).did_documents[did_uri].block_number
            == create.block_number,
        later.len() == 0 ==> registry.submit(create).registry.run(
            later,
        ).did_documents[did_uri].updated_block_number == create.block_number,
        later.len() > 0 && updates_did(later.last().call, did_uri) ==> registry.submit(
            create,
        ).registry.run(later).did_documents[did_uri].updated_block_number
            == later.last().block_number,
{
    let created = registry.submit(create).registry;
    law_did_creation_stamp_is_kept(created, later, did_uri);
    if later.len() > 0 {
        let earlier = later.drop_last();
        assert forall|i: int| 0 <= i < earlier.len() implies !revokes_did(
            (#[trigger] earlier[i]).call,
            did_uri,
        ) by {
            assert(earlier[i] == later[i]);
        }
        law_did_creation_stamp_is_kept(created, earlier, did_uri);
    }
}

// Credential records

/// A stored credential record stays stored, with the block of its creation
/// unchanged, through every run in which it is not revoked, whatever is
/// updated meanwhile.
pub proof fn law_credential_creation_stamp_is_kept(
    registry: Registry,
    submissions: Seq<Submission>,
    fingerprint: Seq<u8>,
)
    requires
        registry.credentials.contains_key(fingerprint),
        no_credential_revoked(submissions, fingerprint),
    ensures
        registry.run(submissions).credentials.contains_key(fingerprint),
        registry.run(submissions).credentials[fingerprint].block_number
            == registry.credentials[fingerprint].block_number,
    decreases submissions.len(),
{
    if submissions.len() > 0 {
        let earlier = submissions.drop_last();
        assert forall|i: int| 0 <= i < earlier.len() implies !revokes_credential(
            (#[trigger] earlier[i]).call,
            fingerprint,
        ) by {
            assert(earlier[i] == submissions[i]);
        }
        law_credential_creation_stamp_is_kept(registry, earlier, fingerprint);
        assert(!revokes_credential(submissions[submissions.len() - 1].call, fingerprint));
    }
}

/// A stored credential record stays as it is through every run in which it
/// is neither updated nor revoked.
pub proof fn law_credential_is_left_alone(
    registry: Registry,
    submissions: Seq<Submission>,
    fingerprint: Seq<u8>,
)
    requires
        registry.credentials.contains_key(fingerprint),
        credential_left_alone(submissions, fingerprint),
    ensures
        registry.run(submissions).credentials.contains_key(fingerprint),
        registry.run(submissions).credentials[fingerprint] == registry.credentials[fingerprint],
    decreases submissions.len(),
{
    if submissions.len() > 0 {
        let earlier = submissions.drop_last();
        assert forall|i: int|
            0 <= i < earlier.len() implies !updates_credential(
            (#[trigger] earlier[i]).call,
            fingerprint,
        ) && !revokes_credential(earlier[i].call, fingerprint) by {
            assert(earlier[i] == submissions[i]);
        }
        law_credential_is_left_alone(registry, earlier, fingerprint);
        let last = submissions[submissions.len() - 1];
        assert(!updates_credential(last.call, fingerprint));
        assert(!revokes_credential(last.call, fingerprint));
    }
}

/// Uniqueness of credential records: once a record has been created under a
/// fingerprint, creating one under the same fingerprint with a public key
/// that is an account identifier is refused with
/// `VerifiableCredentialFingerPrintExists`, and changes nothing, for as long
/// as the record has not been revoked.
pub proof fn law_credential_is_unique(
    registry: Registry,
    create: Submission,
    later: Seq<Submission>,
    again: Submission,
    fingerprint: Seq<u8>,
    input: VerifiableCredentialMetadataPayloadView,
)
    requires
        creates_credential(create.call, fingerprint),
        registry.submit(create).outcome is Ok,
        no_credential_revoked(later, fingerprint),
        again.call == (Call::CreateVerifiableCredential { vc_finger_print: fingerprint, input }),
        is_account_identifier(input.public_key),
    ensures
        registry.submit(create).registry.run(later).submit(again).outcome == Err::<
            EventView,
            Error,
        >(Error::VerifiableCredentialFingerPrintExists),
        registry.submit(create).registry.run(later).submit(again).registry == registry.submit(
            create,
        ).registry.run(later).at_block(again.block_number),
{
    law_credential_creation_stamp_is_kept(registry.submit(create).registry, later, fingerprint);
}

/// Once a credential record has been revoked, one can be created under its
/// fingerprint again, with a public key that is an account identifier.
pub proof fn law_credential_is_free_after_revocation(
    registry: Registry,
    revoke: Submission,
    create: Submission,
    fingerprint: Seq<u8>,
    input: VerifiableCredentialMetadataPayloadView,
)
    requires
        revokes_credential(revoke.call, fingerprint),
        registry.submit(revoke).outcome is Ok,
        create.call == (Call::CreateVerifiableCredential { vc_finger_print: fingerprint, input }),
        is_account_identifier(input.public_key),
    ensures
        registry.submit(revoke).registry.submit(create).outcome is Ok,
{
}

/// The stamps of a credential record: through any number of updates, and
/// whatever else is submitted, the block of its creation stays the block at
/// which it was created; and after an update the block of its update is the
/// block at which that update was made.
pub proof fn law_credential_stamps(
    registry: Registry,
    create: Submission,
    later: Seq<Submission>,
    fingerprint: Seq<u8>,
)
    requires
        creates_credential(create.call, fingerprint),
        registry.submit(create).outcome is Ok,
        no_credential_revoked(later, fingerprint),
    ensures
        registry.submit(create).registry.run(later).credentials.contains_key(fingerprint),
        registry.submit(create).registry.run(later).credentials[fingerprint].block_number
            == create.block_number,
        later.len() == 0 ==> registry.submit(create).registry.run(
            later,
        ).credentials[fingerprint].updated_block_number == create.block_number,
        later.len() > 0 && updates_credential(later.last().call, fingerprint) ==> registry.submit(
            create,
        ).registry.run(later).credentials[fingerprint].updated_block_number
            == later.last().block_number,
{
    let created = registry.submit(create).registry;
    law_credential_creation_stamp_is_kept(created, later, fingerprint);
    if later.len() > 0 {
        let earlier = later.drop_last();
        assert forall|i: int| 0 <= i < earlier.len() implies !revokes_credential(
            (#[trigger] earlier[i]).call,
            fingerprint,
        ) by {
            assert(earlier[i] == later[i]);
        }
        law_credential_creation_stamp_is_kept(created, earlier, fingerprint);
    }
}

/// Public keys are checked at creation: creating a credential record with a public key
/// that is no account identifier is refused with `InvalidPublicKey`,
/// whatever else the payload holds and whatever is stored, and no record is
/// stored or changed.
pub proof fn law_invalid_key_is_refused(
    registry: Registry,
    create: Submission,
    fingerprint: Seq<u8>,
    input: VerifiableCredentialMetadataPayloadView,
)
    requires
        create.call == (Call::CreateVerifiableCredential { vc_finger_print: fingerprint, input }),
        !is_account_identifier(input.public_key),
    ensures
        registry.submit(create) == (Transition {
            registry: registry.at_block(create.block_number),
            outcome: Err(Error::InvalidPublicKey),
        }),
{
}

/// Updates do not check the public key: updating a stored credential record
/// succeeds with any public key, and stores that key.
pub proof fn law_update_takes_any_key(
    registry: Registry,
    update: Submission,
    fingerprint: Seq<u8>,
    input: VerifiableCredentialMetadataPayloadView,
)
    requires
        update.call == (Call::UpdateVerifiableCredential { vc_finger_print: fingerprint, input }),
        registry.credentials.contains_key(fingerprint),
    ensures
        registry.submit(update).outcome is Ok,
        registry.submit(update).registry.credentials.contains_key(fingerprint),
        registry.submit(update).registry.credentials[fingerprint].public_key == input.public_key,
{
}

// Trails

/// The first entry is pinned: tracing an active credential that has no trail
/// yet succeeds and leaves a trail of one entry whose status is `Created`,
/// whatever status was requested; the event reports `Created` too.
pub proof fn law_first_entry_is_created(
    registry: Registry,
    trace: Submission,
    account_id: Option<AccountId>,
    fingerprint: Seq<u8>,
    status: VerifiableCredentialStatus,
)
    requires
        trace.call == (Call::TraceCredential { account_id, vc_finger_print: fingerprint, status }),
        registry.credentials.contains_key(fingerprint),
        registry.credentials[fingerprint].is_active(),
        !registry.trails.contains_key(fingerprint),
    ensures
        registry.submit(trace).outcome == Ok::<EventView, Error>(
            EventView::VerifiableCredentialEvent {
                vc_finger_print: fingerprint,
                origin: trace.origin,
                block_number: trace.block_number,
                status: VerifiableCredentialStatus::Created,
            },
        ),
        registry.submit(trace).registry.trails.contains_key(fingerprint),
        registry.submit(trace).registry.trails[fingerprint] == seq![
            VerifiableCredentialLog {
                account_id,
                status: VerifiableCredentialStatus::Created,
                block_number: Some(trace.block_number),
            },
        ],
{
    let entry = VerifiableCredentialLog {
        account_id,
        status: VerifiableCredentialStatus::Created,
        block_number: Some(trace.block_number),
    };
    assert(Seq::<VerifiableCredentialLog>::empty().push(entry) =~= seq![entry]);
}

/// Trails only grow: after any run, the trail of a credential is the trail
/// from before the run followed by one entry for each submission of the run
/// that traced the credential and succeeded, in the order of the
/// submissions.
pub proof fn law_trail_is_appended_to(
    registry: Registry,
    submissions: Seq<Submission>,
    fingerprint: Seq<u8>,
)
    ensures
        trail_of(registry.run(submissions).trails, fingerprint) == trail_of(
            registry.trails,
            fingerprint,
        ) + appended_by_run(registry, submissions, fingerprint),
        appended_by_run(registry, submissions, fingerprint).len() == successful_traces(
            registry,
            submissions,
            fingerprint,
        ),
    decreases submissions.len(),
{
    let before = trail_of(registry.trails, fingerprint);
    if submissions.len() == 0 {
        assert(before + Seq::<VerifiableCredentialLog>::empty() =~= before);
    } else {
        let earlier = submissions.drop_last();
        let last = submissions.last();
        law_trail_is_appended_to(registry, earlier, fingerprint);
        let middle = registry.run(earlier);
        let so_far = trail_of(middle.trails, fingerprint);
        let added = appended(middle, last, fingerprint);
        assert(trail_of(middle.submit(last).registry.trails, fingerprint) =~= so_far + added);
        assert(before + (appended_by_run(registry, earlier, fingerprint) + added) =~= (before
            + appended_by_run(registry, earlier, fingerprint)) + added);
    }
}

/// The trail of a credential counts and orders its traces: in a valid
/// registry that has no trail for the credential yet, after a run in which
/// `k` submissions traced the credential and succeeded, the trail has
/// exactly `k` entries, they are the entries of those submissions in their
/// order, and the first of them has status `Created`.
pub proof fn law_trail_counts_traces(
    registry: Registry,
    submissions: Seq<Submission>,
    fingerprint: Seq<u8>,
)
    requires
        registry.valid(),
        !registry.trails.contains_key(fingerprint),
    ensures
        trail_of(registry.run(submissions).trails, fingerprint) == appended_by_run(
            registry,
            submissions,
            fingerprint,
        ),
        trail_of(registry.run(submissions).trails, fingerprint).len() == successful_traces(
            registry,
            submissions,
            fingerprint,
        ),
        successful_traces(registry, submissions, fingerprint) > 0 ==> trail_of(
            registry.run(submissions).trails,
            fingerprint,
        )[0].status == VerifiableCredentialStatus::Created,
{
    law_trail_is_appended_to(registry, submissions, fingerprint);
    law_validity_is_kept_by_runs(registry, submissions);
    assert(Seq::<VerifiableCredentialLog>::empty() + appended_by_run(
        registry,
        submissions,
        fingerprint,
    ) =~= appended_by_run(registry, submissions, fingerprint));
}

/// Entries are never changed: whatever is submitted after a run, the trail
/// as it was after the run is the beginning of the trail afterwards.
pub proof fn law_trail_entries_are_kept(
    registry: Registry,
    earlier: Seq<Submission>,
    later: Seq<Submission>,
    fingerprint: Seq<u8>,
)
    ensures
        trail_of(registry.run(earlier).trails, fingerprint).is_prefix_of(
            trail_of(registry.run(earlier + later).trails, fingerprint),
        ),
{
    lemma_run_concat(registry, earlier, later);
    law_trail_is_appended_to(registry.run(earlier), later, fingerprint);
}

/// A full trail takes no more: once the trail of a credential holds as many
/// entries as the capacity, every trace of that credential is refused and
/// changes nothing; and the error is `VerifiableCredentialLogLimitReached`
/// if the credential is stored and active.
pub proof fn law_full_trail_refuses(
    registry: Registry,
    trace: Submission,
    fingerprint: Seq<u8>,
)
    requires
        traces_credential(trace.call, fingerprint),
        trail_of(registry.trails, fingerprint).len() >= TRAIL_CAPACITY,
    ensures
        registry.submit(trace).outcome is Err,
        registry.submit(trace).registry == registry.at_block(trace.block_number),
        registry.credentials.contains_key(fingerprint)
            && registry.credentials[fingerprint].is_active() ==> registry.submit(trace).outcome
            == Err::<EventView, Error>(Error::VerifiableCredentialLogLimitReached),
{
}

/// Inactive credentials take no traces: after an update has set the flag of a
/// credential to anything but `Some(true)`, every trace of that credential
/// is refused with `VerifiableCredentialInactive`, and changes nothing, for
/// as long as the record is neither updated nor revoked.
pub proof fn law_inactive_credential_refuses(
    registry: Registry,
    update: Submission,
    later: Seq<Submission>,
    trace: Submission,
    fingerprint: Seq<u8>,
    input: VerifiableCredentialMetadataPayloadView,
)
    requires
        update.call == (Call::UpdateVerifiableCredential { vc_finger_print: fingerprint, input }),
        input.active != Some(true),
        registry.submit(update).outcome is Ok,
        credential_left_alone(later, fingerprint),
        traces_credential(trace.call, fingerprint),
    ensures
        registry.submit(update).registry.run(later).submit(trace).outcome == Err::<
            EventView,
            Error,
        >(Error::VerifiableCredentialInactive),
        registry.submit(update).registry.run(later).submit(trace).registry == registry.submit(
            update,
        ).registry.run(later).at_block(trace.block_number),
{
    law_credential_is_left_alone(registry.submit(update).registry, later, fingerprint);
}

} // verus!
