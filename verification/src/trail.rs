//! The trail of one credential: a bounded log of status changes that only
//! grows, and whose first entry is always `Created`.
//!
//! The entries live in a `BoundedVec`, the bounded vector of the
//! `bounded-collections` crate that `frame-support` hands on, which refuses a
//! push beyond its bound. Verus does not read that type: what this module
//! relies on is stated, without proof, on the few functions below that call
//! it.

use frame_support::traits::ConstU32;
use frame_support::BoundedVec;
use vstd::prelude::*;

use crate::storage::StorageMap;
use crate::types::{
    AccountId, BlockNumber, Error, VerifiableCredentialLog, VerifiableCredentialStatus,
};

verus! {

/// The most entries a trail may hold.
pub const TRAIL_CAPACITY: u32 = 2048;

/// `ConstU32`: a type that stands for one number, here the bound of a
/// `BoundedVec`. No value of it is ever looked at.
#[verifier::external_type_specification]
#[verifier::external_body]
pub struct ExConstU32<const T: u32>(ConstU32<T>);

/// `BoundedVec`: a vector that never holds more items than the number its
/// second parameter stands for. What it holds is reached only through the
/// functions below.
#[verifier::external_type_specification]
#[verifier::external_body]
#[verifier::reject_recursive_types(T)]
#[verifier::reject_recursive_types(S)]
pub struct ExBoundedVec<T, S>(BoundedVec<T, S>);

/// The entries that a `BoundedVec` of trail entries holds, oldest first.
pub uninterp spec fn trail_entries(
    log: BoundedVec<VerifiableCredentialLog, ConstU32<TRAIL_CAPACITY>>,
) -> Seq<VerifiableCredentialLog>;

/// `BoundedVec::default`: a vector without items.
#[verifier::external_body]
fn bounded_default() -> (log: BoundedVec<VerifiableCredentialLog, ConstU32<TRAIL_CAPACITY>>)
    ensures
        trail_entries(log) == Seq::<VerifiableCredentialLog>::empty(),
{
    BoundedVec::default()
}

/// `BoundedVec::try_push`: while the vector holds fewer items than its bound,
/// the item is added at the end; otherwise the item comes back in `Err` and
/// the vector is as it was.
#[verifier::external_body]
fn bounded_try_push(
    log: &mut BoundedVec<VerifiableCredentialLog, ConstU32<TRAIL_CAPACITY>>,
    entry: VerifiableCredentialLog,
) -> (pushed: Result<(), VerifiableCredentialLog>)
    ensures
        pushed is Ok <==> trail_entries(*old(log)).len() < TRAIL_CAPACITY,
        pushed is Ok ==> trail_entries(*final(log)) == trail_entries(*old(log)).push(entry),
        pushed matches Err(refused) ==> refused == entry && trail_entries(*final(log))
            == trail_entries(*old(log)),
{
    log.try_push(entry)
}

/// `Vec::len`, reached through `BoundedVec`'s `Deref`: the number of items.
#[verifier::external_body]
fn bounded_len(log: &BoundedVec<VerifiableCredentialLog, ConstU32<TRAIL_CAPACITY>>) -> (len: usize)
    ensures
        len == trail_entries(*log).len(),
{
    log.len()
}

/// `Index::index` of `BoundedVec`: the item at a place that the vector has.
/// Any other place would make it panic.
#[verifier::external_body]
fn bounded_index(
    log: &BoundedVec<VerifiableCredentialLog, ConstU32<TRAIL_CAPACITY>>,
    index: usize,
) -> (entry: VerifiableCredentialLog)
    requires
        index < trail_entries(*log).len(),
    ensures
        entry == trail_entries(*log)[index as int],
{
    log[index]
}

/// What holds of every trail: it is within the capacity, and if it has
/// entries, the first one is `Created`.
pub open spec fn valid_trail(entries: Seq<VerifiableCredentialLog>) -> bool {
    &&& entries.len() <= TRAIL_CAPACITY
    &&& entries.len() > 0 ==> entries[0].status == VerifiableCredentialStatus::Created
}

/// The status under which a request is recorded: `Created` for the first
/// entry of a trail, the requested status for every later one.
pub open spec fn recorded_status(
    entries: Seq<VerifiableCredentialLog>,
    requested: VerifiableCredentialStatus,
) -> VerifiableCredentialStatus {
    if entries.len() == 0 {
        VerifiableCredentialStatus::Created
    } else {
        requested
    }
}

/// The entry that a request adds to a trail.
pub open spec fn recorded_entry(
    entries: Seq<VerifiableCredentialLog>,
    account_id: Option<AccountId>,
    requested: VerifiableCredentialStatus,
    block_number: BlockNumber,
) -> VerifiableCredentialLog {
    VerifiableCredentialLog {
        account_id,
        status: recorded_status(entries, requested),
        block_number: Some(block_number),
    }
}

/// Every stored trail has an entry, is within the capacity and begins with
/// `Created`.
pub open spec fn valid_trails(trails: Map<Seq<u8>, Seq<VerifiableCredentialLog>>) -> bool {
    forall|fingerprint: Seq<u8>| #[trigger]
        trails.contains_key(fingerprint) ==> trails[fingerprint].len() > 0 && valid_trail(
            trails[fingerprint],
        )
}

/// The entries recorded so far under a fingerprint: none where no trail is
/// stored.
pub open spec fn trail_of(
    trails: Map<Seq<u8>, Seq<VerifiableCredentialLog>>,
    fingerprint: Seq<u8>,
) -> Seq<VerifiableCredentialLog> {
    if trails.contains_key(fingerprint) {
        trails[fingerprint]
    } else {
        Seq::empty()
    }
}

/// The trail of one credential.
pub struct CredentialTrail {
    entries: BoundedVec<VerifiableCredentialLog, ConstU32<TRAIL_CAPACITY>>,
}

impl View for CredentialTrail {
    type V = Seq<VerifiableCredentialLog>;

    closed spec fn view(&self) -> Seq<VerifiableCredentialLog> {
        trail_entries(self.entries)
    }
}

impl CredentialTrail {
    #[verifier::type_invariant]
    spec fn well_formed(self) -> bool {
        valid_trail(trail_entries(self.entries))
    }

    /// A trail without entries.
    pub fn new() -> (trail: Self)
        ensures
            trail@ == Seq::<VerifiableCredentialLog>::empty(),
    {
        CredentialTrail { entries: bounded_default() }
    }

    /// The number of entries.
    pub fn len(&self) -> (len: usize)
        ensures
            len == self@.len(),
            valid_trail(self@),
    {
        proof {
            use_type_invariant(self);
        }
        bounded_len(&self.entries)
    }

    /// Whether the trail has no entry yet.
    pub fn is_empty(&self) -> (empty: bool)
        ensures
            empty == (self@.len() == 0),
    {
        bounded_len(&self.entries) == 0
    }

    /// Whether the trail has reached its capacity.
    pub fn is_full(&self) -> (full: bool)
        ensures
            full == (self@.len() >= TRAIL_CAPACITY),
    {
        bounded_len(&self.entries) >= TRAIL_CAPACITY as usize
    }

    /// The entry at `index`, counting from the oldest.
    pub fn get(&self, index: usize) -> (entry: Option<VerifiableCredentialLog>)
        ensures
            entry == if index < self@.len() {
                Some(self@[index as int])
            } else {
                None
            },
    {
        if index < bounded_len(&self.entries) {
            Some(bounded_index(&self.entries, index))
        } else {
            None
        }
    }

    /// The entries, oldest first.
    pub fn to_vec(&self) -> (entries: Vec<VerifiableCredentialLog>)
        ensures
            entries@ == self@,
            valid_trail(self@),
    {
        proof {
            use_type_invariant(self);
        }
        let len = bounded_len(&self.entries);
        let mut entries: Vec<VerifiableCredentialLog> = Vec::new();
        let mut i: usize = 0;
        while i < len
            invariant
                len == self@.len(),
                i <= len,
                entries@ == self@.subrange(0, i as int),
            decreases len - i,
        {
            entries.push(bounded_index(&self.entries, i));
            i += 1;
            assert(entries@ =~= self@.subrange(0, i as int));
        }
        assert(entries@ =~= self@);
        entries
    }

    /// Appends one entry about `account_id` at `block_number`.
    ///
    /// The first entry of a trail is recorded as `Created` whatever status was
    /// requested; every later entry carries the requested status. The status
    /// that was recorded is returned. A full trail refuses the entry and stays
    /// as it was.
    pub fn record(
        &mut self,
        account_id: Option<AccountId>,
        status: VerifiableCredentialStatus,
        block_number: BlockNumber,
    ) -> (recorded: Result<VerifiableCredentialStatus, Error>)
        ensures
            valid_trail(old(self)@),
            valid_trail(final(self)@),
            old(self)@.len() >= TRAIL_CAPACITY ==> recorded == Err::<
                VerifiableCredentialStatus,
                Error,
            >(Error::VerifiableCredentialLogLimitReached) && final(self)@ == old(self)@,
            old(self)@.len() < TRAIL_CAPACITY ==> recorded == Ok::<
                VerifiableCredentialStatus,
                Error,
            >(recorded_status(old(self)@, status)) && final(self)@ == old(self)@.push(
                recorded_entry(old(self)@, account_id, status, block_number),
            ),
    {
        proof {
            use_type_invariant(&*self);
        }
        let first = bounded_len(&self.entries) == 0;
        let status = if first {
            VerifiableCredentialStatus::Created
        } else {
            status
        };
        let entry = VerifiableCredentialLog { account_id, status, block_number: Some(block_number) };
        // The log is taken out while it is pushed to, and an empty one stands
        // in for it: the invariant has to hold of `self` throughout.
        let mut entries = bounded_default();
        std::mem::swap(&mut entries, &mut self.entries);
        let pushed = bounded_try_push(&mut entries, entry);
        self.entries = entries;
        match pushed {
            Ok(()) => Ok(status),
            Err(_) => Err(Error::VerifiableCredentialLogLimitReached),
        }
    }

    /// The trail that holds exactly `entries`, if they form a valid trail.
    pub fn from_entries(entries: &Vec<VerifiableCredentialLog>) -> (trail: Option<Self>)
        ensures
            match trail {
                Some(trail) => valid_trail(entries@) && trail@ == entries@,
                None => !valid_trail(entries@),
            },
    {
        if entries.len() > TRAIL_CAPACITY as usize {
            return None;
        }
        if entries.len() > 0 && entries[0].status != VerifiableCredentialStatus::Created {
            return None;
        }
        let mut log = bounded_default();
        let mut i: usize = 0;
        while i < entries.len()
            invariant
                entries@.len() <= TRAIL_CAPACITY,
                i <= entries@.len(),
                trail_entries(log) == entries@.subrange(0, i as int),
            decreases entries@.len() - i,
        {
            let _ = bounded_try_push(&mut log, entries[i]);
            i += 1;
            assert(trail_entries(log) =~= entries@.subrange(0, i as int));
        }
        assert(trail_entries(log) =~= entries@);
        Some(CredentialTrail { entries: log })
    }
}

/// The trails of all credentials, by fingerprint.
///
/// A trail is stored from its first entry on, so every stored trail has one.
pub struct TrailStore {
    trails: StorageMap<CredentialTrail>,
}

impl View for TrailStore {
    type V = Map<Seq<u8>, Seq<VerifiableCredentialLog>>;

    closed spec fn view(&self) -> Map<Seq<u8>, Seq<VerifiableCredentialLog>> {
        self.trails@
    }
}

impl TrailStore {
    #[verifier::type_invariant]
    spec fn well_formed(self) -> bool {
        valid_trails(self.trails@)
    }

    /// A store without trails.
    pub fn new() -> (store: Self)
        ensures
            store@ == Map::<Seq<u8>, Seq<VerifiableCredentialLog>>::empty(),
    {
        TrailStore { trails: StorageMap::new() }
    }

    /// Runs nothing; tells the caller what holds of every store.
    pub(crate) fn validity(&self)
        ensures
            valid_trails(self@),
    {
        proof {
            use_type_invariant(self);
        }
    }

    /// The trail stored under `fingerprint`, if any.
    pub fn get(&self, fingerprint: &[u8]) -> (found: Option<&CredentialTrail>)
        ensures
            valid_trails(self@),
            match found {
                Some(trail) => self@.contains_key(fingerprint@) && self@[fingerprint@] == trail@,
                None => !self@.contains_key(fingerprint@),
            },
    {
        proof {
            use_type_invariant(self);
        }
        self.trails.get(fingerprint)
    }

    /// Appends one entry to the trail of `fingerprint`, beginning the trail
    /// if there is none.
    ///
    /// The first entry of a trail is recorded as `Created`, every later one
    /// under the requested status; the recorded status is returned. A full
    /// trail refuses the entry, and nothing changes.
    pub fn record(
        &mut self,
        fingerprint: Vec<u8>,
        account_id: Option<AccountId>,
        status: VerifiableCredentialStatus,
        block_number: BlockNumber,
    ) -> (recorded: Result<VerifiableCredentialStatus, Error>)
        ensures
            valid_trails(old(self)@),
            valid_trails(final(self)@),
            trail_of(old(self)@, fingerprint@).len() >= TRAIL_CAPACITY ==> recorded == Err::<
                VerifiableCredentialStatus,
                Error,
            >(Error::VerifiableCredentialLogLimitReached) && final(self)@ == old(self)@,
            trail_of(old(self)@, fingerprint@).len() < TRAIL_CAPACITY ==> recorded == Ok::<
                VerifiableCredentialStatus,
                Error,
            >(recorded_status(trail_of(old(self)@, fingerprint@), status)) && final(self)@ == old(
                self,
            )@.insert(
                fingerprint@,
                trail_of(old(self)@, fingerprint@).push(
                    recorded_entry(
                        trail_of(old(self)@, fingerprint@),
                        account_id,
                        status,
                        block_number,
                    ),
                ),
            ),
    {
        proof {
            use_type_invariant(&*self);
        }
        // The map is taken out while it is worked on, and an empty one stands
        // in for it: the invariant has to hold of `self` throughout.
        let mut trails: StorageMap<CredentialTrail> = StorageMap::new();
        std::mem::swap(&mut trails, &mut self.trails);
        let ghost before = trails@;
        let recorded = match trails.remove(fingerprint.as_slice()) {
            None => {
                let mut trail = CredentialTrail::new();
                let recorded = trail.record(account_id, status, block_number);
                if recorded.is_ok() {
                    trails.insert(fingerprint, trail);
                }
                recorded
            },
            Some(trail) => {
                let mut trail = trail;
                let recorded = trail.record(account_id, status, block_number);
                trails.insert(fingerprint, trail);
                recorded
            },
        };
        proof {
            if recorded is Err {
                assert(trails@ =~= before);
            }
        }
        self.trails = trails;
        recorded
    }

    /// Stores a trail that was recorded earlier under `fingerprint`, in place
    /// of the one stored there. A trail without entries is not stored, and
    /// `false` is returned.
    pub fn restore(&mut self, fingerprint: Vec<u8>, trail: CredentialTrail) -> (stored: bool)
        ensures
            valid_trails(final(self)@),
            stored == (trail@.len() > 0),
            final(self)@ == if stored {
                old(self)@.insert(fingerprint@, trail@)
            } else {
                old(self)@
            },
    {
        proof {
            use_type_invariant(&*self);
        }
        if trail.len() == 0 {
            return false;
        }
        let mut trails: StorageMap<CredentialTrail> = StorageMap::new();
        std::mem::swap(&mut trails, &mut self.trails);
        trails.insert(fingerprint, trail);
        self.trails = trails;
        true
    }
}

} // verus!
