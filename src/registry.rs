//! The registry: the authoritative ledger `namehash -> (owner, resolver,
//! expiry)`. Every change needs the authorization of the current owner, or
//! of the new owner when the name has none yet.
use vstd::prelude::*;
use soroban_sdk::Env;
use crate::address::{is_authorized, Address, Digest};
use crate::namehash::{fold_hash, label_hash, namehash_of, root_node, MAX_LABEL_LENGTH};
use crate::table::DigestMap;

verus! {

/// How far one renewal pushes the expiry, in seconds (365 days).
pub const RENEW_EXTENSION_SECONDS: u64 = 31_536_000;

/// What the registry holds for one name.
#[derive(Clone, Copy, Debug, PartialEq, Eq)]
pub struct Record {
    pub owner: Option<Address>,
    pub resolver: Option<Address>,
    pub expires: Option<u64>,
}

#[derive(Clone, Copy, Debug, PartialEq, Eq, Structural)]
pub enum RegistryError {
    OwnerNotSet,
    ResolverNotSet,
    ExpiryNotSet,
    Unauthorized,
    ZeroAddress,
    ExpiryOverflow,
    EmptyLabel,
    LabelTooLong,
}

/// Published when a name gets an owner. On a first assignment `from == to`.
#[derive(Clone, Copy, Debug, PartialEq, Eq)]
pub struct EvtTransfer {
    pub namehash: Digest,
    pub from: Address,
    pub to: Address,
}

#[derive(Clone, Copy, Debug, PartialEq, Eq)]
pub struct EvtResolverChanged {
    pub namehash: Digest,
    pub resolver: Address,
}

#[derive(Clone, Copy, Debug, PartialEq, Eq)]
pub struct EvtRenew {
    pub namehash: Digest,
    pub expires_at: u64,
}

/// The record of a name that the registry has never written.
pub open spec fn empty_record() -> Record {
    Record { owner: None, resolver: None, expires: None }
}

/// The record of `n`, empty where nothing was written.
pub open spec fn record_at(m: Map<Seq<u8>, Record>, n: Seq<u8>) -> Record {
    if m.contains_key(n) {
        m[n]
    } else {
        empty_record()
    }
}

/// Who must authorize giving `n` to `new_owner`: its current owner, or the new
/// owner when it has none.
pub open spec fn owner_signer(m: Map<Seq<u8>, Record>, n: Seq<u8>, new_owner: Address) -> Address {
    match record_at(m, n).owner {
        Some(o) => o,
        None => new_owner,
    }
}

pub open spec fn set_owner_step(
    m: Map<Seq<u8>, Record>,
    signers: Seq<Address>,
    n: Seq<u8>,
    new_owner: Address,
) -> Result<Map<Seq<u8>, Record>, RegistryError> {
    let rec = record_at(m, n);
    if new_owner.is_zero() {
        Err(RegistryError::ZeroAddress)
    } else if !signers.contains(owner_signer(m, n, new_owner)) {
        Err(RegistryError::Unauthorized)
    } else {
        Ok(m.insert(n, Record { owner: Some(new_owner), resolver: rec.resolver, expires: rec.expires }))
    }
}

pub open spec fn transfer_step(
    m: Map<Seq<u8>, Record>,
    signers: Seq<Address>,
    n: Seq<u8>,
    to: Address,
) -> Result<Map<Seq<u8>, Record>, RegistryError> {
    match record_at(m, n).owner {
        None => Err(RegistryError::OwnerNotSet),
        Some(o) => if !signers.contains(o) {
            Err(RegistryError::Unauthorized)
        } else {
            set_owner_step(m, signers, n, to)
        },
    }
}

pub open spec fn set_resolver_step(
    m: Map<Seq<u8>, Record>,
    signers: Seq<Address>,
    n: Seq<u8>,
    resolver: Address,
) -> Result<Map<Seq<u8>, Record>, RegistryError> {
    let rec = record_at(m, n);
    if resolver.is_zero() {
        Err(RegistryError::ZeroAddress)
    } else {
        match rec.owner {
            None => Err(RegistryError::OwnerNotSet),
            Some(o) => if !signers.contains(o) {
                Err(RegistryError::Unauthorized)
            } else {
                Ok(m.insert(n, Record { owner: rec.owner, resolver: Some(resolver), expires: rec.expires }))
            },
        }
    }
}

/// The expiry after a renewal at `now`: one extension past the later of the
/// current expiry and `now`.
pub open spec fn renewed_expiry(current: Option<u64>, now: u64) -> int {
    let base = match current {
        Some(e) => if e > now {
            e
        } else {
            now
        },
        None => now,
    };
    base + RENEW_EXTENSION_SECONDS
}

pub open spec fn renew_step(
    m: Map<Seq<u8>, Record>,
    signers: Seq<Address>,
    n: Seq<u8>,
    now: u64,
) -> Result<Map<Seq<u8>, Record>, RegistryError> {
    let rec = record_at(m, n);
    match rec.owner {
        None => Err(RegistryError::OwnerNotSet),
        Some(o) => if !signers.contains(o) {
            Err(RegistryError::Unauthorized)
        } else if renewed_expiry(rec.expires, now) > u64::MAX {
            Err(RegistryError::ExpiryOverflow)
        } else {
            Ok(m.insert(n, Record { owner: rec.owner, resolver: rec.resolver, expires: Some(renewed_expiry(rec.expires, now) as u64) }))
        },
    }
}

/// The labels the registry hashes: non-empty and at most 63 bytes.
pub open spec fn label_ok(label: Seq<u8>) -> bool {
    0 < label.len() <= MAX_LABEL_LENGTH
}

/// The first label, if any, that the registry refuses to hash.
pub open spec fn first_bad_label(labels: Seq<Seq<u8>>, i: int) -> bool {
    &&& 0 <= i < labels.len()
    &&& !label_ok(labels[i])
    &&& forall|j: int| 0 <= j < i ==> label_ok(#[trigger] labels[j])
}

pub struct Registry {
    records: DigestMap<Record>,
}

impl Registry {
    pub closed spec fn view(&self) -> Map<Seq<u8>, Record> {
        self.records@
    }

    /// An empty registry.
    pub fn new() -> (r: Registry)
        ensures
            r@ == Map::<Seq<u8>, Record>::empty(),
    {
        Registry { records: DigestMap::new() }
    }

    /// A registry holding the one stored record of `namehash`, as read back
    /// from persistent storage.
    pub fn with_record(namehash: Digest, record: Option<Record>) -> (r: Registry)
        ensures
            r@ == (match record {
                Some(rec) => Map::<Seq<u8>, Record>::empty().insert(namehash@, rec),
                None => Map::<Seq<u8>, Record>::empty(),
            }),
    {
        let mut records = DigestMap::new();
        if let Some(rec) = record {
            records.insert(namehash, rec);
        }
        Registry { records }
    }

    pub fn version() -> (r: u32)
        ensures
            r == 1,
    {
        1
    }

    /// The record of `namehash`, empty where nothing was written.
    pub fn record(&self, namehash: &Digest) -> (r: Record)
        ensures
            r == record_at(self@, namehash@),
    {
        match self.records.get(namehash) {
            Some(rec) => rec,
            None => Record { owner: None, resolver: None, expires: None },
        }
    }

    /// The stored record of `namehash`, `None` where nothing was written.
    pub(crate) fn entry(&self, namehash: &Digest) -> (r: Option<Record>)
        ensures
            r == (if self@.contains_key(namehash@) {
                Some(self@[namehash@])
            } else {
                None::<Record>
            }),
    {
        self.records.get(namehash)
    }

    /// Puts back what `entry` returned, undoing every write to `namehash` since.
    pub(crate) fn restore(&mut self, namehash: &Digest, saved: Option<Record>)
        ensures
            final(self)@ == (match saved {
                Some(rec) => old(self)@.insert(namehash@, rec),
                None => old(self)@.remove(namehash@),
            }),
    {
        match saved {
            Some(rec) => self.records.insert(*namehash, rec),
            None => self.records.remove(namehash),
        }
    }

    /// Gives `namehash` to `new_owner`.
    pub fn set_owner(&mut self, signers: &Vec<Address>, namehash: Digest, new_owner: Address) -> (r: Result<EvtTransfer, RegistryError>)
        ensures
            match set_owner_step(old(self)@, signers@, namehash@, new_owner) {
                Ok(m) => final(self)@ == m && r == Ok::<EvtTransfer, RegistryError>(
                    (EvtTransfer { namehash, from: owner_signer(old(self)@, namehash@, new_owner), to: new_owner }),
                ),
                Err(e) => final(self)@ == old(self)@ && r == Err::<EvtTransfer, RegistryError>(e),
            },
    {
        if new_owner.is_zero_account() {
            return Err(RegistryError::ZeroAddress);
        }
        let rec = self.record(&namehash);
        let signer = match rec.owner {
            Some(o) => o,
            None => new_owner,
        };
        if !is_authorized(signers, &signer) {
            return Err(RegistryError::Unauthorized);
        }
        self.records.insert(namehash, Record { owner: Some(new_owner), resolver: rec.resolver, expires: rec.expires });
        Ok(EvtTransfer { namehash, from: signer, to: new_owner })
    }

    /// Who must authorize giving `namehash` to `new_owner`.
    pub fn owner_signer(&self, namehash: &Digest, new_owner: Address) -> (r: Address)
        ensures
            r == owner_signer(self@, namehash@, new_owner),
    {
        match self.record(namehash).owner {
            Some(o) => o,
            None => new_owner,
        }
    }

    /// The owner of `namehash`.
    pub fn owner(&self, namehash: &Digest) -> (r: Result<Address, RegistryError>)
        ensures
            r == (match record_at(self@, namehash@).owner {
                Some(o) => Ok::<Address, RegistryError>(o),
                None => Err(RegistryError::OwnerNotSet),
            }),
    {
        match self.record(namehash).owner {
            Some(o) => Ok(o),
            None => Err(RegistryError::OwnerNotSet),
        }
    }

    /// Passes `namehash` from its current owner to `to`.
    pub fn transfer(&mut self, signers: &Vec<Address>, namehash: Digest, to: Address) -> (r: Result<EvtTransfer, RegistryError>)
        ensures
            match transfer_step(old(self)@, signers@, namehash@, to) {
                Ok(m) => final(self)@ == m && r == Ok::<EvtTransfer, RegistryError>(
                    (EvtTransfer { namehash, from: owner_signer(old(self)@, namehash@, to), to }),
                ),
                Err(e) => final(self)@ == old(self)@ && r == Err::<EvtTransfer, RegistryError>(e),
            },
    {
        let current = match self.owner(&namehash) {
            Ok(o) => o,
            Err(e) => return Err(e),
        };
        if !is_authorized(signers, &current) {
            return Err(RegistryError::Unauthorized);
        }
        self.set_owner(signers, namehash, to)
    }

    /// Points `namehash` at a resolver.
    pub fn set_resolver(&mut self, signers: &Vec<Address>, namehash: Digest, resolver: Address) -> (r: Result<EvtResolverChanged, RegistryError>)
        ensures
            match set_resolver_step(old(self)@, signers@, namehash@, resolver) {
                Ok(m) => final(self)@ == m && r == Ok::<EvtResolverChanged, RegistryError>(
                    (EvtResolverChanged { namehash, resolver }),
                ),
                Err(e) => final(self)@ == old(self)@ && r == Err::<EvtResolverChanged, RegistryError>(e),
            },
    {
        if resolver.is_zero_account() {
            return Err(RegistryError::ZeroAddress);
        }
        let rec = self.record(&namehash);
        let owner = match rec.owner {
            Some(o) => o,
            None => return Err(RegistryError::OwnerNotSet),
        };
        if !is_authorized(signers, &owner) {
            return Err(RegistryError::Unauthorized);
        }
        self.records.insert(namehash, Record { owner: rec.owner, resolver: Some(resolver), expires: rec.expires });
        Ok(EvtResolverChanged { namehash, resolver })
    }

    /// The resolver of `namehash`.
    pub fn resolver(&self, namehash: &Digest) -> (r: Result<Address, RegistryError>)
        ensures
            r == (match record_at(self@, namehash@).resolver {
                Some(a) => Ok::<Address, RegistryError>(a),
                None => Err(RegistryError::ResolverNotSet),
            }),
    {
        match self.record(namehash).resolver {
            Some(a) => Ok(a),
            None => Err(RegistryError::ResolverNotSet),
        }
    }

    /// Extends the registration of `namehash` by one extension past the later
    /// of its expiry and `now`.
    pub fn renew(&mut self, signers: &Vec<Address>, namehash: Digest, now: u64) -> (r: Result<EvtRenew, RegistryError>)
        ensures
            match renew_step(old(self)@, signers@, namehash@, now) {
                Ok(m) => final(self)@ == m && r == Ok::<EvtRenew, RegistryError>(
                    (EvtRenew { namehash, expires_at: renewed_expiry(record_at(old(self)@, namehash@).expires, now) as u64 }),
                ),
                Err(e) => final(self)@ == old(self)@ && r == Err::<EvtRenew, RegistryError>(e),
            },
    {
        let rec = self.record(&namehash);
        let owner = match rec.owner {
            Some(o) => o,
            None => return Err(RegistryError::OwnerNotSet),
        };
        if !is_authorized(signers, &owner) {
            return Err(RegistryError::Unauthorized);
        }
        let current = match rec.expires {
            Some(e) => e,
            None => now,
        };
        let base = if current > now {
            current
        } else {
            now
        };
        let new_expiry = match base.checked_add(RENEW_EXTENSION_SECONDS) {
            Some(e) => e,
            None => return Err(RegistryError::ExpiryOverflow),
        };
        self.records.insert(namehash, Record { owner: rec.owner, resolver: rec.resolver, expires: Some(new_expiry) });
        Ok(EvtRenew { namehash, expires_at: new_expiry })
    }

    /// The expiry of `namehash`.
    pub fn expires(&self, namehash: &Digest) -> (r: Result<u64, RegistryError>)
        ensures
            r == (match record_at(self@, namehash@).expires {
                Some(e) => Ok::<u64, RegistryError>(e),
                None => Err(RegistryError::ExpiryNotSet),
            }),
    {
        match self.record(namehash).expires {
            Some(e) => Ok(e),
            None => Err(RegistryError::ExpiryNotSet),
        }
    }

    /// The name hash of `labels`, root first. Refuses an empty label and one
    /// longer than 63 bytes.
    pub fn namehash(env: &Env, labels: &Vec<Vec<u8>>) -> (r: Result<Digest, RegistryError>)
        ensures
            match r {
                Ok(node) => (forall|i: int| 0 <= i < labels@.len() ==> label_ok(#[trigger] labels.deep_view()[i]))
                    && node@ == namehash_of(labels.deep_view()),
                Err(e) => exists|i: int| #[trigger] first_bad_label(labels.deep_view(), i) && e == (if labels.deep_view()[i].len() == 0 {
                    RegistryError::EmptyLabel
                } else {
                    RegistryError::LabelTooLong
                }),
            },
    {
        let mut node = root_node();
        let mut i: usize = 0;
        while i < labels.len()
            invariant
                i <= labels@.len(),
                forall|j: int| 0 <= j < i ==> label_ok(#[trigger] labels.deep_view()[j]),
                node@ == namehash_of(labels.deep_view().subrange(0, i as int)),
            decreases labels@.len() - i,
        {
            let label = &labels[i];
            assert(labels.deep_view()[i as int] =~= label@);
            if label.len() == 0 {
                assert(first_bad_label(labels.deep_view(), i as int));
                return Err(RegistryError::EmptyLabel);
            }
            if label.len() > MAX_LABEL_LENGTH {
                assert(first_bad_label(labels.deep_view(), i as int));
                return Err(RegistryError::LabelTooLong);
            }
            let h = label_hash(env, label.as_slice());
            node = fold_hash(env, &node, &h);
            proof {
                let s = labels.deep_view().subrange(0, i + 1);
                assert(s.drop_last() =~= labels.deep_view().subrange(0, i as int));
                assert(s.last() == labels.deep_view()[i as int]);
            }
            i = i + 1;
        }
        assert(labels.deep_view().subrange(0, i as int) =~= labels.deep_view());
        Ok(node)
    }
}

} // verus!
