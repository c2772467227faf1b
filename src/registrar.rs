//! The registrar: commit-reveal registration and renewal of names under one
//! top-level label. A client first commits to `H(label ++ owner ++ secret)`,
//! waits, then reveals; the registrar checks the reveal against the stored
//! commitment, claims the name in the registry for itself, sets it up and
//! hands it to the owner, all or nothing.
use vstd::prelude::*;
use soroban_sdk::Env;
use crate::address::{is_authorized, Address, Digest};
use crate::host::{address_xdr, sha256, sha256_of};
use crate::namehash::{append_bytes, fold_hash, label_hash, namehash_of, root_node};
use crate::registry::{
    record_at, renew_step, set_owner_step, set_resolver_step, Record, Registry, RegistryError,
};
use crate::table::DigestMap;

verus! {

#[derive(Clone, Copy, Debug, PartialEq, Eq, Structural)]
pub struct RegistrarParams {
    pub min_label_len: u32,
    pub max_label_len: u32,
    pub commit_min_age_secs: u64,
    pub commit_max_age_secs: u64,
    pub renew_extension_secs: u64,
    pub grace_period_secs: u64,
}

#[derive(Clone, Copy, Debug, PartialEq, Eq, Structural)]
pub enum RegistrarError {
    AlreadyInitialized,
    NotInitialized,
    NotAdmin,
    NotOwner,
    InvalidLabel,
    CommitmentExists,
    CommitmentMissing,
    CommitmentTooFresh,
    CommitmentTooOld,
    NameNotAvailable,
    ExpiryUnavailable,
    InvalidParams,
    /// The caller did not authorize the invocation.
    Unauthorized,
    /// The registry refused one of the registrar's calls.
    Registry(RegistryError),
}

/// What a commitment stores: when it was made and the length of the hidden
/// label, nothing of the label itself.
#[derive(Clone, Copy, Debug, PartialEq, Eq, Structural)]
pub struct CommitmentInfo {
    pub timestamp: u64,
    pub label_len: u32,
}

#[derive(Clone, Copy, Debug, PartialEq, Eq)]
pub struct EvtCommitMade {
    pub commitment: Digest,
    pub at: u64,
    pub label_len: u32,
}

#[derive(Clone, Copy, Debug, PartialEq, Eq)]
pub struct EvtNameRegistered {
    pub namehash: Digest,
    pub owner: Address,
    pub expires_at: u64,
    pub ts: u64,
}

#[derive(Clone, Copy, Debug, PartialEq, Eq)]
pub struct EvtNameRenewed {
    pub namehash: Digest,
    pub expires_at: u64,
}

/// The parameters an initialized registrar starts with.
pub open spec fn default_params_spec() -> RegistrarParams {
    RegistrarParams {
        min_label_len: 1,
        max_label_len: 63,
        commit_min_age_secs: 60,
        commit_max_age_secs: 86_400,
        renew_extension_secs: 31_536_000,
        grace_period_secs: 7_776_000,
    }
}

pub fn default_params() -> (r: RegistrarParams)
    ensures
        r == default_params_spec(),
{
    RegistrarParams {
        min_label_len: 1,
        max_label_len: 63,
        commit_min_age_secs: 60,
        commit_max_age_secs: 86_400,
        renew_extension_secs: 31_536_000,
        grace_period_secs: 7_776_000,
    }
}

/// A consistent parameter tuple: `1 <= min <= max <= 63`, `0 < min_age <= max_age`,
/// and a positive extension and grace period.
pub open spec fn params_ok(p: RegistrarParams) -> bool {
    &&& 0 < p.min_label_len <= p.max_label_len <= 63
    &&& 0 < p.commit_min_age_secs <= p.commit_max_age_secs
    &&& 0 < p.renew_extension_secs
    &&& 0 < p.grace_period_secs
}

/// Byte `i` of `label` is a lower-case letter, a digit, or an inner hyphen.
pub open spec fn label_char_ok(label: Seq<u8>, i: int) -> bool {
    let b = label[i];
    ||| 97 <= b <= 122
    ||| 48 <= b <= 57
    ||| (b == 45 && i != 0 && i != label.len() - 1)
}

/// A label the registrar accepts: its length within the bounds, made of
/// `a-z`, `0-9` and `-`, and no hyphen first or last.
pub open spec fn label_valid(p: RegistrarParams, label: Seq<u8>) -> bool {
    &&& p.min_label_len <= label.len() <= p.max_label_len
    &&& forall|i: int| 0 <= i < label.len() ==> #[trigger] label_char_ok(label, i)
}

/// The commitment to registering `label` for `owner`: `H(label ++ xdr(owner) ++ secret)`.
pub open spec fn commitment_of(label: Seq<u8>, owner: Address, secret: Seq<u8>) -> Seq<u8> {
    sha256_of(label + owner.xdr() + secret)
}

/// The node of `label` under the top-level label `tld`.
pub open spec fn name_node(tld: Seq<u8>, label: Seq<u8>) -> Seq<u8> {
    namehash_of(seq![tld, label])
}

/// Whether, at `now`, a registration that expires at `expires_at` has also
/// outlived its grace period.
pub open spec fn grace_expired_spec(now: u64, expires_at: u64, grace: u64) -> bool {
    now > expires_at + grace
}

/// `now - ts`, or zero where `ts` lies ahead.
pub open spec fn age_of(now: u64, ts: u64) -> int {
    if now >= ts {
        now - ts
    } else {
        0
    }
}

/// The registrar's configuration, once initialized.
pub struct Config {
    pub registry: Address,
    pub tld: Seq<u8>,
    pub admin: Address,
    pub params: RegistrarParams,
}

pub struct RegistrarView {
    pub address: Address,
    pub config: Option<Config>,
    pub commitments: Map<Seq<u8>, CommitmentInfo>,
}

/// Whether a name whose node is `n` and whose label has `label_len` bytes can
/// be registered at `now`.
pub open spec fn available_at_spec(s: RegistrarView, reg: Map<Seq<u8>, Record>, label_len: int, n: Seq<u8>, now: u64) -> bool {
    match s.config {
        None => false,
        Some(c) => {
            if label_len == 0 || label_len < c.params.min_label_len || label_len > c.params.max_label_len {
                false
            } else {
                let rec = record_at(reg, n);
                match rec.owner {
                    None => true,
                    Some(_) => match rec.expires {
                        None => false,
                        Some(e) => grace_expired_spec(now, e, c.params.grace_period_secs),
                    },
                }
            }
        },
    }
}

/// Whether `label` can be registered at `now`.
pub open spec fn available_spec(s: RegistrarView, reg: Map<Seq<u8>, Record>, label: Seq<u8>, now: u64) -> bool {
    match s.config {
        None => false,
        Some(c) => available_at_spec(s, reg, label.len() as int, name_node(c.tld, label), now),
    }
}

/// The checks of a reveal, before the registry is touched, for the commitment
/// `c` and the node `n` of `label`.
pub open spec fn reveal_check(
    s: RegistrarView,
    reg: Map<Seq<u8>, Record>,
    signers: Seq<Address>,
    caller: Address,
    label: Seq<u8>,
    c: Seq<u8>,
    n: Seq<u8>,
    now: u64,
) -> Result<(), RegistrarError> {
    match s.config {
        None => Err(RegistrarError::NotInitialized),
        Some(cfg) => {
            let p = cfg.params;
            if !signers.contains(caller) {
                Err(RegistrarError::Unauthorized)
            } else if !label_valid(p, label) {
                Err(RegistrarError::InvalidLabel)
            } else if !s.commitments.contains_key(c) {
                Err(RegistrarError::CommitmentMissing)
            } else if age_of(now, s.commitments[c].timestamp) < p.commit_min_age_secs {
                Err(RegistrarError::CommitmentTooFresh)
            } else if age_of(now, s.commitments[c].timestamp) > p.commit_max_age_secs {
                Err(RegistrarError::CommitmentTooOld)
            } else if label.len() != s.commitments[c].label_len {
                Err(RegistrarError::InvalidLabel)
            } else if !available_at_spec(s, reg, label.len() as int, n, now) {
                Err(RegistrarError::NameNotAvailable)
            } else {
                Ok(())
            }
        },
    }
}

/// The registry calls of a registration, as one step: the registrar claims `n`,
/// sets the resolver if one is given, renews, and hands `n` to `owner`.
pub open spec fn handoff_step(
    reg: Map<Seq<u8>, Record>,
    signers: Seq<Address>,
    n: Seq<u8>,
    registrar: Address,
    owner: Address,
    resolver: Option<Address>,
    now: u64,
) -> Result<Map<Seq<u8>, Record>, RegistryError> {
    match set_owner_step(reg, signers, n, registrar) {
        Err(e) => Err(e),
        Ok(m1) => {
            let r2 = match resolver {
                Some(a) => set_resolver_step(m1, signers, n, a),
                None => Ok(m1),
            };
            match r2 {
                Err(e) => Err(e),
                Ok(m2) => match renew_step(m2, signers, n, now) {
                    Err(e) => Err(e),
                    Ok(m3) => set_owner_step(m3, signers, n, owner),
                },
            }
        },
    }
}

/// The outcome of a reveal: the registrar's and the registry's new states and
/// the new expiry of the name, or the error.
pub open spec fn reveal_outcome(
    s: RegistrarView,
    reg: Map<Seq<u8>, Record>,
    signers: Seq<Address>,
    caller: Address,
    label: Seq<u8>,
    owner: Address,
    c: Seq<u8>,
    n: Seq<u8>,
    resolver: Option<Address>,
    now: u64,
) -> Result<(RegistrarView, Map<Seq<u8>, Record>, u64), RegistrarError> {
    match reveal_check(s, reg, signers, caller, label, c, n, now) {
        Err(e) => Err(e),
        Ok(_) => match handoff_step(reg, signers.push(s.address), n, s.address, owner, resolver, now) {
            Err(e) => Err(RegistrarError::Registry(e)),
            Ok(m) => Ok((
                RegistrarView { commitments: s.commitments.remove(c), ..s },
                m,
                match record_at(m, n).expires {
                    Some(e) => e,
                    None => 0,
                },
            )),
        },
    }
}

/// What registering `label` for `owner` with `secret` leads to: the reveal of
/// its commitment at its node.
pub open spec fn register_outcome(
    s: RegistrarView,
    reg: Map<Seq<u8>, Record>,
    signers: Seq<Address>,
    caller: Address,
    label: Seq<u8>,
    owner: Address,
    secret: Seq<u8>,
    resolver: Option<Address>,
    now: u64,
) -> Result<(RegistrarView, Map<Seq<u8>, Record>, u64), RegistrarError> {
    match s.config {
        None => Err(RegistrarError::NotInitialized),
        Some(cfg) => reveal_outcome(
            s,
            reg,
            signers,
            caller,
            label,
            owner,
            commitment_of(label, owner, secret),
            name_node(cfg.tld, label),
            resolver,
            now,
        ),
    }
}

/// The checks of a commit.
pub open spec fn commit_check(s: RegistrarView, signers: Seq<Address>, caller: Address, c: Seq<u8>, label_len: u32) -> Result<(), RegistrarError> {
    match s.config {
        None => Err(RegistrarError::NotInitialized),
        Some(cfg) => if !signers.contains(caller) {
            Err(RegistrarError::Unauthorized)
        } else if label_len < cfg.params.min_label_len || label_len > cfg.params.max_label_len {
            Err(RegistrarError::InvalidLabel)
        } else if s.commitments.contains_key(c) {
            Err(RegistrarError::CommitmentExists)
        } else {
            Ok(())
        },
    }
}

/// What renewing `label`, whose node is `n`, leads to: the registry's new
/// state and the new expiry.
pub open spec fn renew_at_outcome(
    s: RegistrarView,
    reg: Map<Seq<u8>, Record>,
    signers: Seq<Address>,
    caller: Address,
    label: Seq<u8>,
    n: Seq<u8>,
    now: u64,
) -> Result<(Map<Seq<u8>, Record>, u64), RegistrarError> {
    match s.config {
        None => Err(RegistrarError::NotInitialized),
        Some(cfg) => {
            if !signers.contains(caller) {
                Err(RegistrarError::Unauthorized)
            } else if !label_valid(cfg.params, label) {
                Err(RegistrarError::InvalidLabel)
            } else if record_at(reg, n).owner != Some(caller) {
                Err(RegistrarError::NotOwner)
            } else {
                match renew_step(reg, signers.push(s.address), n, now) {
                    Err(e) => Err(RegistrarError::Registry(e)),
                    Ok(m) => match record_at(m, n).expires {
                        Some(e) => Ok((m, e)),
                        None => Err(RegistrarError::ExpiryUnavailable),
                    },
                }
            }
        },
    }
}

/// What renewing `label` leads to: the renewal at its node.
pub open spec fn renew_outcome(
    s: RegistrarView,
    reg: Map<Seq<u8>, Record>,
    signers: Seq<Address>,
    caller: Address,
    label: Seq<u8>,
    now: u64,
) -> Result<(Map<Seq<u8>, Record>, u64), RegistrarError> {
    match s.config {
        None => Err(RegistrarError::NotInitialized),
        Some(cfg) => renew_at_outcome(s, reg, signers, caller, label, name_node(cfg.tld, label), now),
    }
}

/// The checks of a parameter update.
pub open spec fn set_params_check(s: RegistrarView, signers: Seq<Address>, caller: Address, params: RegistrarParams) -> Result<(), RegistrarError> {
    match s.config {
        None => Err(RegistrarError::NotInitialized),
        Some(cfg) => if !signers.contains(caller) {
            Err(RegistrarError::Unauthorized)
        } else if cfg.admin != caller {
            Err(RegistrarError::NotAdmin)
        } else if !params_ok(params) {
            Err(RegistrarError::InvalidParams)
        } else {
            Ok(())
        },
    }
}

/// The setup an initialized registrar keeps.
struct Setup {
    registry: Address,
    tld: Vec<u8>,
    admin: Address,
    params: RegistrarParams,
}

impl Setup {
    #[verifier::type_invariant]
    spec fn inv(self) -> bool {
        &&& 0 < self.tld@.len() <= u32::MAX
        &&& params_ok(self.params)
    }
}

pub struct Registrar {
    address: Address,
    setup: Option<Setup>,
    commitments: DigestMap<CommitmentInfo>,
}

/// `signers` together with `a`.
fn with_signer(signers: &Vec<Address>, a: Address) -> (r: Vec<Address>)
    ensures
        r@ == signers@.push(a),
{
    let mut r: Vec<Address> = Vec::new();
    let mut i: usize = 0;
    while i < signers.len()
        invariant
            i <= signers@.len(),
            r@ == signers@.subrange(0, i as int),
        decreases signers@.len() - i,
    {
        r.push(signers[i]);
        i = i + 1;
    }
    assert(signers@.subrange(0, i as int) =~= signers@);
    r.push(a);
    r
}

/// Whether every byte of `label` is a lower-case letter, a digit, or an inner hyphen.
fn label_chars_ok(label: &Vec<u8>) -> (r: bool)
    ensures
        r == forall|i: int| 0 <= i < label@.len() ==> #[trigger] label_char_ok(label@, i),
{
    let len = label.len();
    let mut i: usize = 0;
    while i < len
        invariant
            len == label@.len(),
            i <= len,
            forall|j: int| 0 <= j < i ==> #[trigger] label_char_ok(label@, j),
        decreases len - i,
    {
        let b = label[i];
        let ok = (97 <= b && b <= 122) || (48 <= b && b <= 57) || (b == 45 && i != 0 && i != len - 1);
        if !ok {
            assert(!label_char_ok(label@, i as int));
            return false;
        }
        i = i + 1;
    }
    true
}

/// Whether `now`, a registration expiring at `expires_at` has outlived its
/// grace period too. The sum saturates: an expiry that never ends stays unexpired.
pub fn grace_expired(now: u64, expires_at: u64, grace: u64) -> (r: bool)
    ensures
        r == grace_expired_spec(now, expires_at, grace),
{
    if now <= expires_at {
        return false;
    }
    let grace_end = match expires_at.checked_add(grace) {
        Some(e) => e,
        None => u64::MAX,
    };
    now > grace_end
}


/// The commitment to registering `label` for `owner` with `secret`.
pub fn compute_commitment(env: &Env, label: &Vec<u8>, owner: &Address, secret: &Vec<u8>) -> (r: Digest)
    requires
        label@.len() + secret@.len() + 44 <= u32::MAX,
    ensures
        r@ == commitment_of(label@, *owner, secret@),
{
    let owner_bytes = address_xdr(env, owner);
    let mut data: Vec<u8> = Vec::new();
    append_bytes(&mut data, label.as_slice());
    append_bytes(&mut data, owner_bytes.as_slice());
    append_bytes(&mut data, secret.as_slice());
    assert(data@ =~= label@ + owner.xdr() + secret@);
    sha256(env, data.as_slice())
}

/// The node of `label` under `tld`.
fn node_of(env: &Env, tld: &Vec<u8>, label: &Vec<u8>) -> (r: Digest)
    requires
        tld@.len() <= u32::MAX,
        label@.len() <= u32::MAX,
    ensures
        r@ == name_node(tld@, label@),
{
    let root = root_node();
    let tld_hash = label_hash(env, tld.as_slice());
    let top = fold_hash(env, &root, &tld_hash);
    let h = label_hash(env, label.as_slice());
    let node = fold_hash(env, &top, &h);
    proof {
        let labels = seq![tld@, label@];
        assert(labels.drop_last() =~= seq![tld@]);
        assert(seq![tld@].drop_last() =~= Seq::<Seq<u8>>::empty());
        assert(seq![tld@].last() == tld@);
        assert(labels.last() == label@);
        assert(namehash_of(Seq::<Seq<u8>>::empty()) == root@);
        assert(namehash_of(seq![tld@]) == top@);
    }
    node
}

impl Registrar {
    pub closed spec fn view(&self) -> RegistrarView {
        RegistrarView {
            address: self.address,
            config: match self.setup {
                Some(s) => Some(Config { registry: s.registry, tld: s.tld@, admin: s.admin, params: s.params }),
                None => None,
            },
            commitments: self.commitments@,
        }
    }

    /// A registrar not yet initialized, deployed at `address`.
    pub fn new(address: Address) -> (r: Registrar)
        ensures
            r@ == (RegistrarView { address, config: None, commitments: Map::empty() }),
    {
        Registrar { address, setup: None, commitments: DigestMap::new() }
    }

    /// A set-up registrar deployed at `address`, as read back from persistent
    /// storage; `None` where the stored setup is not one `init` and
    /// `set_params` could have left.
    pub fn from_stored(address: Address, registry: Address, tld: Vec<u8>, admin: Address, params: RegistrarParams) -> (r: Option<Registrar>)
        requires
            tld@.len() <= u32::MAX,
        ensures
            r is Some <==> tld@.len() > 0 && params_ok(params),
            r is Some ==> r->Some_0@ == (RegistrarView {
                address,
                config: Some(Config { registry, tld: tld@, admin, params }),
                commitments: Map::empty(),
            }),
    {
        if tld.len() == 0 || params.min_label_len == 0 || params.min_label_len > params.max_label_len
            || params.max_label_len > 63 || params.commit_min_age_secs == 0
            || params.commit_min_age_secs > params.commit_max_age_secs || params.renew_extension_secs == 0
            || params.grace_period_secs == 0 {
            return None;
        }
        Some(Registrar { address, setup: Some(Setup { registry, tld, admin, params }), commitments: DigestMap::new() })
    }

    /// Puts back a commitment read from persistent storage.
    pub fn load_commitment(&mut self, commitment: Digest, info: CommitmentInfo)
        ensures
            final(self)@ == (RegistrarView { commitments: old(self)@.commitments.insert(commitment@, info), ..old(self)@ }),
    {
        self.commitments.insert(commitment, info);
    }

    /// One-time setup: the registry used, the top-level label and the admin;
    /// the parameters start at their defaults.
    pub fn init(&mut self, registry: Address, tld: Vec<u8>, admin: Address) -> (r: Result<(), RegistrarError>)
        requires
            tld@.len() <= u32::MAX,
        ensures
            old(self)@.config is Some ==> r == Err::<(), RegistrarError>(RegistrarError::AlreadyInitialized)
                && final(self)@ == old(self)@,
            old(self)@.config is None && tld@.len() == 0 ==> r == Err::<(), RegistrarError>(RegistrarError::InvalidLabel)
                && final(self)@ == old(self)@,
            old(self)@.config is None && tld@.len() > 0 ==> r == Ok::<(), RegistrarError>(()) && final(self)@ == (RegistrarView {
                config: Some(Config { registry, tld: tld@, admin, params: default_params_spec() }),
                ..old(self)@
            }),
    {
        if self.setup.is_some() {
            return Err(RegistrarError::AlreadyInitialized);
        }
        if tld.len() == 0 {
            return Err(RegistrarError::InvalidLabel);
        }
        let params = default_params();
        self.setup = Some(Setup { registry, tld, admin, params });
        Ok(())
    }

    /// Records a commitment made at `now` to a label of `label_len` bytes.
    pub fn commit(&mut self, signers: &Vec<Address>, caller: Address, commitment: Digest, label_len: u32, now: u64) -> (r: Result<EvtCommitMade, RegistrarError>)
        ensures
            match commit_check(old(self)@, signers@, caller, commitment@, label_len) {
                Err(e) => r == Err::<EvtCommitMade, RegistrarError>(e) && final(self)@ == old(self)@,
                Ok(_) => r == Ok::<EvtCommitMade, RegistrarError>((EvtCommitMade { commitment, at: now, label_len }))
                    && final(self)@ == (RegistrarView {
                        commitments: old(self)@.commitments.insert(commitment@, (CommitmentInfo { timestamp: now, label_len })),
                        ..old(self)@
                    }),
            },
    {
        let params = match &self.setup {
            None => return Err(RegistrarError::NotInitialized),
            Some(s) => s.params,
        };
        if !is_authorized(signers, &caller) {
            return Err(RegistrarError::Unauthorized);
        }
        if label_len < params.min_label_len || label_len > params.max_label_len {
            return Err(RegistrarError::InvalidLabel);
        }
        if self.commitments.contains(&commitment) {
            return Err(RegistrarError::CommitmentExists);
        }
        self.commitments.insert(commitment, CommitmentInfo { timestamp: now, label_len });
        Ok(EvtCommitMade { commitment, at: now, label_len })
    }

    /// The stored commitment `commitment`, if any.
    pub fn commitment_info(&self, commitment: &Digest) -> (r: Option<CommitmentInfo>)
        ensures
            r == (if self@.commitments.contains_key(commitment@) {
                Some(self@.commitments[commitment@])
            } else {
                None::<CommitmentInfo>
            }),
    {
        self.commitments.get(commitment)
    }

    /// Whether a label of `label_len` bytes whose node is `node` can be registered at `now`.
    pub fn available_at(&self, registry: &Registry, label_len: usize, node: &Digest, now: u64) -> (r: bool)
        ensures
            r == available_at_spec(self@, registry@, label_len as int, node@, now),
    {
        let params = match &self.setup {
            None => return false,
            Some(s) => s.params,
        };
        if label_len == 0 || label_len < params.min_label_len as usize || label_len > params.max_label_len as usize {
            return false;
        }
        let rec = registry.record(node);
        match rec.owner {
            None => true,
            Some(_) => match rec.expires {
                None => false,
                Some(e) => grace_expired(now, e, params.grace_period_secs),
            },
        }
    }

    /// Whether `label` can be registered at `now`.
    pub fn available(&self, env: &Env, registry: &Registry, label: &Vec<u8>, now: u64) -> (r: bool)
        ensures
            r == available_spec(self@, registry@, label@, now),
    {
        if label.len() == 0 {
            return false;
        }
        let node = match &self.setup {
            None => return false,
            Some(s) => {
                proof {
                    use_type_invariant(s);
                }
                if label.len() < s.params.min_label_len as usize || label.len() > s.params.max_label_len as usize {
                    return false;
                }
                node_of(env, &s.tld, label)
            },
        };
        self.available_at(registry, label.len(), &node, now)
    }

    /// Reveals the registration of `label` for `owner`, whose commitment is
    /// `commitment` and whose node is `node`: checks it, then claims the node,
    /// sets its resolver, renews it and hands it to `owner` in the registry.
    /// Any failure leaves the registrar and the registry as they were.
    pub fn register_at(
        &mut self,
        registry: &mut Registry,
        signers: &Vec<Address>,
        caller: Address,
        label: &Vec<u8>,
        owner: Address,
        commitment: &Digest,
        node: &Digest,
        resolver: Option<Address>,
        now: u64,
    ) -> (r: Result<EvtNameRegistered, RegistrarError>)
        ensures
            match reveal_outcome(old(self)@, old(registry)@, signers@, caller, label@, owner, commitment@, node@, resolver, now) {
                Ok((s, m, expires_at)) => final(self)@ == s && final(registry)@ == m
                    && r == Ok::<EvtNameRegistered, RegistrarError>((EvtNameRegistered { namehash: *node, owner, expires_at, ts: now })),
                Err(e) => r == Err::<EvtNameRegistered, RegistrarError>(e) && final(self)@ == old(self)@
                    && final(registry)@ == old(registry)@,
            },
    {
        let params = match &self.setup {
            None => return Err(RegistrarError::NotInitialized),
            Some(s) => s.params,
        };
        if !is_authorized(signers, &caller) {
            return Err(RegistrarError::Unauthorized);
        }
        if label.len() < params.min_label_len as usize || label.len() > params.max_label_len as usize
            || !label_chars_ok(label) {
            return Err(RegistrarError::InvalidLabel);
        }
        let info = match self.commitments.get(commitment) {
            None => return Err(RegistrarError::CommitmentMissing),
            Some(i) => i,
        };
        let age = if now >= info.timestamp {
            now - info.timestamp
        } else {
            0
        };
        if age < params.commit_min_age_secs {
            return Err(RegistrarError::CommitmentTooFresh);
        }
        if age > params.commit_max_age_secs {
            return Err(RegistrarError::CommitmentTooOld);
        }
        if label.len() != info.label_len as usize {
            return Err(RegistrarError::InvalidLabel);
        }
        if !self.available_at(registry, label.len(), node, now) {
            return Err(RegistrarError::NameNotAvailable);
        }
        let ghost reg0 = registry@;
        let nested = with_signer(signers, self.address);
        let saved = registry.entry(node);
        if let Err(e) = registry.set_owner(&nested, *node, self.address) {
            return Err(RegistrarError::Registry(e));
        }
        if let Some(a) = resolver {
            if let Err(e) = registry.set_resolver(&nested, *node, a) {
                registry.restore(node, saved);
                assert(registry@ =~= reg0);
                return Err(RegistrarError::Registry(e));
            }
        }
        if let Err(e) = registry.renew(&nested, *node, now) {
            registry.restore(node, saved);
            assert(registry@ =~= reg0);
            return Err(RegistrarError::Registry(e));
        }
        if let Err(e) = registry.set_owner(&nested, *node, owner) {
            registry.restore(node, saved);
            assert(registry@ =~= reg0);
            return Err(RegistrarError::Registry(e));
        }
        self.commitments.remove(commitment);
        let expires_at = match registry.expires(node) {
            Ok(e) => e,
            Err(_) => 0,
        };
        Ok(EvtNameRegistered { namehash: *node, owner, expires_at, ts: now })
    }

    /// Registers `label` for `owner` against the commitment made with `secret`
    /// (see `register_at`), and returns the registration's event.
    pub fn register(
        &mut self,
        env: &Env,
        registry: &mut Registry,
        signers: &Vec<Address>,
        caller: Address,
        label: &Vec<u8>,
        owner: Address,
        secret: &Vec<u8>,
        resolver: Option<Address>,
        now: u64,
    ) -> (r: Result<EvtNameRegistered, RegistrarError>)
        requires
            // the host hashes at most u32::MAX bytes; label and owner take at most 107
            secret@.len() + 128 <= u32::MAX,
        ensures
            match register_outcome(old(self)@, old(registry)@, signers@, caller, label@, owner, secret@, resolver, now) {
                Ok((s, m, expires_at)) => final(self)@ == s && final(registry)@ == m && r is Ok
                    && r->Ok_0.namehash@ == name_node(old(self)@.config->Some_0.tld, label@)
                    && r->Ok_0.owner == owner && r->Ok_0.expires_at == expires_at && r->Ok_0.ts == now,
                Err(e) => r == Err::<EvtNameRegistered, RegistrarError>(e) && final(self)@ == old(self)@
                    && final(registry)@ == old(registry)@,
            },
    {
        let (commitment, node) = match &self.setup {
            None => return Err(RegistrarError::NotInitialized),
            Some(s) => {
                proof {
                    use_type_invariant(s);
                }
                if !is_authorized(signers, &caller) {
                    return Err(RegistrarError::Unauthorized);
                }
                if label.len() < s.params.min_label_len as usize || label.len() > s.params.max_label_len as usize
                    || !label_chars_ok(label) {
                    return Err(RegistrarError::InvalidLabel);
                }
                (compute_commitment(env, label, &owner, secret), node_of(env, &s.tld, label))
            },
        };
        self.register_at(registry, signers, caller, label, owner, &commitment, &node, resolver, now)
    }

    /// Extends the registration of `label`, whose node is `node`; only its
    /// owner may.
    pub fn renew_at(&self, registry: &mut Registry, signers: &Vec<Address>, caller: Address, label: &Vec<u8>, node: &Digest, now: u64) -> (r: Result<EvtNameRenewed, RegistrarError>)
        ensures
            match renew_at_outcome(self@, old(registry)@, signers@, caller, label@, node@, now) {
                Ok((m, expires_at)) => final(registry)@ == m
                    && r == Ok::<EvtNameRenewed, RegistrarError>((EvtNameRenewed { namehash: *node, expires_at })),
                Err(e) => r == Err::<EvtNameRenewed, RegistrarError>(e) && final(registry)@ == old(registry)@,
            },
    {
        let params = match &self.setup {
            None => return Err(RegistrarError::NotInitialized),
            Some(s) => s.params,
        };
        if !is_authorized(signers, &caller) {
            return Err(RegistrarError::Unauthorized);
        }
        if label.len() < params.min_label_len as usize || label.len() > params.max_label_len as usize
            || !label_chars_ok(label) {
            return Err(RegistrarError::InvalidLabel);
        }
        match registry.owner(node) {
            Ok(o) => {
                if o != caller {
                    return Err(RegistrarError::NotOwner);
                }
            },
            Err(_) => return Err(RegistrarError::NotOwner),
        }
        let nested = with_signer(signers, self.address);
        if let Err(e) = registry.renew(&nested, *node, now) {
            return Err(RegistrarError::Registry(e));
        }
        match registry.expires(node) {
            Ok(expires_at) => Ok(EvtNameRenewed { namehash: *node, expires_at }),
            Err(_) => Err(RegistrarError::ExpiryUnavailable),
        }
    }

    /// Extends the registration of `label` (see `renew_at`).
    pub fn renew(&self, env: &Env, registry: &mut Registry, signers: &Vec<Address>, caller: Address, label: &Vec<u8>, now: u64) -> (r: Result<EvtNameRenewed, RegistrarError>)
        ensures
            match renew_outcome(self@, old(registry)@, signers@, caller, label@, now) {
                Ok((m, expires_at)) => final(registry)@ == m && r is Ok
                    && r->Ok_0.namehash@ == name_node(self@.config->Some_0.tld, label@)
                    && r->Ok_0.expires_at == expires_at,
                Err(e) => r == Err::<EvtNameRenewed, RegistrarError>(e) && final(registry)@ == old(registry)@,
            },
    {
        let node = match &self.setup {
            None => return Err(RegistrarError::NotInitialized),
            Some(s) => {
                proof {
                    use_type_invariant(s);
                }
                if !is_authorized(signers, &caller) {
                    return Err(RegistrarError::Unauthorized);
                }
                if label.len() < s.params.min_label_len as usize || label.len() > s.params.max_label_len as usize
                    || !label_chars_ok(label) {
                    return Err(RegistrarError::InvalidLabel);
                }
                node_of(env, &s.tld, label)
            },
        };
        self.renew_at(registry, signers, caller, label, &node, now)
    }

    /// Replaces the parameters (admin only) with a consistent tuple.
    pub fn set_params(&mut self, signers: &Vec<Address>, caller: Address, params: RegistrarParams) -> (r: Result<(), RegistrarError>)
        ensures
            match set_params_check(old(self)@, signers@, caller, params) {
                Err(e) => r == Err::<(), RegistrarError>(e) && final(self)@ == old(self)@,
                Ok(_) => r == Ok::<(), RegistrarError>(()) && final(self)@ == (RegistrarView {
                    config: Some(Config { params, ..old(self)@.config->Some_0 }),
                    ..old(self)@
                }),
            },
    {
        let (registry, tld, admin) = match &self.setup {
            None => return Err(RegistrarError::NotInitialized),
            Some(s) => {
                proof {
                    use_type_invariant(s);
                }
                let tld = s.tld.clone();
                assert(tld@ =~= s.tld@);
                (s.registry, tld, s.admin)
            },
        };
        if !is_authorized(signers, &caller) {
            return Err(RegistrarError::Unauthorized);
        }
        if admin != caller {
            return Err(RegistrarError::NotAdmin);
        }
        if params.min_label_len == 0 || params.min_label_len > params.max_label_len || params.max_label_len > 63
            || params.commit_min_age_secs == 0 || params.commit_min_age_secs > params.commit_max_age_secs
            || params.renew_extension_secs == 0 || params.grace_period_secs == 0 {
            return Err(RegistrarError::InvalidParams);
        }
        self.setup = Some(Setup { registry, tld, admin, params });
        Ok(())
    }

    /// The current parameters.
    pub fn params(&self) -> (r: Result<RegistrarParams, RegistrarError>)
        ensures
            r == (match self@.config {
                Some(c) => Ok::<RegistrarParams, RegistrarError>(c.params),
                None => Err(RegistrarError::NotInitialized),
            }),
    {
        match &self.setup {
            Some(s) => Ok(s.params),
            None => Err(RegistrarError::NotInitialized),
        }
    }

    /// The address of the registry this registrar registers in.
    pub fn registry(&self) -> (r: Result<Address, RegistrarError>)
        ensures
            r == (match self@.config {
                Some(c) => Ok::<Address, RegistrarError>(c.registry),
                None => Err(RegistrarError::NotInitialized),
            }),
    {
        match &self.setup {
            Some(s) => Ok(s.registry),
            None => Err(RegistrarError::NotInitialized),
        }
    }
}

} // verus!
