//! Properties of the naming service that relate several operations, proved
//! over the contracts of the operations.
use vstd::prelude::*;
use crate::address::Address;
use crate::namehash::{namehash_of, zero_node};
use crate::registrar::{
    available_at_spec, available_spec, commit_check, commitment_of, label_valid, name_node,
    register_outcome, reveal_check, CommitmentInfo, RegistrarError, RegistrarView,
};
use crate::resolver::{set_addr_check, set_text_check, ResolverView};
use crate::registry::{
    record_at, renew_step, set_owner_step, set_resolver_step, transfer_step, Record,
    RENEW_EXTENSION_SECONDS,
};

verus! {

/// A commit stores only when it was made and how long the hidden label is: two
/// commits to different labels of one length, made at one time, store equal
/// records, each under its own commitment.
pub proof fn commitment_hides_label(
    s: RegistrarView,
    signers: Seq<Address>,
    caller: Address,
    label_a: Seq<u8>,
    owner_a: Address,
    secret_a: Seq<u8>,
    label_b: Seq<u8>,
    owner_b: Address,
    secret_b: Seq<u8>,
    label_len: u32,
    now: u64,
)
    requires
        label_a.len() == label_len,
        label_b.len() == label_len,
    ensures
        ({
            let ca = commitment_of(label_a, owner_a, secret_a);
            let cb = commitment_of(label_b, owner_b, secret_b);
            commit_check(s, signers, caller, ca, label_len) is Ok && commit_check(s, signers, caller, cb, label_len) is Ok
                ==> s.commitments.insert(ca, (CommitmentInfo { timestamp: now, label_len }))[ca]
                == s.commitments.insert(cb, (CommitmentInfo { timestamp: now, label_len }))[cb]
        }),
{
}

/// A registration goes through only against a commitment stored for exactly
/// the label, owner and secret presented: without one it fails, with
/// `CommitmentMissing` once the registrar is set up, the caller authorized and
/// the label well formed.
pub proof fn register_needs_matching_commitment(
    s: RegistrarView,
    reg: Map<Seq<u8>, Record>,
    signers: Seq<Address>,
    caller: Address,
    label: Seq<u8>,
    owner: Address,
    secret: Seq<u8>,
    resolver: Option<Address>,
    now: u64,
)
    requires
        !s.commitments.contains_key(commitment_of(label, owner, secret)),
    ensures
        register_outcome(s, reg, signers, caller, label, owner, secret, resolver, now) is Err,
        s.config is Some && signers.contains(caller) && label_valid(s.config->Some_0.params, label)
            ==> register_outcome(s, reg, signers, caller, label, owner, secret, resolver, now)
            == Err::<(RegistrarView, Map<Seq<u8>, Record>, u64), RegistrarError>(RegistrarError::CommitmentMissing),
{
}

/// A reveal refused because the name was taken leaves its commitment usable:
/// the checks then depend on the registry only through availability, so the
/// same reveal passes them once the name is available.
pub proof fn refused_commitment_stays_usable(
    s: RegistrarView,
    reg_then: Map<Seq<u8>, Record>,
    reg_later: Map<Seq<u8>, Record>,
    signers: Seq<Address>,
    caller: Address,
    label: Seq<u8>,
    c: Seq<u8>,
    n: Seq<u8>,
    now: u64,
)
    requires
        reveal_check(s, reg_then, signers, caller, label, c, n, now) == Err::<(), RegistrarError>(RegistrarError::NameNotAvailable),
        available_at_spec(s, reg_later, label.len() as int, n, now),
    ensures
        s.commitments.contains_key(c),
        reveal_check(s, reg_later, signers, caller, label, c, n, now) == Ok::<(), RegistrarError>(()),
{
}

/// A name nobody owns is available, given a set-up registrar and a label of an
/// accepted length.
pub proof fn unowned_name_is_available(s: RegistrarView, reg: Map<Seq<u8>, Record>, label: Seq<u8>, now: u64)
    requires
        s.config is Some,
        0 < label.len(),
        s.config->Some_0.params.min_label_len <= label.len() <= s.config->Some_0.params.max_label_len,
        record_at(reg, name_node(s.config->Some_0.tld, label)).owner is None,
    ensures
        available_spec(s, reg, label, now),
{
}

/// Right after a registration the name is no longer available.
pub proof fn registered_name_is_unavailable(
    s: RegistrarView,
    reg: Map<Seq<u8>, Record>,
    signers: Seq<Address>,
    caller: Address,
    label: Seq<u8>,
    owner: Address,
    secret: Seq<u8>,
    resolver: Option<Address>,
    now: u64,
)
    requires
        register_outcome(s, reg, signers, caller, label, owner, secret, resolver, now) is Ok,
    ensures
        ({
            let (s2, m2, _e) = register_outcome(s, reg, signers, caller, label, owner, secret, resolver, now)->Ok_0;
            !available_spec(s2, m2, label, now)
        }),
{
}

/// An owned name stays unavailable through its grace period, up to and
/// including `expiry + grace`, and is available one second later.
pub proof fn availability_after_grace(s: RegistrarView, reg: Map<Seq<u8>, Record>, label: Seq<u8>, expiry: u64)
    requires
        s.config is Some,
        0 < label.len(),
        s.config->Some_0.params.min_label_len <= label.len() <= s.config->Some_0.params.max_label_len,
        record_at(reg, name_node(s.config->Some_0.tld, label)).owner is Some,
        record_at(reg, name_node(s.config->Some_0.tld, label)).expires == Some(expiry),
        expiry + s.config->Some_0.params.grace_period_secs + 1 <= u64::MAX,
    ensures
        !available_spec(s, reg, label, (expiry + s.config->Some_0.params.grace_period_secs) as u64),
        available_spec(s, reg, label, (expiry + s.config->Some_0.params.grace_period_secs + 1) as u64),
{
}

/// A registry change to name `a` leaves the record of every other name as it was.
pub proof fn registry_changes_stay_with_their_name(
    m: Map<Seq<u8>, Record>,
    signers: Seq<Address>,
    a: Seq<u8>,
    b: Seq<u8>,
    who: Address,
    now: u64,
)
    requires
        a != b,
    ensures
        set_owner_step(m, signers, a, who) is Ok ==> record_at(set_owner_step(m, signers, a, who)->Ok_0, b) == record_at(m, b),
        transfer_step(m, signers, a, who) is Ok ==> record_at(transfer_step(m, signers, a, who)->Ok_0, b) == record_at(m, b),
        set_resolver_step(m, signers, a, who) is Ok ==> record_at(set_resolver_step(m, signers, a, who)->Ok_0, b) == record_at(m, b),
        renew_step(m, signers, a, now) is Ok ==> record_at(renew_step(m, signers, a, now)->Ok_0, b) == record_at(m, b),
{
}

/// The name hash of no labels is the all-zero root.
pub proof fn namehash_of_root()
    ensures
        namehash_of(Seq::<Seq<u8>>::empty()) == zero_node(),
{
}

/// The name hash depends on the labels alone: equal labels give equal hashes.
pub proof fn namehash_is_deterministic(labels_a: Seq<Seq<u8>>, labels_b: Seq<Seq<u8>>)
    requires
        labels_a == labels_b,
    ensures
        namehash_of(labels_a) == namehash_of(labels_b),
{
}

/// The registrar's node for `label` is the registry's name hash of `[tld, label]`.
pub proof fn registrar_node_is_registry_namehash(tld: Seq<u8>, label: Seq<u8>)
    ensures
        name_node(tld, label) == namehash_of(seq![tld, label]),
{
}

/// Renewing a name that has not expired adds one extension to its expiry;
/// renewing one that has expired gives it one extension from `now`.
pub proof fn renew_extends_expiry(m: Map<Seq<u8>, Record>, signers: Seq<Address>, n: Seq<u8>, now: u64, expiry: u64)
    requires
        record_at(m, n).owner is Some,
        signers.contains(record_at(m, n).owner->Some_0),
        record_at(m, n).expires == Some(expiry),
    ensures
        expiry > now && expiry + RENEW_EXTENSION_SECONDS <= u64::MAX ==> renew_step(m, signers, n, now) is Ok
            && record_at(renew_step(m, signers, n, now)->Ok_0, n).expires == Some((expiry + RENEW_EXTENSION_SECONDS) as u64),
        expiry <= now && now + RENEW_EXTENSION_SECONDS <= u64::MAX ==> renew_step(m, signers, n, now) is Ok
            && record_at(renew_step(m, signers, n, now)->Ok_0, n).expires == Some((now + RENEW_EXTENSION_SECONDS) as u64),
{
}

/// A first registration gives the name to the requested owner with an expiry
/// one extension past `now`, and consumes the commitment: the same
/// registration presented again fails with `CommitmentMissing`.
pub proof fn registration_consumes_commitment(
    s: RegistrarView,
    reg: Map<Seq<u8>, Record>,
    signers: Seq<Address>,
    caller: Address,
    label: Seq<u8>,
    owner: Address,
    secret: Seq<u8>,
    resolver: Option<Address>,
    now: u64,
)
    requires
        register_outcome(s, reg, signers, caller, label, owner, secret, resolver, now) is Ok,
        s.config is Some,
        record_at(reg, name_node(s.config->Some_0.tld, label)).expires is None,
    ensures
        ({
            let (s2, m2, expires_at) = register_outcome(s, reg, signers, caller, label, owner, secret, resolver, now)->Ok_0;
            let n = name_node(s.config->Some_0.tld, label);
            &&& record_at(m2, n).owner == Some(owner)
            &&& expires_at == now + RENEW_EXTENSION_SECONDS
            &&& record_at(m2, n).expires == Some(expires_at)
            &&& register_outcome(s2, m2, signers, caller, label, owner, secret, resolver, now)
                == Err::<(RegistrarView, Map<Seq<u8>, Record>, u64), RegistrarError>(RegistrarError::CommitmentMissing)
        }),
{
}

/// The resolver checks ownership against the registry at each write: once a
/// name has passed to another owner, its former owner can no longer write its
/// address or text records.
pub proof fn former_owner_cannot_write(
    s: ResolverView,
    m: Map<Seq<u8>, Record>,
    signers: Seq<Address>,
    n: Seq<u8>,
    former: Address,
    to: Address,
    key: Seq<u8>,
)
    requires
        transfer_step(m, signers, n, to) is Ok,
        former != to,
    ensures
        set_addr_check(s, transfer_step(m, signers, n, to)->Ok_0, signers, former, n) is Err,
        set_text_check(s, transfer_step(m, signers, n, to)->Ok_0, signers, former, n, key) is Err,
{
}

} // verus!
