use name_service::address::Address;
use name_service::registrar::{
    compute_commitment, default_params, grace_expired, EvtCommitMade, Registrar, RegistrarError,
    RegistrarParams,
};
use name_service::registry::{Registry, RegistryError, RENEW_EXTENSION_SECONDS};
use soroban_sdk::Env;

fn account(n: u8) -> Address {
    Address::Account([n; 32])
}

fn registrar_address() -> Address {
    Address::Contract([200u8; 32])
}

fn setup_env() -> (Env, Registry, Registrar, Address) {
    let env = Env::default();
    let registry = Registry::new();
    let mut registrar = Registrar::new(registrar_address());
    let admin = account(99);
    registrar.init(Address::Contract([100u8; 32]), b"stellar".to_vec(), admin).unwrap();
    (env, registry, registrar, admin)
}

fn make_label(text: &str) -> Vec<u8> {
    text.as_bytes().to_vec()
}

fn expected_namehash(env: &Env, label: &[u8]) -> [u8; 32] {
    Registry::namehash(env, &vec![b"stellar".to_vec(), label.to_vec()]).unwrap()
}

/// Commits at `now`, registers once the minimum age has passed, and returns the
/// node and the time of registration.
fn register_name(
    env: &Env,
    registry: &mut Registry,
    registrar: &mut Registrar,
    caller: Address,
    label: &Vec<u8>,
    owner: Address,
    secret: &Vec<u8>,
    resolver: Option<Address>,
    now: u64,
) -> ([u8; 32], u64) {
    let commitment = compute_commitment(env, label, &owner, secret);
    registrar.commit(&vec![caller], caller, commitment, label.len() as u32, now).unwrap();
    let params = registrar.params().unwrap();
    let later = now + params.commit_min_age_secs;
    let evt = registrar
        .register(env, registry, &vec![caller], caller, label, owner, secret, resolver, later)
        .unwrap();
    assert_eq!(evt.namehash, expected_namehash(env, label));
    assert_eq!(registry.owner(&evt.namehash), Ok(owner));
    (evt.namehash, later)
}

#[test]
fn init_only_once() {
    let (_env, _registry, mut registrar, admin) = setup_env();
    let second = registrar.init(Address::Contract([100u8; 32]), b"stellar".to_vec(), admin);
    assert_eq!(second, Err(RegistrarError::AlreadyInitialized));
}

#[test]
fn init_rejects_empty_tld() {
    let mut registrar = Registrar::new(registrar_address());
    assert_eq!(registrar.init(account(1), Vec::new(), account(2)), Err(RegistrarError::InvalidLabel));
    assert_eq!(registrar.params(), Err(RegistrarError::NotInitialized));
    assert_eq!(registrar.registry(), Err(RegistrarError::NotInitialized));
}

#[test]
fn default_params_values() {
    let p = default_params();
    assert_eq!(
        p,
        RegistrarParams {
            min_label_len: 1,
            max_label_len: 63,
            commit_min_age_secs: 60,
            commit_max_age_secs: 86_400,
            renew_extension_secs: 31_536_000,
            grace_period_secs: 7_776_000,
        }
    );
    let (_env, _registry, registrar, _admin) = setup_env();
    assert_eq!(registrar.params(), Ok(p));
    assert_eq!(registrar.registry(), Ok(Address::Contract([100u8; 32])));
}

#[test]
fn commit_register_happy_path() {
    let (env, mut registry, mut registrar, _) = setup_env();
    let caller = account(1);
    let owner = account(2);
    let resolver = account(3);
    let label = make_label("alice");
    let secret = b"secret".to_vec();

    let commitment = compute_commitment(&env, &label, &owner, &secret);
    let commit_evt = registrar.commit(&vec![caller], caller, commitment, label.len() as u32, 1_000).unwrap();
    assert_eq!(commit_evt, EvtCommitMade { commitment, at: 1_000, label_len: 5 });

    let params = registrar.params().unwrap();
    let now = 1_000 + params.commit_min_age_secs;
    let evt = registrar
        .register(&env, &mut registry, &vec![caller], caller, &label, owner, &secret, Some(resolver), now)
        .unwrap();
    let namehash = evt.namehash;

    assert_eq!(registry.owner(&namehash), Ok(owner));
    let expires = registry.expires(&namehash).unwrap();
    assert_eq!(expires, now.checked_add(RENEW_EXTENSION_SECONDS).unwrap());
    assert_eq!(registry.resolver(&namehash), Ok(resolver));
    assert_eq!(evt.namehash, namehash);
    assert_eq!(evt.owner, owner);
    assert_eq!(evt.expires_at, expires);
    assert_eq!(evt.ts, now);
}

#[test]
fn register_without_resolver_succeeds() {
    let (env, mut registry, mut registrar, _) = setup_env();
    let caller = account(1);
    let owner = account(2);
    let label = make_label("noresolver");
    let secret = b"none".to_vec();
    let (namehash, _) = register_name(&env, &mut registry, &mut registrar, caller, &label, owner, &secret, None, 1_500);
    assert_eq!(registry.owner(&namehash), Ok(owner));
    assert_eq!(registry.resolver(&namehash), Err(RegistryError::ResolverNotSet));
}

#[test]
fn register_handles_registry_owner_auth_requirements() {
    let (env, mut registry, mut registrar, _) = setup_env();
    let caller = account(4);
    let owner = caller;
    let label = make_label("ownerflow");
    let secret = b"flow_secret".to_vec();
    let (namehash, _) = register_name(&env, &mut registry, &mut registrar, caller, &label, owner, &secret, None, 2_000);
    assert_eq!(registry.owner(&namehash), Ok(owner));
}

#[test]
fn commitment_window_invalid() {
    let (env, mut registry, mut registrar, _) = setup_env();
    let caller = account(5);
    let owner = caller;
    let label = make_label("fresh");
    let secret = b"123".to_vec();
    let commitment = compute_commitment(&env, &label, &owner, &secret);
    let signers = vec![caller];

    let without_commit = registrar.register(&env, &mut registry, &signers, caller, &label, owner, &secret, None, 0);
    assert_eq!(without_commit, Err(RegistrarError::CommitmentMissing));

    registrar.commit(&signers, caller, commitment, label.len() as u32, 0).unwrap();
    let too_fresh = registrar.register(&env, &mut registry, &signers, caller, &label, owner, &secret, None, 0);
    assert_eq!(too_fresh, Err(RegistrarError::CommitmentTooFresh));

    let late = registrar.params().unwrap().commit_max_age_secs + 10;
    let too_old = registrar.register(&env, &mut registry, &signers, caller, &label, owner, &secret, None, late);
    assert_eq!(too_old, Err(RegistrarError::CommitmentTooOld));
}

#[test]
fn commitment_window_boundaries() {
    let (env, mut registry, mut registrar, _) = setup_env();
    let caller = account(6);
    let signers = vec![caller];
    let label = make_label("window");
    let secret = b"w".to_vec();
    let commitment = compute_commitment(&env, &label, &caller, &secret);
    registrar.commit(&signers, caller, commitment, 6, 1_000).unwrap();

    let at_59 = registrar.register(&env, &mut registry, &signers, caller, &label, caller, &secret, None, 1_059);
    assert_eq!(at_59, Err(RegistrarError::CommitmentTooFresh));
    let at_86401 = registrar.register(&env, &mut registry, &signers, caller, &label, caller, &secret, None, 1_000 + 86_401);
    assert_eq!(at_86401, Err(RegistrarError::CommitmentTooOld));
    let at_60 = registrar.register(&env, &mut registry, &signers, caller, &label, caller, &secret, None, 1_060);
    assert!(at_60.is_ok());

    let other = make_label("edge");
    let other_commitment = compute_commitment(&env, &other, &caller, &secret);
    registrar.commit(&signers, caller, other_commitment, 4, 2_000).unwrap();
    let at_86400 = registrar.register(&env, &mut registry, &signers, caller, &other, caller, &secret, None, 2_000 + 86_400);
    assert!(at_86400.is_ok());
}

#[test]
fn availability_cycles_through_lifecycle() {
    let (env, mut registry, mut registrar, _) = setup_env();
    let caller = account(7);
    let owner = caller;
    let label = make_label("cycle");
    let secret = b"cycle_secret".to_vec();

    assert!(registrar.available(&env, &registry, &label, 5_000));
    let (namehash, now) = register_name(&env, &mut registry, &mut registrar, caller, &label, owner, &secret, None, 5_000);
    assert!(!registrar.available(&env, &registry, &label, now));

    let expires = registry.expires(&namehash).unwrap();
    let grace = registrar.params().unwrap().grace_period_secs;
    assert!(registrar.available(&env, &registry, &label, expires + grace + 1));
}

#[test]
fn unavailable_when_in_grace() {
    let (env, mut registry, mut registrar, _) = setup_env();
    let caller = account(8);
    let label = make_label("grace");
    let secret = b"abc".to_vec();
    let (namehash, now) = register_name(&env, &mut registry, &mut registrar, caller, &label, caller, &secret, None, 10_000);
    assert!(!registrar.available(&env, &registry, &label, now));
    let expires = registry.expires(&namehash).unwrap();
    let grace = registrar.params().unwrap().grace_period_secs;
    assert!(!registrar.available(&env, &registry, &label, expires + grace));
    assert!(!registrar.available(&env, &registry, &label, expires + 1));
}

#[test]
fn unavailable_when_owner_missing_expiry() {
    let (env, mut registry, registrar, _) = setup_env();
    let owner = account(9);
    let label = make_label("noexpiry");
    let namehash = expected_namehash(&env, &label);
    registry.set_owner(&vec![owner], namehash, owner).unwrap();
    assert_eq!(registry.expires(&namehash), Err(RegistryError::ExpiryNotSet));
    assert!(
        !registrar.available(&env, &registry, &label, 11_000),
        "ownership without expiry must remain unavailable"
    );
}

#[test]
fn available_rejects_bad_lengths_and_uninitialized() {
    let env = Env::default();
    let registry = Registry::new();
    let fresh = Registrar::new(registrar_address());
    assert!(!fresh.available(&env, &registry, &make_label("abc"), 0));
    let (env, registry, registrar, _) = setup_env();
    assert!(!registrar.available(&env, &registry, &Vec::new(), 0));
    assert!(!registrar.available(&env, &registry, &vec![b'a'; 64], 0));
    assert!(registrar.available(&env, &registry, &vec![b'a'; 63], 0));
}

#[test]
fn register_when_unavailable_fails() {
    let (env, mut registry, mut registrar, _) = setup_env();
    let caller = account(10);
    let label = make_label("taken");
    let secret = b"secret".to_vec();
    register_name(&env, &mut registry, &mut registrar, caller, &label, caller, &secret, None, 12_000);

    let new_owner = account(11);
    let new_secret = b"secret2".to_vec();
    let commitment = compute_commitment(&env, &label, &new_owner, &new_secret);
    registrar.commit(&vec![caller], caller, commitment, label.len() as u32, 12_000).unwrap();
    let attempt = registrar.register(&env, &mut registry, &vec![caller], caller, &label, new_owner, &new_secret, None, 12_000 + 60);
    assert_eq!(attempt, Err(RegistrarError::NameNotAvailable));
}

#[test]
fn commitment_deleted_only_after_successful_registration() {
    let (env, mut registry, mut registrar, _) = setup_env();
    let caller = account(12);
    let owner = caller;
    let label = make_label("locked");
    let secret = b"lock_secret".to_vec();
    register_name(&env, &mut registry, &mut registrar, caller, &label, owner, &secret, None, 14_000);

    let challenger = account(13);
    let challenger_secret = b"challenge".to_vec();
    let challenger_commitment = compute_commitment(&env, &label, &challenger, &challenger_secret);
    registrar.commit(&vec![caller], caller, challenger_commitment, label.len() as u32, 15_000).unwrap();
    let params = registrar.params().unwrap();
    let attempt = registrar.register(
        &env, &mut registry, &vec![caller], caller, &label, challenger, &challenger_secret, None,
        15_000 + params.commit_min_age_secs,
    );
    assert!(attempt.is_err());
    assert!(
        registrar.commitment_info(&challenger_commitment).is_some(),
        "commitment must remain after failed registration"
    );

    let fresh_label = make_label("freshpolicy");
    let fresh_secret = b"fresh_secret".to_vec();
    let fresh_commitment = compute_commitment(&env, &fresh_label, &owner, &fresh_secret);
    registrar.commit(&vec![caller], caller, fresh_commitment, fresh_label.len() as u32, 15_000).unwrap();
    registrar
        .register(&env, &mut registry, &vec![caller], caller, &fresh_label, owner, &fresh_secret, None, 15_000 + 2 * params.commit_min_age_secs)
        .unwrap();
    assert!(
        registrar.commitment_info(&fresh_commitment).is_none(),
        "commitment must be removed after successful registration"
    );
}

#[test]
fn refused_commitment_is_reused_after_expiry() {
    let (env, mut registry, mut registrar, _) = setup_env();
    let first = account(14);
    let label = make_label("reuse");
    let (namehash, _) = register_name(&env, &mut registry, &mut registrar, first, &label, first, &b"one".to_vec(), None, 1_000);

    let second = account(15);
    let secret = b"two".to_vec();
    let commitment = compute_commitment(&env, &label, &second, &secret);
    let expires = registry.expires(&namehash).unwrap();
    let grace = registrar.params().unwrap().grace_period_secs;
    let free_at = expires + grace + 1;
    let committed_at = free_at - 100;
    registrar.commit(&vec![second], second, commitment, 5, committed_at).unwrap();
    let refused = registrar.register(&env, &mut registry, &vec![second], second, &label, second, &secret, None, free_at - 1);
    assert_eq!(refused, Err(RegistrarError::NameNotAvailable));
    assert!(registrar.commitment_info(&commitment).is_some());

    // Past the grace period the registrar's checks pass; the registry still wants
    // the previous owner to agree to the hand-over.
    let alone = registrar.register(&env, &mut registry, &vec![second], second, &label, second, &secret, None, free_at);
    assert_eq!(alone, Err(RegistrarError::Registry(RegistryError::Unauthorized)));
    assert_eq!(registry.owner(&namehash), Ok(first));
    assert!(registrar.commitment_info(&commitment).is_some());
    let both = registrar.register(&env, &mut registry, &vec![second, first], second, &label, second, &secret, None, free_at);
    assert!(both.is_ok());
    assert_eq!(registry.owner(&namehash), Ok(second));
    assert_eq!(registry.expires(&namehash), Ok(free_at + RENEW_EXTENSION_SECONDS));
}

#[test]
fn zero_resolver_rolls_back_the_registry() {
    let (env, mut registry, mut registrar, _) = setup_env();
    let caller = account(16);
    let label = make_label("rollback");
    let secret = b"r".to_vec();
    let commitment = compute_commitment(&env, &label, &caller, &secret);
    registrar.commit(&vec![caller], caller, commitment, 8, 0).unwrap();
    let result = registrar.register(&env, &mut registry, &vec![caller], caller, &label, caller, &secret, Some(Address::Account([0u8; 32])), 60);
    assert_eq!(result, Err(RegistrarError::Registry(RegistryError::ZeroAddress)));
    let namehash = expected_namehash(&env, &label);
    assert_eq!(registry.owner(&namehash), Err(RegistryError::OwnerNotSet));
    assert!(registrar.commitment_info(&commitment).is_some());
}

#[test]
fn renew_happy_path() {
    let (env, mut registry, mut registrar, _) = setup_env();
    let caller = account(17);
    let label = make_label("renew");
    let secret = b"renew".to_vec();
    let (namehash, _) = register_name(&env, &mut registry, &mut registrar, caller, &label, caller, &secret, None, 20_000);
    let before = registry.expires(&namehash).unwrap();

    let evt = registrar.renew(&env, &mut registry, &vec![caller], caller, &label, before + 1).unwrap();
    let after = registry.expires(&namehash).unwrap();
    assert!(after > before);
    assert_eq!(after, before + 1 + RENEW_EXTENSION_SECONDS);
    assert_eq!(evt.namehash, namehash);
    assert_eq!(evt.expires_at, after);
}

#[test]
fn renew_before_expiry_adds_extension() {
    let (env, mut registry, mut registrar, _) = setup_env();
    let caller = account(18);
    let label = make_label("early");
    let (namehash, _) = register_name(&env, &mut registry, &mut registrar, caller, &label, caller, &b"e".to_vec(), None, 1_000);
    let before = registry.expires(&namehash).unwrap();
    let evt = registrar.renew(&env, &mut registry, &vec![caller], caller, &label, before - 10).unwrap();
    assert_eq!(evt.expires_at, before + RENEW_EXTENSION_SECONDS);
}

#[test]
fn renew_not_owner_rejected() {
    let (env, mut registry, mut registrar, _) = setup_env();
    let caller = account(19);
    let label = make_label("guard");
    let secret = b"guard".to_vec();
    register_name(&env, &mut registry, &mut registrar, caller, &label, caller, &secret, None, 30_000);
    let attacker = account(20);
    let attempt = registrar.renew(&env, &mut registry, &vec![attacker], attacker, &label, 30_100);
    assert_eq!(attempt, Err(RegistrarError::NotOwner));
    let unregistered = registrar.renew(&env, &mut registry, &vec![caller], caller, &make_label("nobody"), 30_100);
    assert_eq!(unregistered, Err(RegistrarError::NotOwner));
}

#[test]
fn invalid_label_rejected() {
    let (env, mut registry, mut registrar, _) = setup_env();
    let caller = account(21);
    let secret = b"x".to_vec();
    let empty_label = Vec::new();
    let attempt = registrar.register(&env, &mut registry, &vec![caller], caller, &empty_label, caller, &secret, None, 0);
    assert_eq!(attempt, Err(RegistrarError::InvalidLabel));
}

#[test]
fn label_character_validation() {
    let (env, mut registry, mut registrar, _) = setup_env();
    let caller = account(22);
    let secret = b"validate".to_vec();
    let signers = vec![caller];
    for label in [b"Bad!".to_vec(), b"-lead".to_vec(), b"trail-".to_vec()] {
        let attempt = registrar.register(&env, &mut registry, &signers, caller, &label, caller, &secret, None, 45_000);
        assert_eq!(attempt, Err(RegistrarError::InvalidLabel), "invalid label {:?} must be rejected", label);
    }
    let valid_label = make_label("abc-123");
    let commitment = compute_commitment(&env, &valid_label, &caller, &secret);
    registrar.commit(&signers, caller, commitment, valid_label.len() as u32, 45_000).unwrap();
    let evt = registrar
        .register(&env, &mut registry, &signers, caller, &valid_label, caller, &secret, None, 45_060)
        .unwrap();
    assert_eq!(registry.owner(&evt.namehash), Ok(caller));
}

#[test]
fn label_length_mismatch_rejected() {
    let (env, mut registry, mut registrar, _) = setup_env();
    let caller = account(23);
    let label = make_label("bait");
    let secret = b"s".to_vec();
    let commitment = compute_commitment(&env, &label, &caller, &secret);
    registrar.commit(&vec![caller], caller, commitment, 3, 0).unwrap();
    let result = registrar.register(&env, &mut registry, &vec![caller], caller, &label, caller, &secret, None, 60);
    assert_eq!(result, Err(RegistrarError::InvalidLabel));
    assert!(registrar.commitment_info(&commitment).is_some());
}

#[test]
fn commitment_replay_disallowed() {
    let (env, mut registry, mut registrar, _) = setup_env();
    let caller = account(24);
    let label = make_label("single");
    let secret = b"s1".to_vec();
    let (_, now) = register_name(&env, &mut registry, &mut registrar, caller, &label, caller, &secret, None, 40_000);
    let replay = registrar.register(&env, &mut registry, &vec![caller], caller, &label, caller, &secret, None, now);
    assert_eq!(replay, Err(RegistrarError::CommitmentMissing));
}

#[test]
fn end_to_end_alice() {
    let (env, mut registry, mut registrar, _) = setup_env();
    let caller = account(1);
    let owner = account(1);
    let label = make_label("alice");
    let secret = b"s".to_vec();
    let commitment = compute_commitment(&env, &label, &owner, &secret);
    let expected_commitment: [u8; 32] = [
        108, 65, 84, 69, 240, 177, 185, 118, 86, 128, 11, 227, 87, 92, 130, 173, 126, 39, 40, 255,
        246, 70, 1, 41, 129, 27, 38, 131, 192, 170, 179, 66,
    ];
    assert_eq!(commitment, expected_commitment);
    registrar.commit(&vec![caller], caller, commitment, 5, 1_000).unwrap();
    let evt = registrar.register(&env, &mut registry, &vec![caller], caller, &label, owner, &secret, None, 1_060).unwrap();
    let alice: [u8; 32] = [
        8, 71, 182, 53, 160, 150, 63, 203, 71, 5, 44, 182, 219, 177, 53, 134, 30, 61, 83, 228,
        116, 25, 86, 193, 73, 41, 197, 34, 124, 144, 194, 58,
    ];
    assert_eq!(evt.namehash, alice);
    assert_eq!(registry.owner(&alice), Ok(owner));
    assert_eq!(registry.expires(&alice), Ok(1_060 + RENEW_EXTENSION_SECONDS));
    assert_eq!(evt.expires_at, 1_060 + RENEW_EXTENSION_SECONDS);
    let replay = registrar.register(&env, &mut registry, &vec![caller], caller, &label, owner, &secret, None, 1_060);
    assert_eq!(replay, Err(RegistrarError::CommitmentMissing));
}

#[test]
fn contract_owner_commitment_known_value() {
    let env = Env::default();
    let owner = Address::Contract([7u8; 32]);
    let commitment = compute_commitment(&env, &b"bob".to_vec(), &owner, &b"xyz".to_vec());
    let expected: [u8; 32] = [
        225, 99, 1, 95, 108, 234, 240, 250, 196, 228, 45, 62, 168, 6, 110, 98, 123, 248, 212, 24,
        151, 29, 254, 231, 26, 240, 7, 127, 187, 23, 109, 213,
    ];
    assert_eq!(commitment, expected);
}

#[test]
fn wrong_secret_or_owner_finds_no_commitment() {
    let (env, mut registry, mut registrar, _) = setup_env();
    let caller = account(25);
    let label = make_label("front");
    let secret = b"right".to_vec();
    let commitment = compute_commitment(&env, &label, &caller, &secret);
    registrar.commit(&vec![caller], caller, commitment, 5, 0).unwrap();
    let thief = account(26);
    let stolen = registrar.register(&env, &mut registry, &vec![thief], thief, &label, thief, &secret, None, 60);
    assert_eq!(stolen, Err(RegistrarError::CommitmentMissing));
    let guessed = registrar.register(&env, &mut registry, &vec![caller], caller, &label, caller, &b"wrong".to_vec(), None, 60);
    assert_eq!(guessed, Err(RegistrarError::CommitmentMissing));
    assert!(registrar.commitment_info(&commitment).is_some());
}

#[test]
fn commitment_record_holds_no_label() {
    let (env, _registry, mut registrar, _) = setup_env();
    let caller = account(27);
    let a = compute_commitment(&env, &make_label("aaaa"), &caller, &b"s".to_vec());
    let b = compute_commitment(&env, &make_label("bbbb"), &caller, &b"s".to_vec());
    assert_ne!(a, b);
    registrar.commit(&vec![caller], caller, a, 4, 777).unwrap();
    registrar.commit(&vec![caller], caller, b, 4, 777).unwrap();
    assert_eq!(registrar.commitment_info(&a), registrar.commitment_info(&b));
}

#[test]
fn commit_errors() {
    let env = Env::default();
    let caller = account(28);
    let c = compute_commitment(&env, &make_label("x"), &caller, &b"s".to_vec());
    let mut fresh = Registrar::new(registrar_address());
    assert_eq!(fresh.commit(&vec![caller], caller, c, 1, 0), Err(RegistrarError::NotInitialized));
    let (_env, _registry, mut registrar, _) = setup_env();
    assert_eq!(registrar.commit(&vec![], caller, c, 1, 0), Err(RegistrarError::Unauthorized));
    assert_eq!(registrar.commit(&vec![caller], caller, c, 0, 0), Err(RegistrarError::InvalidLabel));
    assert_eq!(registrar.commit(&vec![caller], caller, c, 64, 0), Err(RegistrarError::InvalidLabel));
    assert!(registrar.commit(&vec![caller], caller, c, 1, 0).is_ok());
    assert_eq!(registrar.commit(&vec![caller], caller, c, 1, 5), Err(RegistrarError::CommitmentExists));
    assert_eq!(registrar.commitment_info(&c).unwrap().timestamp, 0);
}

#[test]
fn set_params_admin_only_and_validated() {
    let (_env, _registry, mut registrar, admin) = setup_env();
    let stranger = account(29);
    let mut p = default_params();
    p.commit_min_age_secs = 120;
    assert_eq!(registrar.set_params(&vec![admin], stranger, p), Err(RegistrarError::Unauthorized));
    assert_eq!(registrar.set_params(&vec![stranger], stranger, p), Err(RegistrarError::NotAdmin));
    let mut bad = p;
    bad.max_label_len = 64;
    assert_eq!(registrar.set_params(&vec![admin], admin, bad), Err(RegistrarError::InvalidParams));
    let mut bad = p;
    bad.commit_min_age_secs = bad.commit_max_age_secs + 1;
    assert_eq!(registrar.set_params(&vec![admin], admin, bad), Err(RegistrarError::InvalidParams));
    let mut bad = p;
    bad.grace_period_secs = 0;
    assert_eq!(registrar.set_params(&vec![admin], admin, bad), Err(RegistrarError::InvalidParams));
    assert_eq!(registrar.set_params(&vec![admin], admin, p), Ok(()));
    assert_eq!(registrar.params(), Ok(p));
}

#[test]
fn grace_expired_saturates() {
    assert!(!grace_expired(100, 100, 0));
    assert!(grace_expired(101, 100, 0));
    assert!(!grace_expired(150, 100, 50));
    assert!(grace_expired(151, 100, 50));
    assert!(!grace_expired(u64::MAX, u64::MAX - 10, 100));
    assert!(!grace_expired(50, 100, 10));
}

#[test]
fn from_stored_and_load_commitment() {
    let env = Env::default();
    let me = registrar_address();
    let admin = account(30);
    let mut p = default_params();
    assert!(Registrar::from_stored(me, account(31), Vec::new(), admin, p).is_none());
    p.min_label_len = 0;
    assert!(Registrar::from_stored(me, account(31), b"stellar".to_vec(), admin, p).is_none());
    let p = default_params();
    let mut registrar = Registrar::from_stored(me, account(31), b"stellar".to_vec(), admin, p).unwrap();
    assert_eq!(registrar.params(), Ok(p));
    assert_eq!(registrar.registry(), Ok(account(31)));

    let caller = account(32);
    let label = make_label("stored");
    let secret = b"st".to_vec();
    let commitment = compute_commitment(&env, &label, &caller, &secret);
    registrar.load_commitment(commitment, name_service::registrar::CommitmentInfo { timestamp: 500, label_len: 6 });
    let mut registry = Registry::new();
    let evt = registrar
        .register(&env, &mut registry, &vec![caller], caller, &label, caller, &secret, None, 560)
        .unwrap();
    assert_eq!(evt.namehash, expected_namehash(&env, &label));
}

#[test]
fn register_at_and_renew_at_on_given_nodes() {
    let (_env, mut registry, mut registrar, _) = setup_env();
    let caller = account(33);
    let commitment = [5u8; 32];
    let node = [6u8; 32];
    let label = make_label("ab");
    registrar.commit(&vec![caller], caller, commitment, 2, 1_000).unwrap();
    assert!(registrar.available_at(&registry, 2, &node, 1_000));
    let evt = registrar
        .register_at(&mut registry, &vec![caller], caller, &label, caller, &commitment, &node, None, 1_060)
        .unwrap();
    assert_eq!(evt.namehash, node);
    assert_eq!(evt.expires_at, 1_060 + RENEW_EXTENSION_SECONDS);
    assert_eq!(registry.owner(&node), Ok(caller));
    assert!(!registrar.available_at(&registry, 2, &node, 1_060));
    let renewed = registrar.renew_at(&mut registry, &vec![caller], caller, &label, &node, 2_000).unwrap();
    assert_eq!(renewed.expires_at, 1_060 + 2 * RENEW_EXTENSION_SECONDS);
}
