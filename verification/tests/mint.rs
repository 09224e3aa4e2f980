use kitties::derivation::{derivation_preimage_bytes, derive_kitten_id};
use kitties::pallet::{ensure_signed, Event, MintError, NonceCounter, Origin, Pallet};
use kitties::registry::Registry;
use kitties::types::{AccountId, Entropy, KittenId, Kitty};

fn account(tag: u8) -> AccountId {
    let mut bytes = [0u8; 32];
    bytes[0] = tag;
    AccountId::new(bytes)
}

fn entropy(tag: u8) -> Entropy {
    let mut bytes = [0u8; 32];
    bytes[31] = tag;
    Entropy::new(bytes)
}

fn event_parts(e: &Event) -> (KittenId, AccountId) {
    match e {
        Event::KittenCreated(id, owner) => (*id, *owner),
    }
}

#[test]
fn derivation_is_deterministic() {
    let a = account(1);
    let e = entropy(7);
    let id1 = derive_kitten_id(&e, &a, 3);
    let id2 = derive_kitten_id(&e, &a, 3);
    assert!(id1.equals(&id2));
}

#[test]
fn distinct_nonces_derive_distinct_ids() {
    let a = account(1);
    let e = entropy(7);
    let id1 = derive_kitten_id(&e, &a, 0);
    let id2 = derive_kitten_id(&e, &a, 1);
    assert!(!id1.equals(&id2));
}

#[test]
fn distinct_entropy_derives_distinct_ids() {
    let a = account(1);
    let id1 = derive_kitten_id(&entropy(7), &a, 0);
    let id2 = derive_kitten_id(&entropy(8), &a, 0);
    assert!(!id1.equals(&id2));
}

#[test]
fn distinct_callers_derive_distinct_ids() {
    let e = entropy(7);
    let id1 = derive_kitten_id(&e, &account(1), 0);
    let id2 = derive_kitten_id(&e, &account(2), 0);
    assert!(!id1.equals(&id2));
}

#[test]
fn preimage_layout_is_exact() {
    let a = account(0xab);
    let e = entropy(0xcd);
    let nonce: u64 = 0x0102_0304_0506_0708;
    let pre = derivation_preimage_bytes(&e, &a, nonce);
    let mut expected = Vec::new();
    expected.extend_from_slice(&e.to_bytes());
    expected.extend_from_slice(&a.to_bytes());
    expected.extend_from_slice(&nonce.to_le_bytes());
    assert_eq!(pre, expected);
    assert_eq!(pre.len(), 72);
}

#[test]
fn ensure_signed_resolves_only_signed_contexts() {
    let a = account(4);
    match ensure_signed(Origin::Signed(a)) {
        Ok(b) => assert!(b.equals(&a)),
        Err(_) => panic!("signed context must resolve"),
    }
    assert_eq!(ensure_signed(Origin::Root), Err(MintError::Unauthenticated));
    assert_eq!(ensure_signed(Origin::Unsigned), Err(MintError::Unauthenticated));
}

#[test]
fn nonce_counter_starts_at_zero_and_advances() {
    let mut n = NonceCounter::new();
    assert_eq!(n.read(), 0);
    n.advance();
    assert_eq!(n.read(), 1);
    assert_eq!(n.read(), 1);
}

#[test]
fn mint_advances_nonce_by_one() {
    let mut p = Pallet::new();
    assert_eq!(p.get_nonce(), 0);
    let r = p.create_kitten(Origin::Signed(account(1)), Some(entropy(1)), true);
    assert_eq!(r, Ok(()));
    assert_eq!(p.get_nonce(), 1);
    let r2 = p.create_kitten(Origin::Signed(account(2)), Some(entropy(2)), true);
    assert_eq!(r2, Ok(()));
    assert_eq!(p.get_nonce(), 2);
}

#[test]
fn failed_mint_keeps_nonce() {
    let mut p = Pallet::new();
    let _ = p.create_kitten(Origin::Unsigned, Some(entropy(1)), true);
    assert_eq!(p.get_nonce(), 0);
    let _ = p.create_kitten(Origin::Signed(account(1)), None, true);
    assert_eq!(p.get_nonce(), 0);
    let _ = p.create_kitten(Origin::Signed(account(1)), Some(entropy(1)), false);
    assert_eq!(p.get_nonce(), 0);
}

#[test]
fn commit_failure_is_atomic() {
    let mut p = Pallet::new();
    let a = account(1);
    let e = entropy(1);
    let r = p.create_kitten(Origin::Signed(a), Some(e), false);
    assert_eq!(r, Err(MintError::CommitFailure));
    assert_eq!(p.get_nonce(), 0);
    assert_eq!(p.kitten_count(), 0);
    assert!(p.events().is_empty());
    let id = derive_kitten_id(&e, &a, 0);
    assert!(p.lookup_owner(&id).is_none());
}

#[test]
fn entropy_unavailable_fails_without_side_effects() {
    let mut p = Pallet::new();
    let r = p.create_kitten(Origin::Signed(account(1)), None, true);
    assert_eq!(r, Err(MintError::EntropyUnavailable));
    assert_eq!(p.get_nonce(), 0);
    assert_eq!(p.kitten_count(), 0);
    assert!(p.events().is_empty());
}

#[test]
fn unauthenticated_mint_leaves_state_untouched() {
    let mut p = Pallet::new();
    let r = p.create_kitten(Origin::Unsigned, Some(entropy(1)), true);
    assert_eq!(r, Err(MintError::Unauthenticated));
    assert_eq!(p.get_nonce(), 0);
    assert_eq!(p.kitten_count(), 0);
    assert!(p.events().is_empty());
    let r2 = p.create_kitten(Origin::Root, Some(entropy(1)), true);
    assert_eq!(r2, Err(MintError::Unauthenticated));
    assert_eq!(p.get_nonce(), 0);
}

#[test]
fn lookup_owner_is_idempotent() {
    let mut p = Pallet::new();
    let a = account(9);
    let e = entropy(3);
    p.create_kitten(Origin::Signed(a), Some(e), true).unwrap();
    let id = derive_kitten_id(&e, &a, 0);
    let first = p.lookup_owner(&id);
    let second = p.lookup_owner(&id);
    assert_eq!(first, second);
    let third = p.lookup_owner(&id);
    assert_eq!(first, third);
    assert!(first.unwrap().equals(&a));
}

#[test]
fn two_mints_scenario() {
    let mut p = Pallet::new();
    let a = account(1);
    let e1 = entropy(1);
    let e2 = entropy(2);
    assert_eq!(p.get_nonce(), 0);

    let r1 = p.create_kitten(Origin::Signed(a), Some(e1), true);
    assert_eq!(r1, Ok(()));
    assert_eq!(p.get_nonce(), 1);
    let id1 = derive_kitten_id(&e1, &a, 0);
    assert!(p.lookup_owner(&id1).unwrap().equals(&a));

    let r2 = p.create_kitten(Origin::Signed(a), Some(e2), true);
    assert_eq!(r2, Ok(()));
    assert_eq!(p.get_nonce(), 2);
    let id2 = derive_kitten_id(&e2, &a, 1);
    assert!(p.lookup_owner(&id2).unwrap().equals(&a));

    assert!(!id1.equals(&id2));
    assert_eq!(p.kitten_count(), 2);

    let events = p.events();
    assert_eq!(events.len(), 2);
    let (ev_id1, ev_owner1) = event_parts(&events[0]);
    let (ev_id2, ev_owner2) = event_parts(&events[1]);
    assert!(ev_id1.equals(&id1));
    assert!(ev_id2.equals(&id2));
    assert!(ev_owner1.equals(&a));
    assert!(ev_owner2.equals(&a));
}

#[test]
fn one_event_per_successful_mint() {
    let mut p = Pallet::new();
    let a = account(5);
    p.create_kitten(Origin::Signed(a), Some(entropy(1)), true).unwrap();
    assert_eq!(p.events().len(), 1);
    let _ = p.create_kitten(Origin::Unsigned, Some(entropy(2)), true);
    assert_eq!(p.events().len(), 1);
    p.create_kitten(Origin::Signed(a), Some(entropy(2)), true).unwrap();
    assert_eq!(p.events().len(), 2);
}

#[test]
fn dna_equals_id() {
    let a = account(1);
    let e = entropy(1);
    let id = derive_kitten_id(&e, &a, 0);
    let kitty = Kitty::new(id);
    assert!(kitty.dna().equals(&kitty.id()));
    assert!(kitty.id().equals(&id));
}

#[test]
fn registry_insert_overwrites_on_collision() {
    let mut reg = Registry::empty();
    let id = KittenId::new([7u8; 32]);
    let first = account(1);
    let second = account(2);
    reg.insert(id, first);
    assert_eq!(reg.len(), 1);
    assert!(reg.lookup(&id).unwrap().equals(&first));
    reg.insert(id, second);
    assert_eq!(reg.len(), 1);
    assert!(reg.lookup(&id).unwrap().equals(&second));
}

#[test]
fn registry_lookup_misses_absent_keys() {
    let mut reg = Registry::empty();
    assert!(reg.lookup(&KittenId::new([1u8; 32])).is_none());
    reg.insert(KittenId::new([1u8; 32]), account(1));
    assert!(reg.lookup(&KittenId::new([2u8; 32])).is_none());
    assert!(reg.lookup(&KittenId::new([1u8; 32])).is_some());
}

#[test]
fn derived_id_matches_blake2b_of_preimage() {
    let a = account(3);
    let e = entropy(9);
    let nonce: u64 = 5;
    let id = derive_kitten_id(&e, &a, nonce);
    let pre = derivation_preimage_bytes(&e, &a, nonce);
    let digest = blake2b_simd::Params::new().hash_length(32).hash(&pre);
    assert_eq!(id.to_bytes().as_slice(), digest.as_bytes());
}
