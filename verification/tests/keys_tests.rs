use catena_spec::keys::{
    authority_keys_are_derivable, get_account_id_from_seed, get_authority_keys_from_seed,
    get_authority_keys_from_seed_no_beefy, get_from_seed, testnet_accounts,
    testnet_accounts_are_derivable, try_get_authority_keys_from_seed, try_get_from_seed, KeyScheme,
    PublicKey,
};

fn hex32(s: &str) -> [u8; 32] {
    let mut out = [0u8; 32];
    for i in 0..32 {
        out[i] = u8::from_str_radix(&s[2 * i..2 * i + 2], 16).unwrap();
    }
    out
}

fn hex33(s: &str) -> [u8; 33] {
    let mut out = [0u8; 33];
    for i in 0..33 {
        out[i] = u8::from_str_radix(&s[2 * i..2 * i + 2], 16).unwrap();
    }
    out
}

const ALICE: &str = "d43593c715fdd31c61141abd04a99fd6822c8558854ccde39a5684e7a56da27d";
const ALICE_STASH: &str = "be5ddb1579b72e84524fc29e78609e3caf42e85aa118ebfe0b0ad404b5bdd25f";
const BOB: &str = "8eaf04151687736326c9fea17e25fc5287613693c912909cb226aa4794f26a48";
const BOB_STASH: &str = "fe65717dad0447d715f660a0a58411de509b42e6efb8375f562f58a554d5860e";
const ALICE_ED25519: &str = "88dc3417d5058ec4b4503e0c12ea1a0a89be200fe98922423d4334014fa6b0ee";
const ALICE_ECDSA: &str = "020a1091341fe5664bfa1782d5e04779689068c916b04cb365ec3153755684d9a1";

#[test]
fn sr25519_key_of_alice() {
    match get_from_seed(KeyScheme::Sr25519, "Alice") {
        PublicKey::Sr25519(k) => assert_eq!(k, hex32(ALICE)),
        other => panic!("unexpected key {:?}", other),
    }
}

#[test]
fn ed25519_key_of_alice() {
    match get_from_seed(KeyScheme::Ed25519, "Alice") {
        PublicKey::Ed25519(k) => assert_eq!(k, hex32(ALICE_ED25519)),
        other => panic!("unexpected key {:?}", other),
    }
}

#[test]
fn ecdsa_key_of_alice() {
    match get_from_seed(KeyScheme::Ecdsa, "Alice") {
        PublicKey::Ecdsa(k) => assert_eq!(k, hex33(ALICE_ECDSA)),
        other => panic!("unexpected key {:?}", other),
    }
}

#[test]
fn sr25519_account_is_the_key() {
    assert_eq!(get_account_id_from_seed(KeyScheme::Sr25519, "Bob"), hex32(BOB));
    assert_eq!(get_account_id_from_seed(KeyScheme::Sr25519, "Bob//stash"), hex32(BOB_STASH));
}

#[test]
fn ed25519_account_is_the_key() {
    assert_eq!(get_account_id_from_seed(KeyScheme::Ed25519, "Alice"), hex32(ALICE_ED25519));
}

#[test]
fn ecdsa_account_is_the_hash_of_the_key() {
    let expected = <sp_core::Blake2Hasher as sp_core::Hasher>::hash(&hex33(ALICE_ECDSA)).0;
    assert_eq!(get_account_id_from_seed(KeyScheme::Ecdsa, "Alice"), expected);
}

#[test]
fn refused_seeds_give_no_key() {
    assert!(try_get_from_seed(KeyScheme::Sr25519, "").is_none());
    assert!(try_get_from_seed(KeyScheme::Sr25519, "Alice/").is_none());
}

#[test]
fn ed25519_refuses_soft_junctions() {
    assert!(try_get_from_seed(KeyScheme::Sr25519, "Alice/soft").is_some());
    assert!(try_get_from_seed(KeyScheme::Ed25519, "Alice/soft").is_none());
}

#[test]
fn authority_keys_of_alice() {
    let keys = get_authority_keys_from_seed_no_beefy("Alice");
    assert_eq!(keys.stash, hex32(ALICE_STASH));
    assert_eq!(keys.controller, hex32(ALICE));
    assert_eq!(keys.babe, hex32(ALICE));
    assert_eq!(keys.grandpa, hex32(ALICE_ED25519));
    assert_eq!(keys.im_online, hex32(ALICE));
    assert_eq!(keys.para_validator, hex32(ALICE));
    assert_eq!(keys.para_assignment, hex32(ALICE));
    assert_eq!(keys.authority_discovery, hex32(ALICE));
}

#[test]
fn authority_keys_with_beefy_extend_those_without() {
    let (keys, beefy) = get_authority_keys_from_seed("Bob");
    let plain = get_authority_keys_from_seed_no_beefy("Bob");
    assert_eq!(keys.stash, plain.stash);
    assert_eq!(keys.controller, plain.controller);
    assert_eq!(keys.grandpa, plain.grandpa);
    assert_eq!(keys.babe, plain.babe);
    match get_from_seed(KeyScheme::Ecdsa, "Bob") {
        PublicKey::Ecdsa(k) => assert_eq!(beefy, k),
        other => panic!("unexpected key {:?}", other),
    }
}

#[test]
fn stash_is_the_controller_of_the_stash_seed() {
    let keys = get_authority_keys_from_seed_no_beefy("Bob");
    let stash_keys = get_authority_keys_from_seed_no_beefy("Bob//stash");
    assert_eq!(keys.stash, stash_keys.controller);
}

#[test]
fn try_authority_keys() {
    assert!(authority_keys_are_derivable("Charlie"));
    assert!(!authority_keys_are_derivable(""));
    assert!(try_get_authority_keys_from_seed("").is_none());
    let (keys, _) = try_get_authority_keys_from_seed("Alice").unwrap();
    assert_eq!(keys.controller, hex32(ALICE));
}

#[test]
fn testnet_accounts_in_order() {
    assert!(testnet_accounts_are_derivable());
    let accounts = testnet_accounts();
    assert_eq!(accounts.len(), 12);
    assert_eq!(accounts[0], hex32(ALICE));
    assert_eq!(accounts[1], hex32(BOB));
    assert_eq!(accounts[6], hex32(ALICE_STASH));
    assert_eq!(accounts[7], hex32(BOB_STASH));
    for i in 0..12 {
        for j in 0..12 {
            if i != j {
                assert_ne!(accounts[i], accounts[j]);
            }
        }
    }
}

#[test]
fn testnet_accounts_are_the_controllers_and_stashes() {
    let accounts = testnet_accounts();
    let names = ["Alice", "Bob", "Charlie", "Dave", "Eve", "Ferdie"];
    for i in 0..6 {
        let keys = get_authority_keys_from_seed_no_beefy(names[i]);
        assert_eq!(accounts[i], keys.controller);
        assert_eq!(accounts[i + 6], keys.stash);
        assert_ne!(keys.stash, keys.controller);
    }
}
