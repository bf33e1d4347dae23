//! Development keys and accounts derived from seed strings.
//!
//! A seed such as `Alice` stands for the secret URI `//Alice`: the well-known
//! development phrase with one hard junction. Every key of a development
//! authority, and every endowed development account, is derived that way.

use vstd::prelude::*;
use vstd::string::StringExecFns;
use sp_core::Pair;
use sp_runtime::traits::IdentifyAccount;

verus! {

/// An account on the relay chain: the 32 bytes of an `AccountId32`.
pub type AccountId = [u8; 32];

/// The signature schemes whose public keys a seed can be turned into.
#[derive(Clone, Copy, Debug)]
pub enum KeyScheme {
    Sr25519,
    Ed25519,
    Ecdsa,
}

/// A public key of one of the schemes, as raw bytes.
#[derive(Clone, Copy, Debug)]
pub enum PublicKey {
    Sr25519([u8; 32]),
    Ed25519([u8; 32]),
    Ecdsa([u8; 33]),
}

/// The public key that `sp_core::sr25519::Pair::from_string` gives for a secret URI
/// (no password override), or `None` where the URI is refused.
pub uninterp spec fn sr25519_public_from_suri(suri: Seq<char>) -> Option<[u8; 32]>;

/// The public key that `sp_core::ed25519::Pair::from_string` gives for a secret URI
/// (no password override), or `None` where the URI is refused.
pub uninterp spec fn ed25519_public_from_suri(suri: Seq<char>) -> Option<[u8; 32]>;

/// The compressed public key that `sp_core::ecdsa::Pair::from_string` gives for a secret URI
/// (no password override), or `None` where the URI is refused.
pub uninterp spec fn ecdsa_public_from_suri(suri: Seq<char>) -> Option<[u8; 33]>;

/// The account that `sp_runtime::MultiSigner::into_account` gives for an ECDSA key
/// (the BLAKE2-256 hash of the compressed key).
pub uninterp spec fn ecdsa_account_id(public: [u8; 33]) -> [u8; 32];

/// Trusted: `sp_core::sr25519::Pair::from_string(suri, None)`, then `public()` of the pair.
/// The derivation from a URI is deterministic, so the result is stated as the named function
/// of the URI; which URIs are refused is left to that name. Only URIs that start with `/`
/// are admitted: they stand for the development phrase, never for a raw hex secret.
#[verifier::external_body]
fn sr25519_from_string(suri: &str) -> (r: Option<[u8; 32]>)
    requires
        suri@.len() > 0,
        suri@[0] == '/',
    ensures
        r == sr25519_public_from_suri(suri@),
{
    match sp_core::sr25519::Pair::from_string(suri, None) {
        Ok(pair) => Some(pair.public().0),
        Err(_) => None,
    }
}

/// Trusted: `sp_core::ed25519::Pair::from_string(suri, None)`, then `public()` of the pair.
/// Deterministic in the URI; the result is stated as the named function of the URI.
/// Only URIs that start with `/` (the development phrase) are admitted.
#[verifier::external_body]
fn ed25519_from_string(suri: &str) -> (r: Option<[u8; 32]>)
    requires
        suri@.len() > 0,
        suri@[0] == '/',
    ensures
        r == ed25519_public_from_suri(suri@),
{
    match sp_core::ed25519::Pair::from_string(suri, None) {
        Ok(pair) => Some(pair.public().0),
        Err(_) => None,
    }
}

/// Trusted: `sp_core::ecdsa::Pair::from_string(suri, None)`, then `public()` of the pair
/// (the 33-byte compressed key). Deterministic in the URI; the result is stated as the
/// named function of the URI. Only URIs that start with `/` (the development phrase) are
/// admitted: a raw hex secret that is not a valid ECDSA secret would make `from_seed` panic.
#[verifier::external_body]
fn ecdsa_from_string(suri: &str) -> (r: Option<[u8; 33]>)
    requires
        suri@.len() > 0,
        suri@[0] == '/',
    ensures
        r == ecdsa_public_from_suri(suri@),
{
    match sp_core::ecdsa::Pair::from_string(suri, None) {
        Ok(pair) => Some(pair.public().0),
        Err(_) => None,
    }
}

/// Trusted: `sp_runtime::MultiSigner::into_account`, after the key is put into the matching
/// `MultiSigner` variant. The source maps an Sr25519 or Ed25519 key to the account with the
/// same 32 bytes, and an ECDSA key to the hash that `ecdsa_account_id` names.
#[verifier::external_body]
fn multi_signer_into_account(signer: PublicKey) -> (r: AccountId)
    ensures
        match signer {
            PublicKey::Sr25519(k) => r == k,
            PublicKey::Ed25519(k) => r == k,
            PublicKey::Ecdsa(k) => r == ecdsa_account_id(k),
        },
{
    let signer = match signer {
        PublicKey::Sr25519(k) => sp_runtime::MultiSigner::Sr25519(sp_core::sr25519::Public::from_raw(k)),
        PublicKey::Ed25519(k) => sp_runtime::MultiSigner::Ed25519(sp_core::ed25519::Public::from_raw(k)),
        PublicKey::Ecdsa(k) => sp_runtime::MultiSigner::Ecdsa(sp_core::ecdsa::Public::from_raw(k)),
    };
    signer.into_account().into()
}

/// The account that a public key stands for.
pub open spec fn account_of(key: PublicKey) -> AccountId {
    match key {
        PublicKey::Sr25519(k) => k,
        PublicKey::Ed25519(k) => k,
        PublicKey::Ecdsa(k) => ecdsa_account_id(k),
    }
}

/// The secret URI of a development seed: `//` followed by the seed.
pub open spec fn dev_uri(seed: Seq<char>) -> Seq<char> {
    seq!['/', '/'] + seed
}

/// The seed of the stash account that goes with a seed: the seed followed by `//stash`.
pub open spec fn stash_seed(seed: Seq<char>) -> Seq<char> {
    seed + seq!['/', '/', 's', 't', 'a', 's', 'h']
}

/// The public key of a scheme derived from a development seed, if the URI is accepted.
pub open spec fn public_from_seed(scheme: KeyScheme, seed: Seq<char>) -> Option<PublicKey> {
    match scheme {
        KeyScheme::Sr25519 => match sr25519_public_from_suri(dev_uri(seed)) {
            Some(k) => Some(PublicKey::Sr25519(k)),
            None => None,
        },
        KeyScheme::Ed25519 => match ed25519_public_from_suri(dev_uri(seed)) {
            Some(k) => Some(PublicKey::Ed25519(k)),
            None => None,
        },
        KeyScheme::Ecdsa => match ecdsa_public_from_suri(dev_uri(seed)) {
            Some(k) => Some(PublicKey::Ecdsa(k)),
            None => None,
        },
    }
}

/// Whether a key of the scheme can be derived from the seed.
pub open spec fn derivable(scheme: KeyScheme, seed: Seq<char>) -> bool {
    public_from_seed(scheme, seed) is Some
}

/// The account of the key that a seed gives in a scheme.
pub open spec fn account_from_seed(scheme: KeyScheme, seed: Seq<char>) -> AccountId {
    account_of(public_from_seed(scheme, seed).unwrap())
}

/// The Sr25519 key of a seed, as bytes.
pub open spec fn sr25519_key(seed: Seq<char>) -> [u8; 32] {
    sr25519_public_from_suri(dev_uri(seed)).unwrap()
}

/// The Ed25519 key of a seed, as bytes.
pub open spec fn ed25519_key(seed: Seq<char>) -> [u8; 32] {
    ed25519_public_from_suri(dev_uri(seed)).unwrap()
}

/// The ECDSA key of a seed, as bytes.
pub open spec fn ecdsa_key(seed: Seq<char>) -> [u8; 33] {
    ecdsa_public_from_suri(dev_uri(seed)).unwrap()
}

/// Derives the public key of a scheme from a development seed, or `None` where the
/// secret URI `//seed` is refused.
pub fn try_get_from_seed(scheme: KeyScheme, seed: &str) -> (r: Option<PublicKey>)
    ensures
        r == public_from_seed(scheme, seed@),
{
    let mut uri = String::from_str("//");
    uri.append(seed);
    proof {
        reveal_strlit("//");
    }
    assert(uri@ == dev_uri(seed@));
    assert(uri@[0] == '/');
    match scheme {
        KeyScheme::Sr25519 => match sr25519_from_string(uri.as_str()) {
            Some(k) => Some(PublicKey::Sr25519(k)),
            None => None,
        },
        KeyScheme::Ed25519 => match ed25519_from_string(uri.as_str()) {
            Some(k) => Some(PublicKey::Ed25519(k)),
            None => None,
        },
        KeyScheme::Ecdsa => match ecdsa_from_string(uri.as_str()) {
            Some(k) => Some(PublicKey::Ecdsa(k)),
            None => None,
        },
    }
}

/// Derives the public key of a scheme from a development seed.
pub fn get_from_seed(scheme: KeyScheme, seed: &str) -> (r: PublicKey)
    requires
        derivable(scheme, seed@),
    ensures
        Some(r) == public_from_seed(scheme, seed@),
{
    match try_get_from_seed(scheme, seed) {
        Some(k) => k,
        None => unreached(),
    }
}

/// Derives the account of the key that a development seed gives in a scheme.
pub fn get_account_id_from_seed(scheme: KeyScheme, seed: &str) -> (r: AccountId)
    requires
        derivable(scheme, seed@),
    ensures
        r == account_from_seed(scheme, seed@),
{
    multi_signer_into_account(get_from_seed(scheme, seed))
}

/// The keys of one initial authority of a development chain: its stash and controller
/// accounts and its session keys.
#[derive(Clone, Copy, Debug)]
pub struct AuthorityKeys {
    pub stash: AccountId,
    pub controller: AccountId,
    pub babe: [u8; 32],
    pub grandpa: [u8; 32],
    pub im_online: [u8; 32],
    pub para_validator: [u8; 32],
    pub para_assignment: [u8; 32],
    pub authority_discovery: [u8; 32],
}

/// Whether every key of the authority of a seed can be derived.
pub open spec fn authority_keys_derivable(seed: Seq<char>) -> bool {
    &&& derivable(KeyScheme::Sr25519, stash_seed(seed))
    &&& derivable(KeyScheme::Sr25519, seed)
    &&& derivable(KeyScheme::Ed25519, seed)
}

/// The keys of the authority of a seed: the stash is the account of `seed//stash`, the
/// controller the account of the seed, and the session keys are the seed's Sr25519 key,
/// but for GRANDPA, which takes its Ed25519 key.
pub open spec fn authority_keys_of(seed: Seq<char>) -> AuthorityKeys {
    AuthorityKeys {
        stash: account_from_seed(KeyScheme::Sr25519, stash_seed(seed)),
        controller: account_from_seed(KeyScheme::Sr25519, seed),
        babe: sr25519_key(seed),
        grandpa: ed25519_key(seed),
        im_online: sr25519_key(seed),
        para_validator: sr25519_key(seed),
        para_assignment: sr25519_key(seed),
        authority_discovery: sr25519_key(seed),
    }
}

fn sr25519_bytes(key: PublicKey) -> (r: [u8; 32])
    requires
        key is Sr25519,
    ensures
        key == PublicKey::Sr25519(r),
{
    match key {
        PublicKey::Sr25519(k) => k,
        _ => unreached(),
    }
}

fn ed25519_bytes(key: PublicKey) -> (r: [u8; 32])
    requires
        key is Ed25519,
    ensures
        key == PublicKey::Ed25519(r),
{
    match key {
        PublicKey::Ed25519(k) => k,
        _ => unreached(),
    }
}

fn ecdsa_bytes(key: PublicKey) -> (r: [u8; 33])
    requires
        key is Ecdsa,
    ensures
        key == PublicKey::Ecdsa(r),
{
    match key {
        PublicKey::Ecdsa(k) => k,
        _ => unreached(),
    }
}

/// Derives the stash, controller and session keys of an authority from its seed.
pub fn get_authority_keys_from_seed_no_beefy(seed: &str) -> (r: AuthorityKeys)
    requires
        authority_keys_derivable(seed@),
    ensures
        r == authority_keys_of(seed@),
{
    let mut stash = String::from_str(seed);
    stash.append("//stash");
    proof {
        reveal_strlit("//stash");
    }
    assert(stash@ == stash_seed(seed@));
    let stash_account = get_account_id_from_seed(KeyScheme::Sr25519, stash.as_str());
    let sr = sr25519_bytes(get_from_seed(KeyScheme::Sr25519, seed));
    let controller = multi_signer_into_account(PublicKey::Sr25519(sr));
    AuthorityKeys {
        stash: stash_account,
        controller,
        babe: sr,
        grandpa: ed25519_bytes(get_from_seed(KeyScheme::Ed25519, seed)),
        im_online: sr,
        para_validator: sr,
        para_assignment: sr,
        authority_discovery: sr,
    }
}

/// Derives the keys of an authority from its seed, with its BEEFY (ECDSA) key besides.
pub fn get_authority_keys_from_seed(seed: &str) -> (r: (AuthorityKeys, [u8; 33]))
    requires
        authority_keys_derivable(seed@),
        derivable(KeyScheme::Ecdsa, seed@),
    ensures
        r.0 == authority_keys_of(seed@),
        r.1 == ecdsa_key(seed@),
{
    let keys = get_authority_keys_from_seed_no_beefy(seed);
    (keys, ecdsa_bytes(get_from_seed(KeyScheme::Ecdsa, seed)))
}

/// Whether every key of the authority of a seed can be derived.
pub fn authority_keys_are_derivable(seed: &str) -> (b: bool)
    ensures
        b == authority_keys_derivable(seed@),
{
    let mut stash = String::from_str(seed);
    stash.append("//stash");
    proof {
        reveal_strlit("//stash");
    }
    assert(stash@ == stash_seed(seed@));
    try_get_from_seed(KeyScheme::Sr25519, stash.as_str()).is_some()
        && try_get_from_seed(KeyScheme::Sr25519, seed).is_some()
        && try_get_from_seed(KeyScheme::Ed25519, seed).is_some()
}

/// Derives the keys of an authority with its BEEFY key, or `None` where one of the
/// secret URIs is refused.
pub fn try_get_authority_keys_from_seed(seed: &str) -> (r: Option<(AuthorityKeys, [u8; 33])>)
    ensures
        r is Some <==> authority_keys_derivable(seed@) && derivable(KeyScheme::Ecdsa, seed@),
        r matches Some(k) ==> k.0 == authority_keys_of(seed@) && k.1 == ecdsa_key(seed@),
{
    if authority_keys_are_derivable(seed) && try_get_from_seed(KeyScheme::Ecdsa, seed).is_some() {
        Some(get_authority_keys_from_seed(seed))
    } else {
        None
    }
}

/// The seeds of the accounts endowed on a test network: six named accounts and their stashes.
pub open spec fn testnet_seeds() -> Seq<Seq<char>> {
    seq![
        "Alice"@, "Bob"@, "Charlie"@, "Dave"@, "Eve"@, "Ferdie"@,
        "Alice//stash"@, "Bob//stash"@, "Charlie//stash"@, "Dave//stash"@, "Eve//stash"@,
        "Ferdie//stash"@,
    ]
}

/// Whether every test network account can be derived.
pub open spec fn testnet_accounts_derivable() -> bool {
    forall|i: int| 0 <= i < testnet_seeds().len() ==> derivable(KeyScheme::Sr25519, #[trigger] testnet_seeds()[i])
}

/// The Sr25519 accounts of the test network seeds, in order.
pub open spec fn testnet_accounts_spec() -> Seq<AccountId> {
    testnet_seeds().map_values(|s: Seq<char>| account_from_seed(KeyScheme::Sr25519, s))
}

/// The test network seeds, one by one.
pub proof fn lemma_testnet_seeds()
    ensures
        testnet_seeds().len() == 12,
        testnet_seeds()[0] == "Alice"@,
        testnet_seeds()[1] == "Bob"@,
        testnet_seeds()[2] == "Charlie"@,
        testnet_seeds()[3] == "Dave"@,
        testnet_seeds()[4] == "Eve"@,
        testnet_seeds()[5] == "Ferdie"@,
        testnet_seeds()[6] == "Alice//stash"@,
        testnet_seeds()[7] == "Bob//stash"@,
        testnet_seeds()[8] == "Charlie//stash"@,
        testnet_seeds()[9] == "Dave//stash"@,
        testnet_seeds()[10] == "Eve//stash"@,
        testnet_seeds()[11] == "Ferdie//stash"@,
{
}

/// The accounts endowed on a test network.
pub fn testnet_accounts() -> (r: Vec<AccountId>)
    requires
        testnet_accounts_derivable(),
    ensures
        r@ == testnet_accounts_spec(),
{
    let ghost seeds = testnet_seeds();
    proof {
        lemma_testnet_seeds();
    }
    let r = vec![
        get_account_id_from_seed(KeyScheme::Sr25519, "Alice"),
        get_account_id_from_seed(KeyScheme::Sr25519, "Bob"),
        get_account_id_from_seed(KeyScheme::Sr25519, "Charlie"),
        get_account_id_from_seed(KeyScheme::Sr25519, "Dave"),
        get_account_id_from_seed(KeyScheme::Sr25519, "Eve"),
        get_account_id_from_seed(KeyScheme::Sr25519, "Ferdie"),
        get_account_id_from_seed(KeyScheme::Sr25519, "Alice//stash"),
        get_account_id_from_seed(KeyScheme::Sr25519, "Bob//stash"),
        get_account_id_from_seed(KeyScheme::Sr25519, "Charlie//stash"),
        get_account_id_from_seed(KeyScheme::Sr25519, "Dave//stash"),
        get_account_id_from_seed(KeyScheme::Sr25519, "Eve//stash"),
        get_account_id_from_seed(KeyScheme::Sr25519, "Ferdie//stash"),
    ];
    assert(r@ =~= testnet_accounts_spec());
    r
}

/// Whether every test network account can be derived.
pub fn testnet_accounts_are_derivable() -> (b: bool)
    ensures
        b == testnet_accounts_derivable(),
{
    let ghost seeds = testnet_seeds();
    proof {
        lemma_testnet_seeds();
    }
    let b = try_get_from_seed(KeyScheme::Sr25519, "Alice").is_some()
        && try_get_from_seed(KeyScheme::Sr25519, "Bob").is_some()
        && try_get_from_seed(KeyScheme::Sr25519, "Charlie").is_some()
        && try_get_from_seed(KeyScheme::Sr25519, "Dave").is_some()
        && try_get_from_seed(KeyScheme::Sr25519, "Eve").is_some()
        && try_get_from_seed(KeyScheme::Sr25519, "Ferdie").is_some()
        && try_get_from_seed(KeyScheme::Sr25519, "Alice//stash").is_some()
        && try_get_from_seed(KeyScheme::Sr25519, "Bob//stash").is_some()
        && try_get_from_seed(KeyScheme::Sr25519, "Charlie//stash").is_some()
        && try_get_from_seed(KeyScheme::Sr25519, "Dave//stash").is_some()
        && try_get_from_seed(KeyScheme::Sr25519, "Eve//stash").is_some()
        && try_get_from_seed(KeyScheme::Sr25519, "Ferdie//stash").is_some();
    proof {
        if b {
            assert forall|i: int| 0 <= i < seeds.len() implies derivable(KeyScheme::Sr25519, #[trigger] seeds[i]) by {
                assert(0 <= i < 12);
            }
        }
    }
    b
}

} // verus!
