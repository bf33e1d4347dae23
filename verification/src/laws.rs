//! Properties of the keys and of the genesis configurations that hold for all inputs.

use vstd::prelude::*;
use crate::genesis::{
    endowment_balances, genesis_common, is_staging_genesis, is_testnet_genesis, session_key_entries,
    stash_accounts, validator_stakers, GenesisConfig, ENDOWMENT, STASH,
};
use crate::keys::{
    ecdsa_account_id, ecdsa_key, ecdsa_public_from_suri, ed25519_public_from_suri,
    public_from_seed, sr25519_public_from_suri, PublicKey,
    account_from_seed, authority_keys_derivable, authority_keys_of, derivable, ed25519_key,
    lemma_testnet_seeds, sr25519_key, stash_seed, testnet_accounts_spec, testnet_seeds, AccountId,
    AuthorityKeys, KeyScheme,
};

verus! {

/// The sum of the balances of a list of endowments.
pub open spec fn total_balance(balances: Seq<(AccountId, u128)>) -> int
    decreases balances.len(),
{
    if balances.len() == 0 {
        0
    } else {
        total_balance(balances.drop_last()) + balances.last().1
    }
}

/// Whether an account has an endowment in the list.
pub open spec fn is_endowed(balances: Seq<(AccountId, u128)>, account: AccountId) -> bool {
    exists|j: int| 0 <= j < balances.len() && (#[trigger] balances[j]).0 == account
}

/// The Sr25519 account of a seed is its Sr25519 public key, byte for byte.
pub proof fn lemma_sr25519_account_is_public_key(seed: Seq<char>)
    requires
        derivable(KeyScheme::Sr25519, seed),
    ensures
        account_from_seed(KeyScheme::Sr25519, seed) == sr25519_key(seed),
{
}

/// The Ed25519 account of a seed is its Ed25519 public key, byte for byte.
pub proof fn lemma_ed25519_account_is_public_key(seed: Seq<char>)
    requires
        derivable(KeyScheme::Ed25519, seed),
    ensures
        account_from_seed(KeyScheme::Ed25519, seed) == ed25519_key(seed),
{
}

/// The stash account of the authority of a seed is the controller account of the
/// authority of `seed//stash`.
pub proof fn lemma_stash_is_controller_of_stash_seed(seed: Seq<char>)
    ensures
        authority_keys_of(seed).stash == authority_keys_of(stash_seed(seed)).controller,
{
}

/// An authority's controller account is the key it uses for BABE, for I'm-online, as
/// parachain validator, for assignments and for authority discovery.
pub proof fn lemma_controller_is_session_key(seed: Seq<char>)
    requires
        authority_keys_derivable(seed),
    ensures
        authority_keys_of(seed).controller == authority_keys_of(seed).babe,
        authority_keys_of(seed).babe == authority_keys_of(seed).im_online,
        authority_keys_of(seed).babe == authority_keys_of(seed).para_validator,
        authority_keys_of(seed).babe == authority_keys_of(seed).para_assignment,
        authority_keys_of(seed).babe == authority_keys_of(seed).authority_discovery,
{
}

/// Endowing each of `n` accounts with `amount` issues `n * amount` in total.
pub proof fn lemma_endowment_total(accounts: Seq<AccountId>, amount: u128)
    ensures
        total_balance(endowment_balances(accounts, amount)) == accounts.len() * amount,
    decreases accounts.len(),
{
    let e = endowment_balances(accounts, amount);
    if accounts.len() == 0 {
        assert(e.len() == 0);
    } else {
        let rest = accounts.drop_last();
        assert(e.drop_last() =~= endowment_balances(rest, amount));
        lemma_endowment_total(rest, amount);
        assert(e.last() == (accounts.last(), amount));
        assert(total_balance(e) == total_balance(e.drop_last()) + amount);
        assert(accounts.len() * amount == rest.len() * amount + amount) by (nonlinear_arith)
            requires
                accounts.len() == rest.len() + 1,
        ;
    }
}

/// The total of two lists of endowments, one after the other, is the sum of their totals.
pub proof fn lemma_total_balance_append(a: Seq<(AccountId, u128)>, b: Seq<(AccountId, u128)>)
    ensures
        total_balance(a + b) == total_balance(a) + total_balance(b),
    decreases b.len(),
{
    if b.len() > 0 {
        assert((a + b).drop_last() =~= a + b.drop_last());
        lemma_total_balance_append(a, b.drop_last());
    }
}

/// A test network issues the endowment once for every endowed account, and nothing else.
pub proof fn lemma_testnet_issuance(
    g: GenesisConfig,
    wasm: Seq<u8>,
    auths: Seq<AuthorityKeys>,
    endowed: Seq<AccountId>,
)
    requires
        is_testnet_genesis(g, wasm, auths, endowed),
    ensures
        total_balance(g.balances@) == endowed.len() * ENDOWMENT,
{
    lemma_endowment_total(endowed, ENDOWMENT);
}

/// The staging network issues the endowment for every endowed account and the bond for
/// every initial authority.
pub proof fn lemma_staging_issuance(
    g: GenesisConfig,
    wasm: Seq<u8>,
    auths: Seq<AuthorityKeys>,
    endowed: Seq<AccountId>,
)
    requires
        is_staging_genesis(g, wasm, auths, endowed),
    ensures
        total_balance(g.balances@) == endowed.len() * ENDOWMENT + auths.len() * STASH,
{
    lemma_endowment_total(endowed, ENDOWMENT);
    lemma_endowment_total(stash_accounts(auths), STASH);
    lemma_total_balance_append(
        endowment_balances(endowed, ENDOWMENT),
        endowment_balances(stash_accounts(auths), STASH),
    );
}

/// In a test network, the validator count is the number of initial authorities, and the
/// session keys, the stakers and the invulnerables go with them one for one: entry `i` of
/// each belongs to the stash of authority `i`, which stakes as a validator from its own
/// controller. The count is exact below 2^32 authorities, where it no longer fits.
pub proof fn lemma_testnet_genesis_consistent(
    g: GenesisConfig,
    wasm: Seq<u8>,
    auths: Seq<AuthorityKeys>,
    endowed: Seq<AccountId>,
)
    requires
        is_testnet_genesis(g, wasm, auths, endowed),
        auths.len() <= u32::MAX,
    ensures
        g.staking.validator_count == auths.len(),
        g.session_keys@.len() == auths.len(),
        g.staking.stakers@.len() == auths.len(),
        g.staking.invulnerables@.len() == auths.len(),
        forall|i: int| 0 <= i < auths.len() ==> {
            &&& (#[trigger] g.session_keys@[i]).0 == auths[i].stash
            &&& g.session_keys@[i].1 == auths[i].stash
            &&& g.staking.stakers@[i].0 == auths[i].stash
            &&& g.staking.stakers@[i].1 == auths[i].controller
            &&& g.staking.stakers@[i].2 == STASH
            &&& g.staking.stakers@[i].3 is Validator
            &&& g.staking.invulnerables@[i] == auths[i].stash
        },
{
}

/// Every validator of the development chain is endowed: the stash and the controller of
/// Alice are among the test network accounts. Twelve endowments are issued in all.
pub proof fn lemma_development_validators_endowed(g: GenesisConfig, wasm: Seq<u8>)
    requires
        is_testnet_genesis(g, wasm, seq![authority_keys_of("Alice"@)], testnet_accounts_spec()),
    ensures
        total_balance(g.balances@) == 12 * ENDOWMENT,
        forall|i: int| 0 <= i < g.staking.stakers@.len() ==> {
            &&& is_endowed(g.balances@, (#[trigger] g.staking.stakers@[i]).0)
            &&& is_endowed(g.balances@, g.staking.stakers@[i].1)
        },
{
    reveal_strlit("Alice");
    reveal_strlit("Alice//stash");
    let auths = seq![authority_keys_of("Alice"@)];
    assert(stash_seed("Alice"@) =~= "Alice//stash"@);
    let b = g.balances@;
    assert(b[0].0 == auths[0].controller);
    assert(b[6].0 == auths[0].stash);
    lemma_testnet_issuance(g, wasm, auths, testnet_accounts_spec());
}

/// Every validator of the local test network is endowed: the stashes and the controllers
/// of Alice and Bob are among the test network accounts.
pub proof fn lemma_local_testnet_validators_endowed(g: GenesisConfig, wasm: Seq<u8>)
    requires
        is_testnet_genesis(
            g,
            wasm,
            seq![authority_keys_of("Alice"@), authority_keys_of("Bob"@)],
            testnet_accounts_spec(),
        ),
    ensures
        forall|i: int| 0 <= i < g.staking.stakers@.len() ==> {
            &&& is_endowed(g.balances@, (#[trigger] g.staking.stakers@[i]).0)
            &&& is_endowed(g.balances@, g.staking.stakers@[i].1)
        },
{
    reveal_strlit("Alice");
    reveal_strlit("Alice//stash");
    reveal_strlit("Bob");
    reveal_strlit("Bob//stash");
    let auths = seq![authority_keys_of("Alice"@), authority_keys_of("Bob"@)];
    assert(stash_seed("Alice"@) =~= "Alice//stash"@);
    assert(stash_seed("Bob"@) =~= "Bob//stash"@);
    let b = g.balances@;
    assert(b[0].0 == auths[0].controller);
    assert(b[6].0 == auths[0].stash);
    assert(b[1].0 == auths[1].controller);
    assert(b[7].0 == auths[1].stash);
}

/// Two genesis states with the same content, field by field.
pub open spec fn same_genesis(a: GenesisConfig, b: GenesisConfig) -> bool {
    &&& a.code@ == b.code@
    &&& a.balances@ == b.balances@
    &&& a.indices@ == b.indices@
    &&& a.session_keys@ == b.session_keys@
    &&& a.staking.validator_count == b.staking.validator_count
    &&& a.staking.minimum_validator_count == b.staking.minimum_validator_count
    &&& a.staking.stakers@ == b.staking.stakers@
    &&& a.staking.invulnerables@ == b.staking.invulnerables@
    &&& a.staking.force_era == b.staking.force_era
    &&& a.staking.slash_reward_fraction == b.staking.slash_reward_fraction
    &&& a.council_members@ == b.council_members@
    &&& a.technical_committee_members@ == b.technical_committee_members@
    &&& a.babe_authorities@ == b.babe_authorities@
    &&& a.babe_epoch_config == b.babe_epoch_config
    &&& a.authority_discovery_keys@ == b.authority_discovery_keys@
    &&& a.changes_trie_config == b.changes_trie_config
    &&& a.claims@ == b.claims@
    &&& a.claims_vesting@ == b.claims_vesting@
    &&& a.vesting@ == b.vesting@
    &&& a.host_configuration == b.host_configuration
}

/// The parts every genesis has in common fix the same content.
proof fn lemma_common_parts_agree(a: GenesisConfig, b: GenesisConfig, wasm: Seq<u8>)
    requires
        genesis_common(a, wasm),
        genesis_common(b, wasm),
    ensures
        a.code@ == b.code@,
        a.indices@ == b.indices@,
        a.council_members@ == b.council_members@,
        a.technical_committee_members@ == b.technical_committee_members@,
        a.babe_authorities@ == b.babe_authorities@,
        a.babe_epoch_config == b.babe_epoch_config,
        a.authority_discovery_keys@ == b.authority_discovery_keys@,
        a.changes_trie_config == b.changes_trie_config,
        a.claims@ == b.claims@,
        a.claims_vesting@ == b.claims_vesting@,
        a.vesting@ == b.vesting@,
        a.host_configuration == b.host_configuration,
        a.staking.slash_reward_fraction == b.staking.slash_reward_fraction,
{
    assert(a.indices@ =~= b.indices@);
    assert(a.council_members@ =~= b.council_members@);
    assert(a.technical_committee_members@ =~= b.technical_committee_members@);
    assert(a.babe_authorities@ =~= b.babe_authorities@);
    assert(a.authority_discovery_keys@ =~= b.authority_discovery_keys@);
    assert(a.claims@ =~= b.claims@);
    assert(a.claims_vesting@ =~= b.claims_vesting@);
    assert(a.vesting@ =~= b.vesting@);
}

/// A test network genesis is determined by its code, its authorities and its endowed
/// accounts: two that share them have the same content. In particular the root key given
/// to `polkadot_testnet_genesis` changes nothing, since it does not enter the genesis.
pub proof fn lemma_testnet_genesis_is_determined(
    a: GenesisConfig,
    b: GenesisConfig,
    wasm: Seq<u8>,
    auths: Seq<AuthorityKeys>,
    endowed: Seq<AccountId>,
)
    requires
        is_testnet_genesis(a, wasm, auths, endowed),
        is_testnet_genesis(b, wasm, auths, endowed),
    ensures
        same_genesis(a, b),
{
    lemma_common_parts_agree(a, b, wasm);
}

/// The development genesis is the test network genesis built with Alice's authority keys
/// and the test network accounts as endowments (no endowments given).
pub proof fn lemma_development_is_testnet_genesis(
    development: GenesisConfig,
    testnet: GenesisConfig,
    wasm: Seq<u8>,
)
    requires
        is_testnet_genesis(development, wasm, seq![authority_keys_of("Alice"@)], testnet_accounts_spec()),
        is_testnet_genesis(testnet, wasm, seq![authority_keys_of("Alice"@)], testnet_accounts_spec()),
    ensures
        same_genesis(development, testnet),
{
    lemma_testnet_genesis_is_determined(
        development,
        testnet,
        wasm,
        seq![authority_keys_of("Alice"@)],
        testnet_accounts_spec(),
    );
}

/// The local test network genesis is the test network genesis built with the authority
/// keys of Alice and Bob and the test network accounts as endowments.
pub proof fn lemma_local_is_testnet_genesis(local: GenesisConfig, testnet: GenesisConfig, wasm: Seq<u8>)
    requires
        is_testnet_genesis(
            local,
            wasm,
            seq![authority_keys_of("Alice"@), authority_keys_of("Bob"@)],
            testnet_accounts_spec(),
        ),
        is_testnet_genesis(
            testnet,
            wasm,
            seq![authority_keys_of("Alice"@), authority_keys_of("Bob"@)],
            testnet_accounts_spec(),
        ),
    ensures
        same_genesis(local, testnet),
{
    lemma_testnet_genesis_is_determined(
        local,
        testnet,
        wasm,
        seq![authority_keys_of("Alice"@), authority_keys_of("Bob"@)],
        testnet_accounts_spec(),
    );
}

/// The local test network genesis extends the development genesis: the same code,
/// balances and configuration, with Bob's session keys, staker entry and invulnerable stash
/// appended after Alice's, and one more validator.
pub proof fn lemma_local_extends_development(
    development: GenesisConfig,
    local: GenesisConfig,
    wasm: Seq<u8>,
)
    requires
        is_testnet_genesis(development, wasm, seq![authority_keys_of("Alice"@)], testnet_accounts_spec()),
        is_testnet_genesis(
            local,
            wasm,
            seq![authority_keys_of("Alice"@), authority_keys_of("Bob"@)],
            testnet_accounts_spec(),
        ),
    ensures
        local.balances@ == development.balances@,
        local.session_keys@ == development.session_keys@ + session_key_entries(seq![authority_keys_of("Bob"@)]),
        local.staking.stakers@ == development.staking.stakers@ + validator_stakers(seq![authority_keys_of("Bob"@)], STASH),
        local.staking.invulnerables@ == development.staking.invulnerables@ + stash_accounts(seq![authority_keys_of("Bob"@)]),
        local.staking.validator_count == development.staking.validator_count + 1,
        local.staking.minimum_validator_count == development.staking.minimum_validator_count,
        local.staking.force_era == development.staking.force_era,
        local.code@ == development.code@,
        local.host_configuration == development.host_configuration,
        local.babe_epoch_config == development.babe_epoch_config,
        local.staking.slash_reward_fraction == development.staking.slash_reward_fraction,
{
    lemma_common_parts_agree(development, local, wasm);
    let alice = seq![authority_keys_of("Alice"@)];
    let bob = seq![authority_keys_of("Bob"@)];
    let both = seq![authority_keys_of("Alice"@), authority_keys_of("Bob"@)];
    assert(session_key_entries(both) =~= session_key_entries(alice) + session_key_entries(bob));
    assert(validator_stakers(both, STASH) =~= validator_stakers(alice, STASH) + validator_stakers(bob, STASH));
    assert(stash_accounts(both) =~= stash_accounts(alice) + stash_accounts(bob));
}

/// The balances of a test network do not depend on its authorities: an authority's stash
/// and controller are endowed only when they are among the endowed accounts.
pub proof fn lemma_testnet_balances_ignore_authorities(
    a: GenesisConfig,
    b: GenesisConfig,
    wasm: Seq<u8>,
    auths_a: Seq<AuthorityKeys>,
    auths_b: Seq<AuthorityKeys>,
    endowed: Seq<AccountId>,
)
    requires
        is_testnet_genesis(a, wasm, auths_a, endowed),
        is_testnet_genesis(b, wasm, auths_b, endowed),
    ensures
        a.balances@ == b.balances@,
{
}

/// With no endowed accounts given, a test network endows the twelve test network accounts,
/// in order, with the endowment each.
pub proof fn lemma_default_endowments(g: GenesisConfig, wasm: Seq<u8>, auths: Seq<AuthorityKeys>)
    requires
        is_testnet_genesis(g, wasm, auths, testnet_accounts_spec()),
    ensures
        g.balances@.len() == 12,
        forall|i: int| 0 <= i < 12 ==> #[trigger] g.balances@[i] == (testnet_accounts_spec()[i], ENDOWMENT),
{
    lemma_testnet_seeds();
}

/// The six named test network participants.
pub open spec fn testnet_names() -> Seq<Seq<char>> {
    seq!["Alice"@, "Bob"@, "Charlie"@, "Dave"@, "Eve"@, "Ferdie"@]
}

/// Test network account `i` is the controller of participant `i`, and account `i + 6` is
/// that participant's stash.
pub proof fn lemma_testnet_accounts_are_authority_accounts()
    ensures
        forall|i: int| 0 <= i < 6 ==> {
            &&& testnet_accounts_spec()[i] == authority_keys_of(#[trigger] testnet_names()[i]).controller
            &&& testnet_accounts_spec()[i + 6] == authority_keys_of(testnet_names()[i]).stash
        },
{
    lemma_testnet_seeds();
    reveal_strlit("Alice");
    reveal_strlit("Bob");
    reveal_strlit("Charlie");
    reveal_strlit("Dave");
    reveal_strlit("Eve");
    reveal_strlit("Ferdie");
    reveal_strlit("Alice//stash");
    reveal_strlit("Bob//stash");
    reveal_strlit("Charlie//stash");
    reveal_strlit("Dave//stash");
    reveal_strlit("Eve//stash");
    reveal_strlit("Ferdie//stash");
    let names = testnet_names();
    let seeds = testnet_seeds();
    assert forall|i: int| 0 <= i < 6 implies stash_seed(#[trigger] names[i]) == seeds[i + 6] by {
        assert(stash_seed(names[i]) =~= seeds[i + 6]);
    }
    assert forall|i: int| 0 <= i < 6 implies names[i] == seeds[i] by {}
}

/// Session key entry `i` of a genesis carries authority `i`'s own keys, field by field.
pub open spec fn session_keys_carry_authority_keys(g: GenesisConfig, auths: Seq<AuthorityKeys>) -> bool {
    &&& g.session_keys@.len() == auths.len()
    &&& forall|i: int| 0 <= i < auths.len() ==> {
        &&& (#[trigger] g.session_keys@[i]).2.babe == auths[i].babe
        &&& g.session_keys@[i].2.grandpa == auths[i].grandpa
        &&& g.session_keys@[i].2.im_online == auths[i].im_online
        &&& g.session_keys@[i].2.para_validator == auths[i].para_validator
        &&& g.session_keys@[i].2.para_assignment == auths[i].para_assignment
        &&& g.session_keys@[i].2.authority_discovery == auths[i].authority_discovery
    }
}

/// In a test network genesis, each validator's session keys are its own BABE, GRANDPA,
/// I'm-online, parachain validator, assignment and authority discovery keys.
pub proof fn lemma_testnet_session_keys_are_authority_keys(
    g: GenesisConfig,
    wasm: Seq<u8>,
    auths: Seq<AuthorityKeys>,
    endowed: Seq<AccountId>,
)
    requires
        is_testnet_genesis(g, wasm, auths, endowed),
    ensures
        session_keys_carry_authority_keys(g, auths),
{
}

/// In a staging genesis, each validator's session keys are its own keys, field by field.
pub proof fn lemma_staging_session_keys_are_authority_keys(
    g: GenesisConfig,
    wasm: Seq<u8>,
    auths: Seq<AuthorityKeys>,
    endowed: Seq<AccountId>,
)
    requires
        is_staging_genesis(g, wasm, auths, endowed),
    ensures
        session_keys_carry_authority_keys(g, auths),
{
}

/// The key a seed gives in each scheme is the public key of the pair that the secret URI
/// `//seed` derives, unchanged; a seed gives no key exactly when that URI is refused.
pub proof fn lemma_keys_are_derived_from_dev_uri(seed: Seq<char>)
    ensures
        public_from_seed(KeyScheme::Sr25519, seed) == match sr25519_public_from_suri(seq!['/', '/'] + seed) {
            Some(k) => Some(PublicKey::Sr25519(k)),
            None => None::<PublicKey>,
        },
        public_from_seed(KeyScheme::Ed25519, seed) == match ed25519_public_from_suri(seq!['/', '/'] + seed) {
            Some(k) => Some(PublicKey::Ed25519(k)),
            None => None::<PublicKey>,
        },
        public_from_seed(KeyScheme::Ecdsa, seed) == match ecdsa_public_from_suri(seq!['/', '/'] + seed) {
            Some(k) => Some(PublicKey::Ecdsa(k)),
            None => None::<PublicKey>,
        },
        sr25519_public_from_suri(seq!['/', '/'] + seed) is Some
            ==> sr25519_public_from_suri(seq!['/', '/'] + seed) == Some(sr25519_key(seed)),
        ed25519_public_from_suri(seq!['/', '/'] + seed) is Some
            ==> ed25519_public_from_suri(seq!['/', '/'] + seed) == Some(ed25519_key(seed)),
        ecdsa_public_from_suri(seq!['/', '/'] + seed) is Some
            ==> ecdsa_public_from_suri(seq!['/', '/'] + seed) == Some(ecdsa_key(seed)),
        ecdsa_public_from_suri(seq!['/', '/'] + seed) is Some
            ==> public_from_seed(KeyScheme::Ecdsa, seed) == Some(PublicKey::Ecdsa(ecdsa_key(seed))),
{
}

/// The account of a seed is what `MultiSigner::into_account` makes of the seed's key:
/// the Sr25519 or Ed25519 key itself, or the hash of the ECDSA key.
pub proof fn lemma_accounts_are_derived_from_dev_uri(seed: Seq<char>)
    ensures
        sr25519_public_from_suri(seq!['/', '/'] + seed) matches Some(k)
            ==> account_from_seed(KeyScheme::Sr25519, seed) == k,
        ed25519_public_from_suri(seq!['/', '/'] + seed) matches Some(k)
            ==> account_from_seed(KeyScheme::Ed25519, seed) == k,
        ecdsa_public_from_suri(seq!['/', '/'] + seed) matches Some(k)
            ==> account_from_seed(KeyScheme::Ecdsa, seed) == ecdsa_account_id(k),
{
}

/// The keys of the authority of a seed come from its own URIs: the stash from
/// `//seed//stash`, the controller and the Sr25519 session keys from `//seed`, and the
/// GRANDPA key from the Ed25519 pair of `//seed`.
pub proof fn lemma_authority_keys_are_derived_from_dev_uri(seed: Seq<char>)
    requires
        sr25519_public_from_suri(seq!['/', '/'] + seed + seq!['/', '/', 's', 't', 'a', 's', 'h']) is Some,
        sr25519_public_from_suri(seq!['/', '/'] + seed) is Some,
        ed25519_public_from_suri(seq!['/', '/'] + seed) is Some,
    ensures
        sr25519_public_from_suri(seq!['/', '/'] + seed + seq!['/', '/', 's', 't', 'a', 's', 'h'])
            == Some(authority_keys_of(seed).stash),
        sr25519_public_from_suri(seq!['/', '/'] + seed) == Some(authority_keys_of(seed).controller),
        sr25519_public_from_suri(seq!['/', '/'] + seed) == Some(authority_keys_of(seed).babe),
        sr25519_public_from_suri(seq!['/', '/'] + seed) == Some(authority_keys_of(seed).im_online),
        sr25519_public_from_suri(seq!['/', '/'] + seed) == Some(authority_keys_of(seed).para_validator),
        sr25519_public_from_suri(seq!['/', '/'] + seed) == Some(authority_keys_of(seed).para_assignment),
        sr25519_public_from_suri(seq!['/', '/'] + seed) == Some(authority_keys_of(seed).authority_discovery),
        ed25519_public_from_suri(seq!['/', '/'] + seed) == Some(authority_keys_of(seed).grandpa),
{
    assert(seq!['/', '/'] + stash_seed(seed) =~= seq!['/', '/'] + seed + seq!['/', '/', 's', 't', 'a', 's', 'h']);
}

/// The names behind the test network accounts, in order: six participants, then their
/// stashes.
pub open spec fn testnet_account_uris() -> Seq<Seq<char>> {
    seq![
        "//Alice"@, "//Bob"@, "//Charlie"@, "//Dave"@, "//Eve"@, "//Ferdie"@,
        "//Alice//stash"@, "//Bob//stash"@, "//Charlie//stash"@, "//Dave//stash"@,
        "//Eve//stash"@, "//Ferdie//stash"@,
    ]
}

/// Test network account `i` is the Sr25519 public key that URI `i` derives.
pub proof fn lemma_testnet_accounts_are_derived()
    ensures
        testnet_accounts_spec().len() == 12,
        forall|i: int| 0 <= i < 12 ==>
            (sr25519_public_from_suri(#[trigger] testnet_account_uris()[i]) matches Some(k)
                ==> testnet_accounts_spec()[i] == k),
{
    lemma_testnet_seeds();
    reveal_strlit("Alice");
    reveal_strlit("Bob");
    reveal_strlit("Charlie");
    reveal_strlit("Dave");
    reveal_strlit("Eve");
    reveal_strlit("Ferdie");
    reveal_strlit("Alice//stash");
    reveal_strlit("Bob//stash");
    reveal_strlit("Charlie//stash");
    reveal_strlit("Dave//stash");
    reveal_strlit("Eve//stash");
    reveal_strlit("Ferdie//stash");
    reveal_strlit("//Alice");
    reveal_strlit("//Bob");
    reveal_strlit("//Charlie");
    reveal_strlit("//Dave");
    reveal_strlit("//Eve");
    reveal_strlit("//Ferdie");
    reveal_strlit("//Alice//stash");
    reveal_strlit("//Bob//stash");
    reveal_strlit("//Charlie//stash");
    reveal_strlit("//Dave//stash");
    reveal_strlit("//Eve//stash");
    reveal_strlit("//Ferdie//stash");
    let seeds = testnet_seeds();
    let uris = testnet_account_uris();
    assert forall|i: int| 0 <= i < 12 implies #[trigger] uris[i] == seq!['/', '/'] + seeds[i] by {
        assert(uris[i] =~= seq!['/', '/'] + seeds[i]);
    }
}

} // verus!
