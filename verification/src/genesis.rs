//! The genesis state of the relay chain: balances, session keys, staking and the
//! parachains host configuration.

use vstd::prelude::*;
use vstd::slice::slice_to_vec;
use crate::error::ChainSpecError;
use crate::keys::{
    authority_keys_are_derivable, authority_keys_derivable, authority_keys_of, get_account_id_from_seed,
    get_authority_keys_from_seed_no_beefy, testnet_accounts, testnet_accounts_are_derivable,
    testnet_accounts_derivable, testnet_accounts_spec, AccountId, AuthorityKeys, KeyScheme,
};

verus! {

/// One unit of the chain's token, in its smallest denomination (the token has 9 decimals).
pub const UNITS: u128 = 1_000_000_000;

/// The balance given to every endowed account.
pub const ENDOWMENT: u128 = 1_000_000_000_000_000;

/// The bond of every initial validator.
pub const STASH: u128 = 100_000_000_000;

/// The largest validation code, in bytes.
pub const MAX_CODE_SIZE: u32 = 3_145_728;

/// The largest proof of validity, in bytes.
pub const MAX_POV_SIZE: u32 = 5_242_880;

/// The session keys of a validator.
#[derive(Clone, Copy, Debug)]
pub struct SessionKeys {
    pub babe: [u8; 32],
    pub grandpa: [u8; 32],
    pub im_online: [u8; 32],
    pub para_validator: [u8; 32],
    pub para_assignment: [u8; 32],
    pub authority_discovery: [u8; 32],
}

/// The role a staker takes at genesis.
#[derive(Debug)]
pub enum StakerStatus {
    Idle,
    Validator,
    Nominator(Vec<AccountId>),
}

/// How new eras are forced.
#[derive(Clone, Copy, Debug)]
pub enum Forcing {
    NotForcing,
    ForceNew,
    ForceNone,
    ForceAlways,
}

/// The genesis of the staking pallet.
#[derive(Debug)]
pub struct StakingConfig {
    pub validator_count: u32,
    pub minimum_validator_count: u32,
    pub stakers: Vec<(AccountId, AccountId, u128, StakerStatus)>,
    pub invulnerables: Vec<AccountId>,
    pub force_era: Forcing,
    /// The share of a slash paid to the reporters, in parts per billion.
    pub slash_reward_fraction: u32,
}

/// Which slots BABE may claim.
#[derive(Clone, Copy, Debug)]
pub enum AllowedSlots {
    PrimarySlots,
    PrimaryAndSecondaryPlainSlots,
    PrimaryAndSecondaryVRFSlots,
}

/// The BABE epoch configuration: the probability of a primary slot and the allowed slots.
#[derive(Clone, Copy, Debug)]
pub struct BabeEpochConfiguration {
    pub c: (u64, u64),
    pub allowed_slots: AllowedSlots,
}

/// The configuration of the parachains host.
#[derive(Clone, Copy, Debug)]
pub struct HostConfiguration {
    pub validation_upgrade_frequency: u32,
    pub validation_upgrade_delay: u32,
    pub code_retention_period: u32,
    pub max_code_size: u32,
    pub max_pov_size: u32,
    pub max_head_data_size: u32,
    pub group_rotation_frequency: u32,
    pub chain_availability_period: u32,
    pub thread_availability_period: u32,
    pub max_upward_queue_count: u32,
    pub max_upward_queue_size: u32,
    pub max_downward_message_size: u32,
    pub ump_service_total_weight: u64,
    pub max_upward_message_size: u32,
    pub max_upward_message_num_per_candidate: u32,
    pub hrmp_sender_deposit: u128,
    pub hrmp_recipient_deposit: u128,
    pub hrmp_channel_max_capacity: u32,
    pub hrmp_channel_max_total_size: u32,
    pub hrmp_max_parachain_inbound_channels: u32,
    pub hrmp_max_parathread_inbound_channels: u32,
    pub hrmp_channel_max_message_size: u32,
    pub hrmp_max_parachain_outbound_channels: u32,
    pub hrmp_max_parathread_outbound_channels: u32,
    pub hrmp_max_message_num_per_candidate: u32,
    pub dispute_period: u32,
    pub no_show_slots: u32,
    pub n_delay_tranches: u32,
    pub needed_approvals: u32,
    pub relay_vrf_modulo_samples: u32,
    pub zeroth_delay_tranche_width: u32,
}

/// How often the changes trie builds digests, and how many levels of them.
#[derive(Clone, Copy, Debug)]
pub struct ChangesTrieConfiguration {
    pub digest_interval: u32,
    pub digest_levels: u32,
}

/// The genesis state of the relay chain runtime.
#[derive(Debug)]
pub struct GenesisConfig {
    /// The runtime's WebAssembly code.
    pub code: Vec<u8>,
    /// The changes trie configuration; `None` builds no changes trie.
    pub changes_trie_config: Option<ChangesTrieConfiguration>,
    pub balances: Vec<(AccountId, u128)>,
    pub indices: Vec<(u32, AccountId)>,
    /// For each validator: its account, its validator id and its session keys.
    pub session_keys: Vec<(AccountId, AccountId, SessionKeys)>,
    pub staking: StakingConfig,
    pub council_members: Vec<AccountId>,
    pub technical_committee_members: Vec<AccountId>,
    pub babe_authorities: Vec<([u8; 32], u64)>,
    pub babe_epoch_config: Option<BabeEpochConfiguration>,
    pub authority_discovery_keys: Vec<[u8; 32]>,
    pub claims: Vec<([u8; 20], u128)>,
    /// Vesting schedules of claims: per Ethereum address, the locked amount, the amount
    /// unlocked per block and the starting block.
    pub claims_vesting: Vec<([u8; 20], (u128, u128, u32))>,
    pub vesting: Vec<(AccountId, u32, u32, u128)>,
    pub host_configuration: HostConfiguration,
}

/// The host configuration every genesis starts from.
pub open spec fn default_host_configuration() -> HostConfiguration {
    HostConfiguration {
        validation_upgrade_frequency: 1,
        validation_upgrade_delay: 1,
        code_retention_period: 1200,
        max_code_size: MAX_CODE_SIZE,
        max_pov_size: MAX_POV_SIZE,
        max_head_data_size: 32_768,
        group_rotation_frequency: 20,
        chain_availability_period: 4,
        thread_availability_period: 4,
        max_upward_queue_count: 8,
        max_upward_queue_size: 1_048_576,
        max_downward_message_size: 1024,
        ump_service_total_weight: 4_000_000_000,
        max_upward_message_size: 1_048_576,
        max_upward_message_num_per_candidate: 5,
        hrmp_sender_deposit: 0,
        hrmp_recipient_deposit: 0,
        hrmp_channel_max_capacity: 8,
        hrmp_channel_max_total_size: 8_192,
        hrmp_max_parachain_inbound_channels: 4,
        hrmp_max_parathread_inbound_channels: 4,
        hrmp_channel_max_message_size: 1_048_576,
        hrmp_max_parachain_outbound_channels: 4,
        hrmp_max_parathread_outbound_channels: 4,
        hrmp_max_message_num_per_candidate: 5,
        dispute_period: 6,
        no_show_slots: 2,
        n_delay_tranches: 25,
        needed_approvals: 2,
        relay_vrf_modulo_samples: 2,
        zeroth_delay_tranche_width: 0,
    }
}

/// The default parachains host configuration.
pub fn default_parachains_host_configuration() -> (r: HostConfiguration)
    ensures
        r == default_host_configuration(),
{
    HostConfiguration {
        validation_upgrade_frequency: 1u32,
        validation_upgrade_delay: 1,
        code_retention_period: 1200,
        max_code_size: MAX_CODE_SIZE,
        max_pov_size: MAX_POV_SIZE,
        max_head_data_size: 32 * 1024,
        group_rotation_frequency: 20,
        chain_availability_period: 4,
        thread_availability_period: 4,
        max_upward_queue_count: 8,
        max_upward_queue_size: 1024 * 1024,
        max_downward_message_size: 1024,
        // About four milliseconds of execution.
        ump_service_total_weight: 4 * 1_000_000_000,
        max_upward_message_size: 1024 * 1024,
        max_upward_message_num_per_candidate: 5,
        hrmp_sender_deposit: 0,
        hrmp_recipient_deposit: 0,
        hrmp_channel_max_capacity: 8,
        hrmp_channel_max_total_size: 8 * 1024,
        hrmp_max_parachain_inbound_channels: 4,
        hrmp_max_parathread_inbound_channels: 4,
        hrmp_channel_max_message_size: 1024 * 1024,
        hrmp_max_parachain_outbound_channels: 4,
        hrmp_max_parathread_outbound_channels: 4,
        hrmp_max_message_num_per_candidate: 5,
        dispute_period: 6,
        no_show_slots: 2,
        n_delay_tranches: 25,
        needed_approvals: 2,
        relay_vrf_modulo_samples: 2,
        zeroth_delay_tranche_width: 0,
    }
}

/// The BABE epoch configuration of the runtime at genesis: a primary slot with probability
/// one in four, and primary and secondary VRF slots allowed.
pub open spec fn babe_genesis_epoch_config() -> BabeEpochConfiguration {
    BabeEpochConfiguration { c: (1, 4), allowed_slots: AllowedSlots::PrimaryAndSecondaryVRFSlots }
}

fn babe_genesis_epoch_configuration() -> (r: BabeEpochConfiguration)
    ensures
        r == babe_genesis_epoch_config(),
{
    BabeEpochConfiguration { c: (1, 4), allowed_slots: AllowedSlots::PrimaryAndSecondaryVRFSlots }
}

/// Trusted: `sp_runtime::Perbill::from_percent(x)`, read back with `deconstruct()`.
/// The source computes `min(x, 100) * 1_000_000_000 / 100` parts per billion.
#[verifier::external_body]
fn perbill_from_percent(x: u32) -> (parts: u32)
    ensures
        parts == (if x > 100 { 100 } else { x }) * 10_000_000,
{
    sp_runtime::Perbill::from_percent(x).deconstruct()
}

/// The session keys of a validator.
pub open spec fn session_keys_of(a: AuthorityKeys) -> SessionKeys {
    SessionKeys {
        babe: a.babe,
        grandpa: a.grandpa,
        im_online: a.im_online,
        para_validator: a.para_validator,
        para_assignment: a.para_assignment,
        authority_discovery: a.authority_discovery,
    }
}

/// Puts the session keys of a validator together.
pub fn polkadot_session_keys(
    babe: [u8; 32],
    grandpa: [u8; 32],
    im_online: [u8; 32],
    para_validator: [u8; 32],
    para_assignment: [u8; 32],
    authority_discovery: [u8; 32],
) -> (r: SessionKeys)
    ensures
        r.babe == babe,
        r.grandpa == grandpa,
        r.im_online == im_online,
        r.para_validator == para_validator,
        r.para_assignment == para_assignment,
        r.authority_discovery == authority_discovery,
{
    SessionKeys { babe, grandpa, im_online, para_validator, para_assignment, authority_discovery }
}

/// Each account, with the given balance.
pub open spec fn endowment_balances(accounts: Seq<AccountId>, amount: u128) -> Seq<(AccountId, u128)> {
    accounts.map_values(|a: AccountId| (a, amount))
}

/// For each authority: its stash, twice, and its session keys.
pub open spec fn session_key_entries(auths: Seq<AuthorityKeys>) -> Seq<(AccountId, AccountId, SessionKeys)> {
    auths.map_values(|x: AuthorityKeys| (x.stash, x.stash, session_keys_of(x)))
}

/// For each authority: its stash and controller, bonded with the given amount, as a validator.
pub open spec fn validator_stakers(auths: Seq<AuthorityKeys>, bond: u128) -> Seq<(AccountId, AccountId, u128, StakerStatus)> {
    auths.map_values(|x: AuthorityKeys| (x.stash, x.controller, bond, StakerStatus::Validator))
}

/// The stash account of each authority.
pub open spec fn stash_accounts(auths: Seq<AuthorityKeys>) -> Seq<AccountId> {
    auths.map_values(|x: AuthorityKeys| x.stash)
}

/// What every genesis of this chain has in common: the code, the empty lists and the
/// BABE and host configurations.
pub open spec fn genesis_common(g: GenesisConfig, wasm: Seq<u8>) -> bool {
    &&& g.code@ == wasm
    &&& g.indices@.len() == 0
    &&& g.council_members@.len() == 0
    &&& g.technical_committee_members@.len() == 0
    &&& g.babe_authorities@.len() == 0
    &&& g.babe_epoch_config == Some(babe_genesis_epoch_config())
    &&& g.authority_discovery_keys@.len() == 0
    &&& g.changes_trie_config is None
    &&& g.claims@.len() == 0
    &&& g.claims_vesting@.len() == 0
    &&& g.vesting@.len() == 0
    &&& g.host_configuration == default_host_configuration()
    &&& g.staking.slash_reward_fraction == 100_000_000
}

/// The genesis of a test network with the given authorities and endowed accounts.
pub open spec fn is_testnet_genesis(
    g: GenesisConfig,
    wasm: Seq<u8>,
    auths: Seq<AuthorityKeys>,
    endowed: Seq<AccountId>,
) -> bool {
    &&& genesis_common(g, wasm)
    &&& g.balances@ == endowment_balances(endowed, ENDOWMENT)
    &&& g.session_keys@ == session_key_entries(auths)
    &&& g.staking.minimum_validator_count == 1
    &&& g.staking.validator_count == auths.len() as u32
    &&& g.staking.stakers@ == validator_stakers(auths, STASH)
    &&& g.staking.invulnerables@ == stash_accounts(auths)
    &&& g.staking.force_era == Forcing::NotForcing
}

/// The genesis of the staging network with the given authorities and endowed accounts.
pub open spec fn is_staging_genesis(
    g: GenesisConfig,
    wasm: Seq<u8>,
    auths: Seq<AuthorityKeys>,
    endowed: Seq<AccountId>,
) -> bool {
    &&& genesis_common(g, wasm)
    &&& g.balances@ == endowment_balances(endowed, ENDOWMENT) + endowment_balances(stash_accounts(auths), STASH)
    &&& g.session_keys@ == session_key_entries(auths)
    &&& g.staking.minimum_validator_count == 4
    &&& g.staking.validator_count == 50
    &&& g.staking.stakers@ == validator_stakers(auths, STASH)
    &&& g.staking.invulnerables@ == stash_accounts(auths)
    &&& g.staking.force_era == Forcing::ForceNone
}

fn endowed_balances(accounts: &Vec<AccountId>, amount: u128) -> (r: Vec<(AccountId, u128)>)
    ensures
        r@ == endowment_balances(accounts@, amount),
{
    let mut r: Vec<(AccountId, u128)> = Vec::new();
    let mut i: usize = 0;
    while i < accounts.len()
        invariant
            i <= accounts@.len(),
            r@ == endowment_balances(accounts@.take(i as int), amount),
        decreases accounts@.len() - i,
    {
        r.push((accounts[i], amount));
        proof {
            assert(accounts@.take(i + 1) == accounts@.take(i as int).push(accounts@[i as int]));
        }
        i = i + 1;
    }
    proof {
        assert(accounts@.take(accounts@.len() as int) == accounts@);
    }
    r
}

fn stashes(auths: &Vec<AuthorityKeys>) -> (r: Vec<AccountId>)
    ensures
        r@ == stash_accounts(auths@),
{
    let mut r: Vec<AccountId> = Vec::new();
    let mut i: usize = 0;
    while i < auths.len()
        invariant
            i <= auths@.len(),
            r@ == stash_accounts(auths@.take(i as int)),
        decreases auths@.len() - i,
    {
        r.push(auths[i].stash);
        proof {
            assert(auths@.take(i + 1) == auths@.take(i as int).push(auths@[i as int]));
        }
        i = i + 1;
    }
    proof {
        assert(auths@.take(auths@.len() as int) == auths@);
    }
    r
}

fn session_entries(auths: &Vec<AuthorityKeys>) -> (r: Vec<(AccountId, AccountId, SessionKeys)>)
    ensures
        r@ == session_key_entries(auths@),
{
    let mut r: Vec<(AccountId, AccountId, SessionKeys)> = Vec::new();
    let mut i: usize = 0;
    while i < auths.len()
        invariant
            i <= auths@.len(),
            r@ == session_key_entries(auths@.take(i as int)),
        decreases auths@.len() - i,
    {
        let x = auths[i];
        let keys = polkadot_session_keys(
            x.babe,
            x.grandpa,
            x.im_online,
            x.para_validator,
            x.para_assignment,
            x.authority_discovery,
        );
        r.push((x.stash, x.stash, keys));
        proof {
            assert(auths@.take(i + 1) == auths@.take(i as int).push(auths@[i as int]));
        }
        i = i + 1;
    }
    proof {
        assert(auths@.take(auths@.len() as int) == auths@);
    }
    r
}

fn stakers(auths: &Vec<AuthorityKeys>, bond: u128) -> (r: Vec<(AccountId, AccountId, u128, StakerStatus)>)
    ensures
        r@ == validator_stakers(auths@, bond),
{
    let mut r: Vec<(AccountId, AccountId, u128, StakerStatus)> = Vec::new();
    let mut i: usize = 0;
    while i < auths.len()
        invariant
            i <= auths@.len(),
            r@ == validator_stakers(auths@.take(i as int), bond),
        decreases auths@.len() - i,
    {
        r.push((auths[i].stash, auths[i].controller, bond, StakerStatus::Validator));
        proof {
            assert(auths@.take(i + 1) == auths@.take(i as int).push(auths@[i as int]));
        }
        i = i + 1;
    }
    proof {
        assert(auths@.take(auths@.len() as int) == auths@);
    }
    r
}

/// The genesis of the staging network, which starts with no endowed accounts and no
/// initial authorities.
pub fn polkadot_staging_testnet_config_genesis(wasm_binary: &[u8]) -> (r: GenesisConfig)
    ensures
        is_staging_genesis(r, wasm_binary@, Seq::empty(), Seq::empty()),
{
    let endowed_accounts: Vec<AccountId> = Vec::new();
    let initial_authorities: Vec<AuthorityKeys> = Vec::new();

    let mut balances = endowed_balances(&endowed_accounts, ENDOWMENT);
    let mut stash_balances = endowed_balances(&stashes(&initial_authorities), STASH);
    balances.append(&mut stash_balances);

    GenesisConfig {
        code: slice_to_vec(wasm_binary),
        changes_trie_config: None,
        balances,
        indices: Vec::new(),
        session_keys: session_entries(&initial_authorities),
        staking: StakingConfig {
            validator_count: 50,
            minimum_validator_count: 4,
            stakers: stakers(&initial_authorities, STASH),
            invulnerables: stashes(&initial_authorities),
            force_era: Forcing::ForceNone,
            slash_reward_fraction: perbill_from_percent(10),
        },
        council_members: Vec::new(),
        technical_committee_members: Vec::new(),
        babe_authorities: Vec::new(),
        babe_epoch_config: Some(babe_genesis_epoch_configuration()),
        authority_discovery_keys: Vec::new(),
        claims: Vec::new(),
        claims_vesting: Vec::new(),
        vesting: Vec::new(),
        host_configuration: default_parachains_host_configuration(),
    }
}

/// The genesis of a test network: the authorities stake and validate, and each endowed
/// account (the test network accounts where none are given) receives the endowment.
pub fn polkadot_testnet_genesis(
    wasm_binary: &[u8],
    initial_authorities: Vec<AuthorityKeys>,
    _root_key: AccountId,
    endowed_accounts: Option<Vec<AccountId>>,
) -> (r: GenesisConfig)
    requires
        endowed_accounts is Some || testnet_accounts_derivable(),
    ensures
        is_testnet_genesis(
            r,
            wasm_binary@,
            initial_authorities@,
            match endowed_accounts {
                Some(v) => v@,
                None => testnet_accounts_spec(),
            },
        ),
{
    let endowed: Vec<AccountId> = match endowed_accounts {
        Some(v) => v,
        None => testnet_accounts(),
    };
    #[verifier::truncate]
    let validator_count: u32 = initial_authorities.len() as u32;

    GenesisConfig {
        code: slice_to_vec(wasm_binary),
        changes_trie_config: None,
        balances: endowed_balances(&endowed, ENDOWMENT),
        indices: Vec::new(),
        session_keys: session_entries(&initial_authorities),
        staking: StakingConfig {
            validator_count,
            minimum_validator_count: 1,
            stakers: stakers(&initial_authorities, STASH),
            invulnerables: stashes(&initial_authorities),
            force_era: Forcing::NotForcing,
            slash_reward_fraction: perbill_from_percent(10),
        },
        council_members: Vec::new(),
        technical_committee_members: Vec::new(),
        babe_authorities: Vec::new(),
        babe_epoch_config: Some(babe_genesis_epoch_configuration()),
        authority_discovery_keys: Vec::new(),
        claims: Vec::new(),
        claims_vesting: Vec::new(),
        vesting: Vec::new(),
        host_configuration: default_parachains_host_configuration(),
    }
}

/// Whether every key the development genesis needs can be derived.
pub open spec fn development_genesis_derivable() -> bool {
    authority_keys_derivable("Alice"@) && testnet_accounts_derivable()
}

/// Whether every key the local test network genesis needs can be derived.
pub open spec fn local_testnet_genesis_derivable() -> bool {
    authority_keys_derivable("Alice"@) && authority_keys_derivable("Bob"@) && testnet_accounts_derivable()
}

/// The genesis of the development chain: Alice is the single validator.
pub fn polkadot_development_config_genesis(wasm_binary: &[u8]) -> (r: Result<GenesisConfig, ChainSpecError>)
    ensures
        r is Ok <==> development_genesis_derivable(),
        r matches Ok(g) ==> is_testnet_genesis(
            g,
            wasm_binary@,
            seq![authority_keys_of("Alice"@)],
            testnet_accounts_spec(),
        ),
        r matches Err(e) ==> e == ChainSpecError::InvalidSeed,
{
    if !(authority_keys_are_derivable("Alice") && testnet_accounts_are_derivable()) {
        return Err(ChainSpecError::InvalidSeed);
    }
    let authorities = vec![get_authority_keys_from_seed_no_beefy("Alice")];
    let root = get_account_id_from_seed(KeyScheme::Sr25519, "Alice");
    let g = polkadot_testnet_genesis(wasm_binary, authorities, root, None);
    assert(authorities@ =~= seq![authority_keys_of("Alice"@)]);
    Ok(g)
}

/// The genesis of the local test network: Alice and Bob validate.
pub fn polkadot_local_testnet_genesis(wasm_binary: &[u8]) -> (r: Result<GenesisConfig, ChainSpecError>)
    ensures
        r is Ok <==> local_testnet_genesis_derivable(),
        r matches Ok(g) ==> is_testnet_genesis(
            g,
            wasm_binary@,
            seq![authority_keys_of("Alice"@), authority_keys_of("Bob"@)],
            testnet_accounts_spec(),
        ),
        r matches Err(e) ==> e == ChainSpecError::InvalidSeed,
{
    if !(authority_keys_are_derivable("Alice") && authority_keys_are_derivable("Bob")
        && testnet_accounts_are_derivable()) {
        return Err(ChainSpecError::InvalidSeed);
    }
    let authorities = vec![
        get_authority_keys_from_seed_no_beefy("Alice"),
        get_authority_keys_from_seed_no_beefy("Bob"),
    ];
    let root = get_account_id_from_seed(KeyScheme::Sr25519, "Alice");
    let ghost auths = authorities@;
    let g = polkadot_testnet_genesis(wasm_binary, authorities, root, None);
    assert(auths =~= seq![authority_keys_of("Alice"@), authority_keys_of("Bob"@)]);
    Ok(g)
}

} // verus!
