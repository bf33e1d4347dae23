use catena_spec::chain::{
    chain_property, polkadot_development_config, polkadot_local_testnet_config,
    polkadot_staging_testnet_config, ChainType, Extensions, GenesisSource,
};
use catena_spec::error::ChainSpecError;
use catena_spec::genesis::{
    default_parachains_host_configuration, polkadot_development_config_genesis,
    polkadot_local_testnet_genesis, polkadot_session_keys, polkadot_staging_testnet_config_genesis,
    polkadot_testnet_genesis, Forcing, StakerStatus, AllowedSlots, ENDOWMENT, MAX_CODE_SIZE,
    MAX_POV_SIZE, STASH, UNITS,
};
use catena_spec::keys::{get_authority_keys_from_seed_no_beefy, testnet_accounts};

const WASM: &[u8] = &[0, 97, 115, 109, 1, 0, 0, 0];

#[test]
fn host_configuration_values() {
    let c = default_parachains_host_configuration();
    assert_eq!(c.validation_upgrade_frequency, 1);
    assert_eq!(c.validation_upgrade_delay, 1);
    assert_eq!(c.code_retention_period, 1200);
    assert_eq!(c.max_code_size, MAX_CODE_SIZE);
    assert_eq!(c.max_pov_size, MAX_POV_SIZE);
    assert_eq!(c.max_head_data_size, 32 * 1024);
    assert_eq!(c.group_rotation_frequency, 20);
    assert_eq!(c.chain_availability_period, 4);
    assert_eq!(c.thread_availability_period, 4);
    assert_eq!(c.max_upward_queue_count, 8);
    assert_eq!(c.max_upward_queue_size, 1024 * 1024);
    assert_eq!(c.max_downward_message_size, 1024);
    assert_eq!(c.ump_service_total_weight, 4_000_000_000);
    assert_eq!(c.max_upward_message_size, 1024 * 1024);
    assert_eq!(c.max_upward_message_num_per_candidate, 5);
    assert_eq!(c.hrmp_sender_deposit, 0);
    assert_eq!(c.hrmp_recipient_deposit, 0);
    assert_eq!(c.hrmp_channel_max_capacity, 8);
    assert_eq!(c.hrmp_channel_max_total_size, 8 * 1024);
    assert_eq!(c.hrmp_max_parachain_inbound_channels, 4);
    assert_eq!(c.hrmp_max_parathread_inbound_channels, 4);
    assert_eq!(c.hrmp_channel_max_message_size, 1024 * 1024);
    assert_eq!(c.hrmp_max_parachain_outbound_channels, 4);
    assert_eq!(c.hrmp_max_parathread_outbound_channels, 4);
    assert_eq!(c.hrmp_max_message_num_per_candidate, 5);
    assert_eq!(c.dispute_period, 6);
    assert_eq!(c.no_show_slots, 2);
    assert_eq!(c.n_delay_tranches, 25);
    assert_eq!(c.needed_approvals, 2);
    assert_eq!(c.relay_vrf_modulo_samples, 2);
    assert_eq!(c.zeroth_delay_tranche_width, 0);
}

#[test]
fn currency_amounts() {
    assert_eq!(ENDOWMENT, 1_000_000 * UNITS);
    assert_eq!(STASH, 100 * UNITS);
}

#[test]
fn session_keys_keep_their_places() {
    let k = polkadot_session_keys([1; 32], [2; 32], [3; 32], [4; 32], [5; 32], [6; 32]);
    assert_eq!(k.babe, [1; 32]);
    assert_eq!(k.grandpa, [2; 32]);
    assert_eq!(k.im_online, [3; 32]);
    assert_eq!(k.para_validator, [4; 32]);
    assert_eq!(k.para_assignment, [5; 32]);
    assert_eq!(k.authority_discovery, [6; 32]);
}

#[test]
fn staging_genesis_starts_empty() {
    let g = polkadot_staging_testnet_config_genesis(WASM);
    assert_eq!(g.code, WASM.to_vec());
    assert!(g.balances.is_empty());
    assert!(g.session_keys.is_empty());
    assert!(g.indices.is_empty());
    assert!(g.changes_trie_config.is_none());
    assert!(g.claims_vesting.is_empty());
    assert_eq!(g.staking.validator_count, 50);
    assert_eq!(g.staking.minimum_validator_count, 4);
    assert!(g.staking.stakers.is_empty());
    assert!(g.staking.invulnerables.is_empty());
    assert!(matches!(g.staking.force_era, Forcing::ForceNone));
    assert_eq!(g.staking.slash_reward_fraction, 100_000_000);
    let babe = g.babe_epoch_config.unwrap();
    assert_eq!(babe.c, (1, 4));
    assert!(matches!(babe.allowed_slots, AllowedSlots::PrimaryAndSecondaryVRFSlots));
    assert_eq!(g.host_configuration.needed_approvals, 2);
}

#[test]
fn testnet_genesis_with_given_endowments() {
    let a = get_authority_keys_from_seed_no_beefy("Alice");
    let b = get_authority_keys_from_seed_no_beefy("Bob");
    let g = polkadot_testnet_genesis(WASM, vec![a, b], a.controller, Some(vec![[7; 32], [8; 32]]));
    assert_eq!(g.balances, vec![([7; 32], ENDOWMENT), ([8; 32], ENDOWMENT)]);
    assert_eq!(g.staking.validator_count, 2);
    assert_eq!(g.staking.minimum_validator_count, 1);
    assert!(matches!(g.staking.force_era, Forcing::NotForcing));
    assert_eq!(g.staking.invulnerables, vec![a.stash, b.stash]);
    assert_eq!(g.session_keys.len(), 2);
    assert_eq!(g.session_keys[1].0, b.stash);
    assert_eq!(g.session_keys[1].1, b.stash);
    assert_eq!(g.session_keys[1].2.grandpa, b.grandpa);
    assert_eq!(g.session_keys[1].2.babe, b.babe);
    assert_eq!(g.staking.stakers.len(), 2);
    assert_eq!(g.staking.stakers[0].0, a.stash);
    assert_eq!(g.staking.stakers[0].1, a.controller);
    assert_eq!(g.staking.stakers[0].2, STASH);
    assert!(matches!(g.staking.stakers[0].3, StakerStatus::Validator));
}

#[test]
fn testnet_genesis_without_authorities() {
    let g = polkadot_testnet_genesis(WASM, Vec::new(), [0; 32], Some(Vec::new()));
    assert!(g.balances.is_empty());
    assert_eq!(g.staking.validator_count, 0);
    assert!(g.staking.stakers.is_empty());
}

#[test]
fn development_genesis_has_alice_alone() {
    let g = polkadot_development_config_genesis(WASM).unwrap();
    let alice = get_authority_keys_from_seed_no_beefy("Alice");
    assert_eq!(g.staking.validator_count, 1);
    assert_eq!(g.staking.invulnerables, vec![alice.stash]);
    assert_eq!(g.balances.len(), 12);
    let accounts = testnet_accounts();
    for i in 0..12 {
        assert_eq!(g.balances[i], (accounts[i], ENDOWMENT));
    }
    let total: u128 = g.balances.iter().map(|b| b.1).sum();
    assert_eq!(total, 12 * ENDOWMENT);
    assert!(g.balances.iter().any(|b| b.0 == alice.stash));
    assert!(g.balances.iter().any(|b| b.0 == alice.controller));
}

#[test]
fn local_genesis_has_alice_and_bob() {
    let g = polkadot_local_testnet_genesis(WASM).unwrap();
    let alice = get_authority_keys_from_seed_no_beefy("Alice");
    let bob = get_authority_keys_from_seed_no_beefy("Bob");
    assert_eq!(g.staking.validator_count, 2);
    assert_eq!(g.staking.invulnerables, vec![alice.stash, bob.stash]);
    assert_eq!(g.session_keys[0].0, alice.stash);
    assert_eq!(g.session_keys[1].0, bob.stash);
    for s in g.staking.stakers.iter() {
        assert!(g.balances.iter().any(|b| b.0 == s.0));
        assert!(g.balances.iter().any(|b| b.0 == s.1));
    }
}

#[test]
fn properties_of_the_chain() {
    let p = chain_property();
    assert_eq!(p.ss58_format, 0);
    assert_eq!(p.token_decimals, 9);
    assert_eq!(p.token_symbol, "C4");
}

#[test]
fn configurations_need_the_wasm_binary() {
    assert!(matches!(polkadot_development_config(None), Err(ChainSpecError::WasmNotAvailable)));
    assert!(matches!(polkadot_local_testnet_config(None), Err(ChainSpecError::WasmNotAvailable)));
    assert!(matches!(polkadot_staging_testnet_config(None), Err(ChainSpecError::WasmNotAvailable)));
    assert_eq!(ChainSpecError::WasmNotAvailable.message(), "Catena development wasm not available");
    assert_eq!(ChainSpecError::InvalidSeed.message(), "a development seed does not give a key");
}

#[test]
fn development_configuration() {
    let s = polkadot_development_config(Some(WASM)).unwrap();
    assert_eq!(s.name, "Catena Develop Testnet");
    assert_eq!(s.id, "catena_develop");
    assert!(matches!(s.chain_type, ChainType::Development));
    assert!(s.boot_nodes.is_empty());
    assert!(s.telemetry_endpoints.is_none());
    assert_eq!(s.protocol_id.as_deref(), Some("c4"));
    assert_eq!(s.properties.as_ref().unwrap().token_symbol, "C4");
    assert!(matches!(s.genesis.source, GenesisSource::Development));
    let g = s.genesis.build().unwrap();
    assert_eq!(g.code, WASM.to_vec());
    assert_eq!(g.staking.validator_count, 1);
}

#[test]
fn local_configuration() {
    let s = polkadot_local_testnet_config(Some(WASM)).unwrap();
    assert_eq!(s.name, "Catena Local Testnet");
    assert_eq!(s.id, "catena_local");
    assert!(matches!(s.chain_type, ChainType::Local));
    let g = s.genesis.build().unwrap();
    assert_eq!(g.staking.validator_count, 2);
}

#[test]
fn staging_configuration() {
    let s = polkadot_staging_testnet_config(Some(WASM)).unwrap();
    assert_eq!(s.name, "Catena Staging Testnet");
    assert_eq!(s.id, "catena_staging");
    assert!(matches!(s.chain_type, ChainType::Live));
    let t = s.telemetry_endpoints.as_ref().unwrap();
    assert_eq!(t.len(), 1);
    assert_eq!(t[0].0, "wss://telemetry.polkadot.io/submit/");
    assert_eq!(t[0].1, 0);
    let g = s.genesis.build().unwrap();
    assert_eq!(g.staking.validator_count, 50);
    assert!(g.balances.is_empty());
}

#[test]
fn default_extensions_are_empty() {
    let e = Extensions::default();
    assert!(e.fork_blocks.is_none());
    assert!(e.bad_blocks.is_none());
    assert!(e.light_sync_state.is_none());
}

#[test]
fn well_formed_extensions() {
    assert!(Extensions::default().is_well_formed());
    let good = Extensions {
        fork_blocks: Some(vec![(1, [1; 32]), (2, [1; 32])]),
        bad_blocks: Some(vec![[3; 32], [4; 32]]),
        light_sync_state: None,
    };
    assert!(good.is_well_formed());
    let repeated_number = Extensions {
        fork_blocks: Some(vec![(1, [1; 32]), (5, [2; 32]), (1, [3; 32])]),
        bad_blocks: None,
        light_sync_state: None,
    };
    assert!(repeated_number.is_well_formed());
    let mut h = [9; 32];
    h[31] = 8;
    let near = Extensions { fork_blocks: None, bad_blocks: Some(vec![[9; 32], h]), light_sync_state: None };
    assert!(near.is_well_formed());
    let repeated_hash = Extensions {
        fork_blocks: None,
        bad_blocks: Some(vec![[9; 32], [7; 32], [9; 32]]),
        light_sync_state: None,
    };
    assert!(!repeated_hash.is_well_formed());
}

#[test]
fn development_genesis_is_the_testnet_genesis_of_alice() {
    let d = polkadot_development_config_genesis(WASM).unwrap();
    let alice = get_authority_keys_from_seed_no_beefy("Alice");
    let t = polkadot_testnet_genesis(WASM, vec![alice], alice.controller, None);
    assert_eq!(d.balances, t.balances);
    assert_eq!(d.staking.invulnerables, t.staking.invulnerables);
    assert_eq!(d.staking.validator_count, t.staking.validator_count);
    assert_eq!(d.session_keys.len(), t.session_keys.len());
    assert_eq!(d.session_keys[0].0, t.session_keys[0].0);
    assert_eq!(d.session_keys[0].2.grandpa, t.session_keys[0].2.grandpa);
}

#[test]
fn local_genesis_extends_development_genesis() {
    let d = polkadot_development_config_genesis(WASM).unwrap();
    let l = polkadot_local_testnet_genesis(WASM).unwrap();
    let bob = get_authority_keys_from_seed_no_beefy("Bob");
    assert_eq!(l.balances, d.balances);
    assert_eq!(l.staking.validator_count, d.staking.validator_count + 1);
    assert_eq!(l.staking.invulnerables[..1], d.staking.invulnerables[..]);
    assert_eq!(l.staking.invulnerables[1], bob.stash);
    assert_eq!(l.session_keys[0].0, d.session_keys[0].0);
    assert_eq!(l.session_keys[1].0, bob.stash);
    assert_eq!(l.staking.stakers[1].1, bob.controller);
}
