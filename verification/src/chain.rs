//! The chain configurations: name, identifier, kind, boot nodes, telemetry, protocol,
//! properties and the genesis they are built with.

use vstd::prelude::*;
use vstd::slice::slice_to_vec;
use vstd::string::StringExecFns;
use crate::error::ChainSpecError;
use crate::genesis::{
    development_genesis_derivable, is_staging_genesis, is_testnet_genesis,
    local_testnet_genesis_derivable, polkadot_development_config_genesis,
    polkadot_local_testnet_genesis, polkadot_staging_testnet_config_genesis, GenesisConfig,
};
use crate::keys::{authority_keys_of, testnet_accounts_spec};

verus! {

/// The kind of a chain.
#[derive(Debug)]
pub enum ChainType {
    Development,
    Local,
    Live,
    Custom(String),
}

/// The properties a chain announces to its users.
#[derive(Debug)]
pub struct ChainProperties {
    pub ss58_format: u16,
    pub token_decimals: u8,
    pub token_symbol: String,
}

/// Additional parameters for some core modules, customizable from the chain configuration.
/// Well formed (see `wf`) when no bad block hash is listed twice.
#[derive(Debug)]
pub struct Extensions {
    /// Block numbers with known hashes.
    pub fork_blocks: Option<Vec<(u32, [u8; 32])>>,
    /// Known bad block hashes.
    pub bad_blocks: Option<Vec<[u8; 32]>>,
    /// The light sync state, as JSON text; it is set by the sync state RPC.
    pub light_sync_state: Option<String>,
}

/// No hash occurs twice in the list.
pub open spec fn distinct_hashes(b: Seq<[u8; 32]>) -> bool {
    forall|i: int, j: int| 0 <= i < j < b.len() ==> b[i] != b[j]
}

impl Extensions {
    /// The bad blocks are a set of hashes, so each hash appears once.
    pub open spec fn wf(self) -> bool {
        match self.bad_blocks {
            Some(b) => distinct_hashes(b@),
            None => true,
        }
    }

    /// Whether the extensions are well formed.
    pub fn is_well_formed(&self) -> (r: bool)
        ensures
            r == self.wf(),
    {
        match &self.bad_blocks {
            Some(b) => hashes_are_distinct(b),
            None => true,
        }
    }
}

fn same_hash(a: &[u8; 32], b: &[u8; 32]) -> (r: bool)
    ensures
        r == (*a == *b),
{
    let mut i: usize = 0;
    while i < 32
        invariant
            i <= 32,
            forall|k: int| 0 <= k < i ==> a[k] == b[k],
        decreases 32 - i,
    {
        if a[i] != b[i] {
            return false;
        }
        i = i + 1;
    }
    assert(*a =~= *b);
    true
}

fn hashes_are_distinct(h: &Vec<[u8; 32]>) -> (r: bool)
    ensures
        r == distinct_hashes(h@),
{
    let mut j: usize = 0;
    while j < h.len()
        invariant
            j <= h@.len(),
            forall|a: int, b: int| 0 <= a < b < j ==> h@[a] != h@[b],
        decreases h@.len() - j,
    {
        let mut i: usize = 0;
        while i < j
            invariant
                i <= j < h@.len(),
                forall|a: int| 0 <= a < i ==> h@[a] != h@[j as int],
            decreases j - i,
        {
            if same_hash(&h[i], &h[j]) {
                return false;
            }
            i = i + 1;
        }
        j = j + 1;
    }
    true
}

impl Default for Extensions {
    fn default() -> (r: Self)
        ensures
            r.fork_blocks is None,
            r.bad_blocks is None,
            r.light_sync_state is None,
            r.wf(),
    {
        Extensions { fork_blocks: None, bad_blocks: None, light_sync_state: None }
    }
}

/// Which genesis a configuration builds.
#[derive(Clone, Copy, Debug)]
pub enum GenesisSource {
    Staging,
    Development,
    Local,
}

/// The genesis of a configuration, built on demand from the runtime's code.
#[derive(Debug)]
pub struct GenesisBuilder {
    pub source: GenesisSource,
    pub wasm_binary: Vec<u8>,
}

impl GenesisBuilder {
    /// Builds the genesis.
    pub fn build(&self) -> (r: Result<GenesisConfig, ChainSpecError>)
        ensures
            match self.source {
                GenesisSource::Staging => r matches Ok(g)
                    && is_staging_genesis(g, self.wasm_binary@, Seq::empty(), Seq::empty()),
                GenesisSource::Development => {
                    &&& r is Ok <==> development_genesis_derivable()
                    &&& r matches Ok(g) ==> is_testnet_genesis(
                        g,
                        self.wasm_binary@,
                        seq![authority_keys_of("Alice"@)],
                        testnet_accounts_spec(),
                    )
                    &&& r matches Err(e) ==> e == ChainSpecError::InvalidSeed
                },
                GenesisSource::Local => {
                    &&& r is Ok <==> local_testnet_genesis_derivable()
                    &&& r matches Ok(g) ==> is_testnet_genesis(
                        g,
                        self.wasm_binary@,
                        seq![authority_keys_of("Alice"@), authority_keys_of("Bob"@)],
                        testnet_accounts_spec(),
                    )
                    &&& r matches Err(e) ==> e == ChainSpecError::InvalidSeed
                },
            },
    {
        match self.source {
            GenesisSource::Staging => Ok(polkadot_staging_testnet_config_genesis(self.wasm_binary.as_slice())),
            GenesisSource::Development => polkadot_development_config_genesis(self.wasm_binary.as_slice()),
            GenesisSource::Local => polkadot_local_testnet_genesis(self.wasm_binary.as_slice()),
        }
    }
}

/// A chain configuration.
#[derive(Debug)]
pub struct ChainSpec {
    pub name: String,
    pub id: String,
    pub chain_type: ChainType,
    pub genesis: GenesisBuilder,
    pub boot_nodes: Vec<String>,
    /// Telemetry endpoints, each a URL with its verbosity.
    pub telemetry_endpoints: Option<Vec<(String, u8)>>,
    pub protocol_id: Option<String>,
    pub properties: Option<ChainProperties>,
    pub extensions: Extensions,
}

/// The properties of this chain: SS58 prefix 0, 9 decimals, symbol `C4`.
pub open spec fn is_catena_properties(p: ChainProperties) -> bool {
    &&& p.ss58_format == 0
    &&& p.token_decimals == 9
    &&& p.token_symbol@ == "C4"@
}

/// The properties of this chain.
pub fn chain_property() -> (r: ChainProperties)
    ensures
        is_catena_properties(r),
{
    ChainProperties { ss58_format: 0, token_decimals: 9, token_symbol: String::from_str("C4") }
}

/// What every configuration made here has in common: no boot nodes, the protocol `c4`,
/// the chain's properties and default extensions.
pub open spec fn is_catena_chain_spec(s: ChainSpec) -> bool {
    &&& s.boot_nodes@.len() == 0
    &&& s.protocol_id matches Some(p) && p@ == "c4"@
    &&& s.properties matches Some(p) && is_catena_properties(p)
    &&& s.extensions.fork_blocks is None
    &&& s.extensions.bad_blocks is None
    &&& s.extensions.light_sync_state is None
    &&& s.extensions.wf()
}

fn catena_chain_spec(
    name: &str,
    id: &str,
    chain_type: ChainType,
    genesis: GenesisBuilder,
    telemetry_endpoints: Option<Vec<(String, u8)>>,
) -> (r: ChainSpec)
    ensures
        is_catena_chain_spec(r),
        r.name@ == name@,
        r.id@ == id@,
        r.chain_type == chain_type,
        r.genesis == genesis,
        r.telemetry_endpoints == telemetry_endpoints,
{
    ChainSpec {
        name: String::from_str(name),
        id: String::from_str(id),
        chain_type,
        genesis,
        boot_nodes: Vec::new(),
        telemetry_endpoints,
        protocol_id: Some(String::from_str("c4")),
        properties: Some(chain_property()),
        extensions: Extensions::default(),
    }
}

/// The staging test network: a live chain reporting to the public telemetry.
pub fn polkadot_staging_testnet_config(wasm_binary: Option<&[u8]>) -> (r: Result<ChainSpec, ChainSpecError>)
    ensures
        r is Err <==> wasm_binary is None,
        r matches Err(e) ==> e == ChainSpecError::WasmNotAvailable,
        r matches Ok(s) ==> {
            &&& is_catena_chain_spec(s)
            &&& s.name@ == "Catena Staging Testnet"@
            &&& s.id@ == "catena_staging"@
            &&& s.chain_type is Live
            &&& s.genesis.source is Staging
            &&& s.genesis.wasm_binary@ == wasm_binary.unwrap()@
            &&& s.telemetry_endpoints matches Some(t) && t@.len() == 1
                && t@[0].0@ == "wss://telemetry.polkadot.io/submit/"@ && t@[0].1 == 0
        },
{
    let wasm = match wasm_binary {
        Some(w) => w,
        None => return Err(ChainSpecError::WasmNotAvailable),
    };
    let telemetry = vec![(String::from_str("wss://telemetry.polkadot.io/submit/"), 0u8)];
    Ok(catena_chain_spec(
        "Catena Staging Testnet",
        "catena_staging",
        ChainType::Live,
        GenesisBuilder { source: GenesisSource::Staging, wasm_binary: slice_to_vec(wasm) },
        Some(telemetry),
    ))
}

/// The development chain (single validator Alice).
pub fn polkadot_development_config(wasm_binary: Option<&[u8]>) -> (r: Result<ChainSpec, ChainSpecError>)
    ensures
        r is Err <==> wasm_binary is None,
        r matches Err(e) ==> e == ChainSpecError::WasmNotAvailable,
        r matches Ok(s) ==> {
            &&& is_catena_chain_spec(s)
            &&& s.name@ == "Catena Develop Testnet"@
            &&& s.id@ == "catena_develop"@
            &&& s.chain_type is Development
            &&& s.genesis.source is Development
            &&& s.genesis.wasm_binary@ == wasm_binary.unwrap()@
            &&& s.telemetry_endpoints is None
        },
{
    let wasm = match wasm_binary {
        Some(w) => w,
        None => return Err(ChainSpecError::WasmNotAvailable),
    };
    Ok(catena_chain_spec(
        "Catena Develop Testnet",
        "catena_develop",
        ChainType::Development,
        GenesisBuilder { source: GenesisSource::Development, wasm_binary: slice_to_vec(wasm) },
        None,
    ))
}

/// The local test network (validators Alice and Bob).
pub fn polkadot_local_testnet_config(wasm_binary: Option<&[u8]>) -> (r: Result<ChainSpec, ChainSpecError>)
    ensures
        r is Err <==> wasm_binary is None,
        r matches Err(e) ==> e == ChainSpecError::WasmNotAvailable,
        r matches Ok(s) ==> {
            &&& is_catena_chain_spec(s)
            &&& s.name@ == "Catena Local Testnet"@
            &&& s.id@ == "catena_local"@
            &&& s.chain_type is Local
            &&& s.genesis.source is Local
            &&& s.genesis.wasm_binary@ == wasm_binary.unwrap()@
            &&& s.telemetry_endpoints is None
        },
{
    let wasm = match wasm_binary {
        Some(w) => w,
        None => return Err(ChainSpecError::WasmNotAvailable),
    };
    Ok(catena_chain_spec(
        "Catena Local Testnet",
        "catena_local",
        ChainType::Local,
        GenesisBuilder { source: GenesisSource::Local, wasm_binary: slice_to_vec(wasm) },
        None,
    ))
}

} // verus!
