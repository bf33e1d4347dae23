//! Why a chain configuration could not be made.

use vstd::prelude::*;
use vstd::string::StringExecFns;

verus! {

/// Why a chain configuration or its genesis could not be made.
#[derive(Clone, Copy, Debug, PartialEq, Eq, Structural)]
pub enum ChainSpecError {
    /// The runtime's WebAssembly binary was not built.
    WasmNotAvailable,
    /// A development seed did not give a key.
    InvalidSeed,
}

impl ChainSpecError {
    /// The message of the error.
    pub fn message(&self) -> (r: String)
        ensures
            *self == ChainSpecError::WasmNotAvailable ==> r@ == "Catena development wasm not available"@,
            *self == ChainSpecError::InvalidSeed ==> r@ == "a development seed does not give a key"@,
    {
        match self {
            ChainSpecError::WasmNotAvailable => String::from_str("Catena development wasm not available"),
            ChainSpecError::InvalidSeed => String::from_str("a development seed does not give a key"),
        }
    }
}

} // verus!
