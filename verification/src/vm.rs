//! Checks on code for the virtual machine that runs transactions and
//! validity predicates.

use vstd::prelude::*;

verus! {

/// The WebAssembly proposals that a piece of code may or may not use.
#[derive(Debug, Clone, Copy, PartialEq, Eq, Structural)]
pub struct WasmFeatureSet {
    pub mutable_global: bool,
    pub saturating_float_to_int: bool,
    pub sign_extension: bool,
    pub reference_types: bool,
    pub multi_value: bool,
    pub bulk_memory: bool,
    pub simd: bool,
    pub relaxed_simd: bool,
    pub threads: bool,
    pub tail_call: bool,
    pub floats: bool,
    pub multi_memory: bool,
    pub exceptions: bool,
    pub memory64: bool,
    pub extended_const: bool,
    pub component_model: bool,
    pub function_references: bool,
    pub memory_control: bool,
    pub gc: bool,
}

/// What untrusted code may use: sign extension and floating point, and
/// nothing else.
pub open spec fn untrusted_features() -> WasmFeatureSet {
    WasmFeatureSet {
        mutable_global: false,
        saturating_float_to_int: false,
        sign_extension: true,
        reference_types: false,
        multi_value: false,
        bulk_memory: false,
        simd: false,
        relaxed_simd: false,
        threads: false,
        tail_call: false,
        floats: true,
        multi_memory: false,
        exceptions: false,
        memory64: false,
        extended_const: false,
        component_model: false,
        function_references: false,
        memory_control: false,
        gc: false,
    }
}

/// What untrusted code may use.
pub fn untrusted_wasm_features() -> (r: WasmFeatureSet)
    ensures
        r == untrusted_features(),
{
    WasmFeatureSet {
        mutable_global: false,
        saturating_float_to_int: false,
        sign_extension: true,
        reference_types: false,
        multi_value: false,
        bulk_memory: false,
        simd: false,
        relaxed_simd: false,
        threads: false,
        tail_call: false,
        floats: true,
        multi_memory: false,
        exceptions: false,
        memory64: false,
        extended_const: false,
        component_model: false,
        function_references: false,
        memory_control: false,
        gc: false,
    }
}

/// Why the validator of `wasmparser` turned a module down.
#[verifier::external_type_specification]
#[verifier::external_body]
pub struct ExBinaryReaderError(wasmparser::BinaryReaderError);

/// Whether the validator of `wasmparser` accepts `code` as a module or
/// component that uses no more than `features`.
pub uninterp spec fn wasm_is_valid(code: Seq<u8>, features: WasmFeatureSet) -> bool;

/// `wasmparser::Validator::new_with_features` followed by `validate_all`:
/// parses and validates the whole of `code` with exactly the given features
/// switched on. The answer depends on the bytes and the features alone; the
/// contract only gives it a name.
#[verifier::external_body]
fn validate_all(code: &[u8], f: &WasmFeatureSet) -> (r: Result<(), wasmparser::BinaryReaderError>)
    ensures
        r is Ok == wasm_is_valid(code@, *f),
{
    let features = wasmparser::WasmFeatures {
        mutable_global: f.mutable_global, saturating_float_to_int: f.saturating_float_to_int,
        sign_extension: f.sign_extension, reference_types: f.reference_types,
        multi_value: f.multi_value, bulk_memory: f.bulk_memory, simd: f.simd,
        relaxed_simd: f.relaxed_simd, threads: f.threads, tail_call: f.tail_call,
        floats: f.floats, multi_memory: f.multi_memory, exceptions: f.exceptions,
        memory64: f.memory64, extended_const: f.extended_const,
        component_model: f.component_model, function_references: f.function_references,
        memory_control: f.memory_control, gc: f.gc,
    };
    wasmparser::Validator::new_with_features(features).validate_all(code).map(|_| ())
}

#[allow(missing_docs)]
#[derive(Debug)]
pub enum WasmValidationError {
    /// The code is no valid module, or uses what untrusted code may not.
    ForbiddenWasmFeatures(wasmparser::BinaryReaderError),
}

/// What validation of untrusted code answers, given what the validator
/// said: its refusal is handed on as it is.
pub fn untrusted_wasm_verdict(outcome: Result<(), wasmparser::BinaryReaderError>) -> (r: Result<
    (),
    WasmValidationError,
>)
    ensures
        r is Ok == outcome is Ok,
        outcome is Err ==> r == Err::<(), WasmValidationError>(
            WasmValidationError::ForbiddenWasmFeatures(outcome->Err_0),
        ),
{
    match outcome {
        Ok(()) => Ok(()),
        Err(e) => Err(WasmValidationError::ForbiddenWasmFeatures(e)),
    }
}

/// Validate an untrusted wasm code with restrictions that we place such
/// code (e.g. transaction and validity predicates).
pub fn validate_untrusted_wasm(wasm_code: &[u8]) -> (r: Result<(), WasmValidationError>)
    ensures
        r is Ok == wasm_is_valid(wasm_code@, untrusted_features()),
{
    let features = untrusted_wasm_features();
    untrusted_wasm_verdict(validate_all(wasm_code, &features))
}

/// WASM Cache access level, used to limit dry-ran transactions to read-only
/// cache access.
pub trait WasmCacheAccess: Sized {
    /// Is access read/write?
    spec fn read_write() -> bool;

    /// Is access read/write?
    fn is_read_write() -> (r: bool)
        ensures
            r == Self::read_write(),
    ;
}

/// Regular read/write caches access.
#[derive(Debug, Clone, Copy)]
pub struct WasmCacheRwAccess;

impl WasmCacheAccess for WasmCacheRwAccess {
    open spec fn read_write() -> bool {
        true
    }

    fn is_read_write() -> (r: bool) {
        true
    }
}

/// Restricted read-only access for dry-ran transactions.
#[derive(Debug, Clone, Copy)]
pub struct WasmCacheRoAccess;

impl WasmCacheAccess for WasmCacheRoAccess {
    open spec fn read_write() -> bool {
        false
    }

    fn is_read_write() -> (r: bool) {
        false
    }
}

/// Read-only access to host data.
#[derive(Debug, Clone, Copy)]
pub struct RoAccess;

/// Read and write access to host data.
#[derive(Debug, Clone, Copy)]
pub struct RwAccess;

} // verus!
