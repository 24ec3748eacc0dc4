use ledger_core::vm::{
    untrusted_wasm_features, validate_untrusted_wasm, WasmCacheAccess, WasmCacheRoAccess,
    WasmCacheRwAccess, WasmValidationError,
};

const HEADER: [u8; 8] = [0x00, 0x61, 0x73, 0x6d, 0x01, 0x00, 0x00, 0x00];

/// A module of one function with the given type and body.
fn module(params: &[u8], results: &[u8], body: &[u8]) -> Vec<u8> {
    let mut code = HEADER.to_vec();
    // type section
    let mut ty = vec![0x01, 0x60, params.len() as u8];
    ty.extend_from_slice(params);
    ty.push(results.len() as u8);
    ty.extend_from_slice(results);
    code.push(0x01);
    code.push(ty.len() as u8);
    code.extend_from_slice(&ty);
    // function section
    code.extend_from_slice(&[0x03, 0x02, 0x01, 0x00]);
    // code section: no locals, the body, end
    let mut func = vec![0x00];
    func.extend_from_slice(body);
    func.push(0x0b);
    code.push(0x0a);
    code.push(func.len() as u8 + 2);
    code.push(0x01);
    code.push(func.len() as u8);
    code.extend_from_slice(&func);
    code
}

const I32: u8 = 0x7f;
const F32: u8 = 0x7d;

#[test]
fn empty_module_is_valid() {
    assert!(validate_untrusted_wasm(&HEADER).is_ok());
}

#[test]
fn what_is_no_module_is_refused() {
    assert!(validate_untrusted_wasm(&[]).is_err());
    assert!(validate_untrusted_wasm(b"wasm_code").is_err());
    assert!(validate_untrusted_wasm(&HEADER[..7]).is_err());
    let mut bad_version = HEADER;
    bad_version[4] = 0x02;
    assert!(validate_untrusted_wasm(&bad_version).is_err());
    let WasmValidationError::ForbiddenWasmFeatures(error) =
        validate_untrusted_wasm(b"\0asX\x01\0\0\0").unwrap_err();
    assert!(error.message().contains("magic"));
}

#[test]
fn sign_extension_and_floats_are_allowed() {
    // local.get 0; i32.extend8_s
    assert!(validate_untrusted_wasm(&module(&[I32], &[I32], &[0x20, 0x00, 0xc0])).is_ok());
    // local.get 0, of type f32
    assert!(validate_untrusted_wasm(&module(&[F32], &[F32], &[0x20, 0x00])).is_ok());
    // a body that does not give what its type says
    assert!(validate_untrusted_wasm(&module(&[F32], &[I32], &[0x20, 0x00])).is_err());
}

#[test]
fn other_features_are_refused() {
    // two results need multi-value
    assert!(validate_untrusted_wasm(&module(&[I32], &[I32, I32], &[0x20, 0x00, 0x20, 0x00]))
        .is_err());
    // local.get 0; i32.trunc_sat_f32_s
    assert!(validate_untrusted_wasm(&module(&[F32], &[I32], &[0x20, 0x00, 0xfc, 0x00])).is_err());
    // ref.null func needs reference types
    assert!(validate_untrusted_wasm(&module(&[], &[0x70], &[0xd0, 0x70])).is_err());
}

#[test]
fn untrusted_code_may_use_two_features() {
    let f = untrusted_wasm_features();
    assert!(f.sign_extension && f.floats);
    let off = [
        f.mutable_global, f.saturating_float_to_int, f.reference_types, f.multi_value,
        f.bulk_memory, f.simd, f.relaxed_simd, f.threads, f.tail_call, f.multi_memory,
        f.exceptions, f.memory64, f.extended_const, f.component_model, f.function_references,
        f.memory_control, f.gc,
    ];
    assert!(off.iter().all(|on| !on));
}

#[test]
fn cache_access_levels() {
    assert!(WasmCacheRwAccess::is_read_write());
    assert!(!WasmCacheRoAccess::is_read_write());
}
