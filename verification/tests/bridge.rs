use wasm_bridge::error::LanguageError;
use wasm_bridge::host::Host;
use wasm_bridge::parser::Parser;
use wasm_bridge::store::WasmStore;

fn wasm_header() -> Vec<u8> {
    vec![0x00, 0x61, 0x73, 0x6d, 0x01, 0x00, 0x00, 0x00]
}

#[test]
fn scenario_bytecode_module_loads() {
    let mut host = Host::new();
    let engine = host.new_engine();
    let mut store = WasmStore::new(&mut host, engine);
    let bytes = wasm_header();
    let r = store.load_language(&mut host, "javascript", bytes.as_slice());
    let lang = r.unwrap();
    assert!(lang.is_wasm());
    assert_eq!(host.native_load_calls(), 1);
    assert_eq!(host.num_modules(), 1);
}

#[test]
fn scenario_embedded_nul_rejected() {
    let mut host = Host::new();
    let engine = host.new_engine();
    let mut store = WasmStore::new(&mut host, engine);
    let bytes = wasm_header();
    let r = store.load_language(&mut host, "bad\0name", bytes.as_slice());
    assert_eq!(r.unwrap_err(), LanguageError::InvalidName);
    assert_eq!(host.native_load_calls(), 0);
    assert_eq!(host.num_modules(), 0);
}

#[test]
fn nul_name_rejected_even_with_bad_bytes() {
    let mut host = Host::new();
    let engine = host.new_engine();
    let mut store = WasmStore::new(&mut host, engine);
    let bytes = vec![0xff, 0xff];
    let r = store.load_language(&mut host, "\0", bytes.as_slice());
    assert_eq!(r.unwrap_err(), LanguageError::InvalidName);
    assert_eq!(host.native_load_calls(), 0);
}

#[test]
fn scenario_drop_without_transfer() {
    let mut host = Host::new();
    let engine = host.new_engine();
    let store = WasmStore::new(&mut host, engine);
    let id = store.store_id();
    store.dispose(&mut host);
    assert_eq!(host.store_destroy_calls(id), 1);
    assert!(host.store_is_destroyed(id));
}

#[test]
fn scenario_transfer_then_wrapper_gone() {
    let mut host = Host::new();
    let engine = host.new_engine();
    let store = WasmStore::new(&mut host, engine);
    let id = store.store_id();
    let mut parser = Parser::new();
    let r = parser.set_wasm_store(&mut host, store);
    assert!(r.is_ok());
    // The wrapper was consumed by the transfer: no destroy call was made.
    assert_eq!(host.store_destroy_calls(id), 0);
    assert!(!host.store_is_destroyed(id));
}

#[test]
fn transferred_store_destroyed_once_downstream() {
    let mut host = Host::new();
    let engine = host.new_engine();
    let store = WasmStore::new(&mut host, engine);
    let id = store.store_id();
    let mut parser = Parser::new();
    parser.set_wasm_store(&mut host, store).unwrap();
    parser.dispose(&mut host);
    assert_eq!(host.store_destroy_calls(id), 1);
    assert!(host.store_is_destroyed(id));
}

#[test]
fn replacing_attached_store_releases_previous() {
    let mut host = Host::new();
    let engine = host.new_engine();
    let first = WasmStore::new(&mut host, engine);
    let second = WasmStore::new(&mut host, engine);
    let first_id = first.store_id();
    let second_id = second.store_id();
    let mut parser = Parser::new();
    parser.set_wasm_store(&mut host, first).unwrap();
    parser.set_wasm_store(&mut host, second).unwrap();
    assert_eq!(host.store_destroy_calls(first_id), 1);
    assert_eq!(host.store_destroy_calls(second_id), 0);
    parser.dispose(&mut host);
    assert_eq!(host.store_destroy_calls(first_id), 1);
    assert_eq!(host.store_destroy_calls(second_id), 1);
}

#[test]
fn is_wasm_query_is_idempotent() {
    let mut host = Host::new();
    let engine = host.new_engine();
    let mut store = WasmStore::new(&mut host, engine);
    let bytes = wasm_header();
    let lang = store
        .load_language(&mut host, "javascript", bytes.as_slice())
        .unwrap();
    let first = lang.is_wasm();
    let second = lang.is_wasm();
    let third = lang.is_wasm();
    assert_eq!(first, second);
    assert_eq!(second, third);
    assert!(first);
    let copy = lang;
    assert_eq!(copy.is_wasm(), first);
    // No query made a native call.
    assert_eq!(host.native_load_calls(), 1);
}

#[test]
fn load_failure_on_bad_magic() {
    let mut host = Host::new();
    let engine = host.new_engine();
    let mut store = WasmStore::new(&mut host, engine);
    let bytes = vec![0x01, 0x02, 0x03, 0x04];
    let r = store.load_language(&mut host, "broken", bytes.as_slice());
    assert_eq!(r.unwrap_err(), LanguageError::LoadFailure);
    // The native side was called once and rejected the module.
    assert_eq!(host.native_load_calls(), 1);
    assert_eq!(host.num_modules(), 0);
}

#[test]
fn load_failure_on_short_bytes() {
    let mut host = Host::new();
    let engine = host.new_engine();
    let mut store = WasmStore::new(&mut host, engine);
    let bytes = vec![0x00, 0x61];
    let r = store.load_language(&mut host, "tiny", bytes.as_slice());
    assert_eq!(r.unwrap_err(), LanguageError::LoadFailure);
    assert_eq!(host.native_load_calls(), 1);
}

#[test]
fn load_failure_on_empty_bytes() {
    let mut host = Host::new();
    let engine = host.new_engine();
    let mut store = WasmStore::new(&mut host, engine);
    let bytes: Vec<u8> = Vec::new();
    let r = store.load_language(&mut host, "empty", bytes.as_slice());
    assert_eq!(r.unwrap_err(), LanguageError::LoadFailure);
}

#[test]
fn empty_name_reaches_native_call() {
    let mut host = Host::new();
    let engine = host.new_engine();
    let mut store = WasmStore::new(&mut host, engine);
    let bytes = wasm_header();
    let r = store.load_language(&mut host, "", bytes.as_slice());
    assert!(r.unwrap().is_wasm());
    assert_eq!(host.native_load_calls(), 1);
}

#[test]
fn store_loads_many_modules() {
    let mut host = Host::new();
    let engine = host.new_engine();
    let mut store = WasmStore::new(&mut host, engine);
    let bytes = wasm_header();
    let a = store
        .load_language(&mut host, "javascript", bytes.as_slice())
        .unwrap();
    let b = store
        .load_language(&mut host, "rust", bytes.as_slice())
        .unwrap();
    assert!(a.is_wasm());
    assert!(b.is_wasm());
    assert_ne!(a, b);
    assert_eq!(host.num_modules(), 2);
    assert_eq!(host.native_load_calls(), 2);
    let id = store.store_id();
    store.dispose(&mut host);
    assert_eq!(host.store_destroy_calls(id), 1);
}

#[test]
fn failed_load_leaves_store_usable() {
    let mut host = Host::new();
    let engine = host.new_engine();
    let mut store = WasmStore::new(&mut host, engine);
    let bad = vec![0xde, 0xad];
    let r = store.load_language(&mut host, "first", bad.as_slice());
    assert_eq!(r.unwrap_err(), LanguageError::LoadFailure);
    let good = wasm_header();
    let lang = store
        .load_language(&mut host, "second", good.as_slice())
        .unwrap();
    assert!(lang.is_wasm());
    assert_eq!(host.native_load_calls(), 2);
    assert_eq!(host.num_modules(), 1);
}

#[test]
fn one_engine_serves_many_stores() {
    let mut host = Host::new();
    let engine = host.new_engine();
    let mut first = WasmStore::new(&mut host, engine);
    let mut second = WasmStore::new(&mut host, engine);
    assert_eq!(host.num_stores(), 2);
    let bytes = wasm_header();
    assert!(first
        .load_language(&mut host, "javascript", bytes.as_slice())
        .is_ok());
    assert!(second
        .load_language(&mut host, "javascript", bytes.as_slice())
        .is_ok());
    let first_id = first.store_id();
    let second_id = second.store_id();
    first.dispose(&mut host);
    second.dispose(&mut host);
    assert_eq!(host.store_destroy_calls(first_id), 1);
    assert_eq!(host.store_destroy_calls(second_id), 1);
}

#[test]
fn engines_are_distinct_instances() {
    let mut host = Host::new();
    let first = host.new_engine();
    let second = host.new_engine();
    assert_ne!(first, second);
    let copy = first;
    assert_eq!(copy, first);
}
