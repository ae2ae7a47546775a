use wasmlib::codec::{hash_from_bytes, ScHname};
use wasmlib::coreblob::{
    ImmutableGetBlobInfoParams, ImmutableStoreBlobParams, MutableGetBlobInfoParams,
    MutableStoreBlobParams, PARAM_DATA_SCHEMA, PARAM_PROG_BINARY, PARAM_VM_TYPE,
};
use wasmlib::coreroot::{
    ImmutableFindContractResults, ImmutableGetContractRecordsResults, MutableFindContractResults,
    MutableGetContractRecordsResults,
};
use wasmlib::proxy::{params_proxy, results_proxy, CallContext, Namespace};
use wasmlib::views::{ScImmutableBytes, ScImmutableString, ScMutableBytes, ScMutableString};

fn params_accessor() -> MutableStoreBlobParams {
    MutableStoreBlobParams { proxy: params_proxy() }
}

#[test]
fn vm_type_written_beside_prog_binary_reads_back() {
    let mut ctx = CallContext::new();
    let writer = ScMutableString::new(params_proxy().root(PARAM_VM_TYPE));
    writer.set_value(&mut ctx, "wasm");
    let reader = ImmutableStoreBlobParams::new().vm_type();
    assert_eq!(reader.value(&ctx), "wasm");
    // The sibling root field is untouched by the write.
    assert_eq!(ImmutableStoreBlobParams::new().prog_binary().value(&ctx), Vec::<u8>::new());
}

#[test]
fn hname_map_cleared_reads_empty() {
    let mut ctx = CallContext::new();
    let registry = MutableGetContractRecordsResults::new().contract_registry();
    let n1 = ScHname(0x11111111);
    let n2 = ScHname(0x22222222);
    registry.get_bytes(n1).set_value(&mut ctx, &[1, 2, 3]);
    registry.get_bytes(n2).set_value(&mut ctx, &[4, 5]);
    assert_eq!(registry.get_bytes(n1).value(&ctx), vec![1, 2, 3]);
    assert_eq!(registry.get_bytes(n2).value(&ctx), vec![4, 5]);
    registry.clear(&mut ctx);
    assert_eq!(registry.get_bytes(n1).value(&ctx), Vec::<u8>::new());
    assert_eq!(registry.get_bytes(n2).value(&ctx), Vec::<u8>::new());
}

#[test]
fn hash_root_derived_twice_addresses_one_slot() {
    let mut ctx = CallContext::new();
    let writer = MutableGetBlobInfoParams { proxy: params_proxy() }.hash();
    let reader = ImmutableGetBlobInfoParams::new().hash();
    let bytes: Vec<u8> = (100u8..132).collect();
    writer.set_value(&mut ctx, &hash_from_bytes(&bytes));
    assert_eq!(reader.value(&ctx).to_bytes(), bytes);
}

#[test]
fn defaults_on_never_written_paths() {
    let ctx = CallContext::new();
    let params = ImmutableStoreBlobParams::new();
    assert_eq!(params.vm_type().value(&ctx), "");
    assert_eq!(params.data_schema().value(&ctx), Vec::<u8>::new());
    assert_eq!(params.prog_binary().value(&ctx), Vec::<u8>::new());
    let info = ImmutableGetBlobInfoParams::new();
    assert_eq!(info.hash().value(&ctx).to_bytes(), vec![0u8; 32]);
    let results = ImmutableFindContractResults { proxy: results_proxy() };
    assert_eq!(results.contract_found().value(&ctx), false);
    assert_eq!(results.contract_rec_data().value(&ctx), Vec::<u8>::new());
}

#[test]
fn clear_map_is_idempotent() {
    let mut ctx = CallContext::new();
    let registry = MutableGetContractRecordsResults::new().contract_registry();
    let n1 = ScHname(7);
    registry.get_bytes(n1).set_value(&mut ctx, &[1]);
    registry.clear(&mut ctx);
    assert_eq!(registry.get_bytes(n1).value(&ctx), Vec::<u8>::new());
    registry.clear(&mut ctx);
    assert_eq!(registry.get_bytes(n1).value(&ctx), Vec::<u8>::new());
}

#[test]
fn clear_map_spares_sibling_root_fields() {
    let mut ctx = CallContext::new();
    let results = MutableFindContractResults::new();
    results.contract_found().set_value(&mut ctx, true);
    results.contract_rec_data().set_value(&mut ctx, &[8, 9]);
    let registry = MutableGetContractRecordsResults::new().contract_registry();
    registry.get_bytes(ScHname(1)).set_value(&mut ctx, &[1]);
    registry.clear(&mut ctx);
    let check = ImmutableFindContractResults { proxy: results_proxy() };
    assert_eq!(check.contract_found().value(&ctx), true);
    assert_eq!(check.contract_rec_data().value(&ctx), vec![8, 9]);
}

#[test]
fn distinct_root_fields_are_isolated() {
    let mut ctx = CallContext::new();
    let writer = params_accessor();
    writer.data_schema().set_value(&mut ctx, &[1, 1, 1]);
    writer.prog_binary().set_value(&mut ctx, &[2, 2]);
    let reader = ImmutableStoreBlobParams::new();
    assert_eq!(reader.data_schema().value(&ctx), vec![1, 1, 1]);
    assert_eq!(reader.prog_binary().value(&ctx), vec![2, 2]);
    assert_eq!(reader.sources().value(&ctx), Vec::<u8>::new());
}

#[test]
fn distinct_map_keys_are_isolated() {
    let mut ctx = CallContext::new();
    let blobs = params_accessor().blobs();
    blobs.get_bytes("alpha").set_value(&mut ctx, &[1]);
    blobs.get_bytes("beta").set_value(&mut ctx, &[2]);
    let reader = ImmutableStoreBlobParams::new().blobs();
    assert_eq!(reader.get_bytes("alpha").value(&ctx), vec![1]);
    assert_eq!(reader.get_bytes("beta").value(&ctx), vec![2]);
    assert_eq!(reader.get_bytes("gamma").value(&ctx), Vec::<u8>::new());
}

#[test]
fn namespaces_are_isolated() {
    let mut ctx = CallContext::new();
    ScMutableString::new(results_proxy().root(PARAM_VM_TYPE)).set_value(&mut ctx, "wasm");
    // The write landed in the result namespace only.
    assert_eq!(ScImmutableString::new(params_proxy().root(PARAM_VM_TYPE)).value(&ctx), "");
    assert_eq!(ScImmutableString::new(results_proxy().root(PARAM_VM_TYPE)).value(&ctx), "wasm");
}

#[test]
fn blobs_map_scope_is_the_parameter_root() {
    let mut ctx = CallContext::new();
    let writer = params_accessor();
    writer.blobs().get_bytes("chunk").set_value(&mut ctx, &[5]);
    writer.data_schema().set_value(&mut ctx, &[6]);
    // The blobs collection sits at the parameter root itself, so clearing
    // it empties every entry of that namespace, the named fields included.
    writer.blobs().clear(&mut ctx);
    let reader = ImmutableStoreBlobParams::new();
    assert_eq!(reader.blobs().get_bytes("chunk").value(&ctx), Vec::<u8>::new());
    assert_eq!(reader.data_schema().value(&ctx), Vec::<u8>::new());
}

#[test]
fn map_entry_views_share_paths_per_key() {
    let mut ctx = CallContext::new();
    let registry_rw = MutableGetContractRecordsResults::new().contract_registry();
    registry_rw.get_bytes(ScHname(42)).set_value(&mut ctx, &[7, 7]);
    let registry_ro =
        ImmutableGetContractRecordsResults { proxy: results_proxy() }.contract_registry();
    assert_eq!(registry_ro.get_bytes(ScHname(42)).value(&ctx), vec![7, 7]);
}

#[test]
fn proxies_and_views_construct_without_storage() {
    // Deriving proxies and binding views touches no storage: the context is
    // only needed when a value is read or written.
    let p = params_proxy();
    assert_eq!(p.ns, Namespace::Params);
    let child = p.root(PARAM_DATA_SCHEMA);
    let entry = child.key(&[1, 2, 3]);
    let _ = ScImmutableBytes::new(child.clone());
    let _ = ScMutableBytes::new(entry);
    let ctx = CallContext::new();
    assert_eq!(ScImmutableBytes::new(child).value(&ctx), Vec::<u8>::new());
}
