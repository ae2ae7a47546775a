use wasmlib::codec::{hash_from_bytes, ScHname};
use wasmlib::coreblob::{PARAM_DATA_SCHEMA, PARAM_HASH, PARAM_VM_TYPE};
use wasmlib::proxy::{params_proxy, results_proxy, CallContext};
use wasmlib::views::{
    ScImmutableBool, ScImmutableBytes, ScImmutableHash, ScImmutableHname, ScImmutableString,
    ScImmutableUint64, ScMutableBool, ScMutableBytes, ScMutableHash, ScMutableHname,
    ScMutableString, ScMutableUint64,
};

#[test]
fn bool_round_trip() {
    let mut ctx = CallContext::new();
    let slot = params_proxy().root(PARAM_DATA_SCHEMA);
    let writer = ScMutableBool::new(slot.clone());
    let reader = ScImmutableBool::new(slot);
    writer.set_value(&mut ctx, true);
    assert_eq!(reader.value(&ctx), true);
    writer.set_value(&mut ctx, false);
    assert_eq!(reader.value(&ctx), false);
}

#[test]
fn bytes_round_trip() {
    let mut ctx = CallContext::new();
    let slot = params_proxy().root(PARAM_DATA_SCHEMA);
    let writer = ScMutableBytes::new(slot.clone());
    let reader = ScImmutableBytes::new(slot);
    writer.set_value(&mut ctx, &[0, 1, 2, 255, 128]);
    assert_eq!(reader.value(&ctx), vec![0, 1, 2, 255, 128]);
    writer.set_value(&mut ctx, &[]);
    assert_eq!(reader.value(&ctx), Vec::<u8>::new());
}

#[test]
fn string_round_trip() {
    let mut ctx = CallContext::new();
    let slot = params_proxy().root(PARAM_VM_TYPE);
    let writer = ScMutableString::new(slot.clone());
    let reader = ScImmutableString::new(slot);
    writer.set_value(&mut ctx, "wasm");
    assert_eq!(reader.value(&ctx), "wasm");
    writer.set_value(&mut ctx, "héllo — ✓");
    assert_eq!(reader.value(&ctx), "héllo — ✓");
    writer.set_value(&mut ctx, "");
    assert_eq!(reader.value(&ctx), "");
}

#[test]
fn hash_round_trip() {
    let mut ctx = CallContext::new();
    let slot = params_proxy().root(PARAM_HASH);
    let writer = ScMutableHash::new(slot.clone());
    let reader = ScImmutableHash::new(slot);
    let bytes: Vec<u8> = (0u8..32).collect();
    let h = hash_from_bytes(&bytes);
    writer.set_value(&mut ctx, &h);
    assert_eq!(reader.value(&ctx).to_bytes(), bytes);
}

#[test]
fn hname_round_trip() {
    let mut ctx = CallContext::new();
    let slot = results_proxy().root(PARAM_DATA_SCHEMA);
    let writer = ScMutableHname::new(slot.clone());
    let reader = ScImmutableHname::new(slot);
    writer.set_value(&mut ctx, ScHname(0xdeadbeef));
    assert_eq!(reader.value(&ctx), ScHname(0xdeadbeef));
}

#[test]
fn uint64_round_trip() {
    let mut ctx = CallContext::new();
    let slot = results_proxy().root(PARAM_DATA_SCHEMA);
    let writer = ScMutableUint64::new(slot.clone());
    let reader = ScImmutableUint64::new(slot);
    writer.set_value(&mut ctx, u64::MAX - 7);
    assert_eq!(reader.value(&ctx), u64::MAX - 7);
}

#[test]
fn overwrite_keeps_last_value() {
    let mut ctx = CallContext::new();
    let slot = params_proxy().root(PARAM_DATA_SCHEMA);
    let writer = ScMutableBytes::new(slot.clone());
    let reader = ScImmutableBytes::new(slot);
    writer.set_value(&mut ctx, &[1, 2, 3]);
    writer.set_value(&mut ctx, &[9]);
    assert_eq!(reader.value(&ctx), vec![9]);
}

#[test]
fn mutable_view_reads_its_own_write() {
    let mut ctx = CallContext::new();
    let writer = ScMutableString::new(results_proxy().root(PARAM_VM_TYPE));
    writer.set_value(&mut ctx, "evm");
    assert_eq!(writer.value(&ctx), "evm");
}

#[test]
fn ill_formed_bytes_decode_to_defaults() {
    let mut ctx = CallContext::new();
    let slot = params_proxy().root(PARAM_HASH);
    let writer = ScMutableBytes::new(slot.clone());
    // Three bytes fit neither the hash, the hashed-name, nor the uint64
    // width, and 0xff starts no valid UTF-8 sequence.
    writer.set_value(&mut ctx, &[0xff, 0xfe, 0x01]);
    assert_eq!(ScImmutableHash::new(slot.clone()).value(&ctx).to_bytes(), vec![0u8; 32]);
    assert_eq!(ScImmutableHname::new(slot.clone()).value(&ctx), ScHname(0));
    assert_eq!(ScImmutableUint64::new(slot.clone()).value(&ctx), 0);
    assert_eq!(ScImmutableString::new(slot.clone()).value(&ctx), "");
    // A leading nonzero byte still reads as true through the boolean view.
    assert_eq!(ScImmutableBool::new(slot).value(&ctx), true);
}

#[test]
fn hash_codec_pads_short_input_to_zero() {
    let h = hash_from_bytes(&[1, 2, 3]);
    assert_eq!(h.to_bytes(), vec![0u8; 32]);
}

#[test]
fn hname_encoding_is_little_endian() {
    let mut ctx = CallContext::new();
    let slot = params_proxy().root(PARAM_DATA_SCHEMA);
    ScMutableHname::new(slot.clone()).set_value(&mut ctx, ScHname(0x0403_0201));
    assert_eq!(ScImmutableBytes::new(slot).value(&ctx), vec![1, 2, 3, 4]);
}

#[test]
fn uint64_encoding_is_little_endian() {
    let mut ctx = CallContext::new();
    let slot = params_proxy().root(PARAM_DATA_SCHEMA);
    ScMutableUint64::new(slot.clone()).set_value(&mut ctx, 0x0807_0605_0403_0201);
    assert_eq!(ScImmutableBytes::new(slot).value(&ctx), vec![1, 2, 3, 4, 5, 6, 7, 8]);
}

#[test]
fn bool_encoding_is_one_byte() {
    let mut ctx = CallContext::new();
    let slot = params_proxy().root(PARAM_DATA_SCHEMA);
    ScMutableBool::new(slot.clone()).set_value(&mut ctx, true);
    assert_eq!(ScImmutableBytes::new(slot.clone()).value(&ctx), vec![1]);
    ScMutableBool::new(slot.clone()).set_value(&mut ctx, false);
    assert_eq!(ScImmutableBytes::new(slot).value(&ctx), vec![0]);
}

#[test]
fn string_encoding_is_utf8() {
    let mut ctx = CallContext::new();
    let slot = params_proxy().root(PARAM_VM_TYPE);
    ScMutableString::new(slot.clone()).set_value(&mut ctx, "wasm");
    assert_eq!(ScImmutableBytes::new(slot).value(&ctx), b"wasm".to_vec());
}
