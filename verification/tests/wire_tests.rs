use protoc_gen_ts::wire::join_halves;
use protoc_gen_ts::wire::split_high;
use protoc_gen_ts::wire::split_low;
use protoc_gen_ts::wire::unzigzag32;
use protoc_gen_ts::wire::unzigzag64;
use protoc_gen_ts::wire::varint_decode;
use protoc_gen_ts::wire::varint_encode;
use protoc_gen_ts::wire::zigzag32;
use protoc_gen_ts::wire::zigzag64;

#[test]
fn split_then_join_round_trip() {
    // The packed 64-bit fixed path splits each value into halves; joining
    // them restores the value.
    for v in [0u64, 1, 0xFFFF_FFFF, 0x1_0000_0000, 0xDEAD_BEEF_CAFE_F00D, u64::MAX] {
        let lo = split_low(v);
        let hi = split_high(v);
        assert_eq!(join_halves(lo, hi), v);
    }
    assert_eq!(split_low(u64::MAX), u32::MAX);
    assert_eq!(split_high(u64::MAX), u32::MAX);
    assert_eq!(split_high(0xFFFF_FFFF), 0);
}

#[test]
fn zigzag_round_trips() {
    for n in [0i64, 1, -1, 2, -2, i64::MAX, i64::MIN] {
        assert_eq!(unzigzag64(zigzag64(n)), n);
    }
    for n in [0i32, 1, -1, 63, -64, i32::MAX, i32::MIN] {
        assert_eq!(unzigzag32(zigzag32(n)), n);
    }
}

#[test]
fn zigzag_known_values() {
    assert_eq!(zigzag64(0), 0);
    assert_eq!(zigzag64(-1), 1);
    assert_eq!(zigzag64(1), 2);
    assert_eq!(zigzag64(-2), 3);
    assert_eq!(zigzag64(i64::MIN), u64::MAX);
    assert_eq!(zigzag32(i32::MIN), u32::MAX);
}

#[test]
fn varint_known_encoding() {
    assert_eq!(varint_encode(0), vec![0u8]);
    assert_eq!(varint_encode(127), vec![127u8]);
    assert_eq!(varint_encode(128), vec![0x80u8, 0x01]);
    assert_eq!(varint_encode(300), vec![0xACu8, 0x02]);
}

#[test]
fn varint_round_trips() {
    for x in [0u64, 1, 127, 128, 300, 16383, 16384, u32::MAX as u64, u64::MAX] {
        let bytes = varint_encode(x);
        let decoded = varint_decode(&bytes, 0).expect("a valid varint decodes");
        assert_eq!(decoded, (x, bytes.len()));
    }
}

#[test]
fn varint_decode_ignores_trailing_bytes() {
    let mut bytes = varint_encode(300);
    let width = bytes.len();
    bytes.push(0x55);
    bytes.push(0x66);
    assert_eq!(varint_decode(&bytes, 0), Some((300, width)));
}

#[test]
fn varint_decode_rejects_truncated_input() {
    let bytes = vec![0x80u8, 0x80];
    assert_eq!(varint_decode(&bytes, 2), None);
    assert_eq!(varint_decode(&bytes, 0), None);
}

#[test]
fn fixed_width_round_trips() {
    for x in [0u32, 1, 0xDEAD_BEEF, u32::MAX] {
        let bytes = protoc_gen_ts::wire::fixed32_encode(x);
        assert_eq!(bytes.len(), 4);
        assert_eq!(protoc_gen_ts::wire::fixed32_decode(&bytes), x);
    }
    for x in [0u64, 1, 0xDEAD_BEEF_CAFE_F00D, u64::MAX] {
        let bytes = protoc_gen_ts::wire::fixed64_encode(x);
        assert_eq!(bytes.len(), 8);
        assert_eq!(protoc_gen_ts::wire::fixed64_decode(&bytes), x);
    }
}
