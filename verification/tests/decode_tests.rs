use wobj::decode::{decode, DecodedInstruction};

#[test]
fn decode_splits_every_field() {
    let d = decode(0x0123_4567);
    assert_eq!(d.opcode, 0x0);
    assert_eq!(d.rd, 0x1);
    assert_eq!(d.rs, 0x2);
    assert_eq!(d.func, 0x3);
    assert_eq!(d.rt, 0x7);
    assert_eq!(d.raw_offset, 0x34567);
    assert_eq!(d.immediate, 0x4567);
    assert_eq!(d.sign_extended_offset, 0x34567);
}

#[test]
fn decode_of_all_ones() {
    let d = decode(0xFFFF_FFFF);
    assert_eq!(
        d,
        DecodedInstruction {
            opcode: 0xf,
            func: 0xf,
            rd: 0xf,
            rs: 0xf,
            rt: 0xf,
            raw_offset: 0xfffff,
            sign_extended_offset: -1,
            immediate: 0xffff,
        }
    );
}

#[test]
fn decode_of_zero() {
    let d = decode(0);
    assert_eq!(
        d,
        DecodedInstruction {
            opcode: 0,
            func: 0,
            rd: 0,
            rs: 0,
            rt: 0,
            raw_offset: 0,
            sign_extended_offset: 0,
            immediate: 0,
        }
    );
}

#[test]
fn decode_is_deterministic() {
    let words: [u32; 6] = [0, 1, 0x8000_0000, 0xDEAD_BEEF, 0x0008_0000, u32::MAX];
    for w in words {
        assert_eq!(decode(w), decode(w));
    }
}

#[test]
fn sign_extension_with_bit_19_set() {
    let d = decode(0x0008_0000);
    assert_eq!(d.raw_offset, 0x80000);
    assert_eq!(d.sign_extended_offset, -0x80000);
    assert_eq!(d.sign_extended_offset as i64, d.raw_offset as i64 - 0x100000);

    let d = decode(0x000F_FFFC);
    assert_eq!(d.raw_offset, 0xFFFFC);
    assert_eq!(d.sign_extended_offset, -4);
}

#[test]
fn sign_extension_with_bit_19_clear() {
    let d = decode(0x0007_FFFF);
    assert_eq!(d.raw_offset, 0x7FFFF);
    assert_eq!(d.sign_extended_offset, 0x7FFFF);

    let d = decode(0xABC0_0010);
    assert_eq!(d.raw_offset, 0x10);
    assert_eq!(d.sign_extended_offset, 0x10);
}

#[test]
fn sign_extension_over_a_range_of_offsets() {
    let mut raw: u32 = 0;
    while raw < 0x100000 {
        let d = decode(0x8120_0000 | raw);
        assert_eq!(d.raw_offset, raw);
        if raw & 0x80000 != 0 {
            assert!(d.sign_extended_offset < 0);
            assert_eq!(d.sign_extended_offset as i64, raw as i64 - 0x100000);
        } else {
            assert_eq!(d.sign_extended_offset as i64, raw as i64);
        }
        raw += 0x3fb;
    }
}

#[test]
fn upper_bits_do_not_reach_the_offset() {
    let d = decode(0xFFF0_0001);
    assert_eq!(d.raw_offset, 1);
    assert_eq!(d.sign_extended_offset, 1);
    assert_eq!(d.opcode, 0xf);
    assert_eq!(d.rd, 0xf);
    assert_eq!(d.rs, 0xf);
    assert_eq!(d.func, 0);
}
