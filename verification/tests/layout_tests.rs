use variants::layout::{
    from_bool_bits, take16, take32, take8, to_bool_bits, to_signed16, to_signed32, to_signed64,
    to_signed8, to_unsigned16, to_unsigned32, to_unsigned64, to_unsigned8,
};

#[test]
fn signed_numbers_are_twos_complement() {
    for v in i8::MIN..=i8::MAX {
        assert_eq!(to_unsigned8(v), v as u8);
        assert_eq!(to_signed8(v as u8), v);
    }
    for v in i16::MIN..=i16::MAX {
        assert_eq!(to_unsigned16(v), v as u16);
        assert_eq!(to_signed16(v as u16), v);
    }
    for v in [i32::MIN, i32::MIN + 1, -65536, -1, 0, 1, 65535, i32::MAX] {
        assert_eq!(to_unsigned32(v), v as u32);
        assert_eq!(to_signed32(v as u32), v);
    }
    for v in [i64::MIN, i64::MIN + 1, -(1 << 32), -1, 0, 1, 1 << 32, i64::MAX] {
        assert_eq!(to_unsigned64(v), v as u64);
        assert_eq!(to_signed64(v as u64), v);
    }
}

#[test]
fn fields_are_the_first_bytes() {
    let word = 0x0123_4567_89ab_cdefu64;
    assert_eq!(take8(word), 0xef);
    assert_eq!(take16(word), 0xcdef);
    assert_eq!(take32(word), 0x89ab_cdef);
    assert_eq!(take8(word), word.to_le_bytes()[0]);
    assert_eq!(take16(word), u16::from_le_bytes([word.to_le_bytes()[0], word.to_le_bytes()[1]]));
    assert_eq!(take32(u64::MAX), u32::MAX);
    assert_eq!(take8(0x100), 0);
}

#[test]
fn booleans_are_sixteen_bits() {
    assert_eq!(to_bool_bits(true), 0xffff);
    assert_eq!(to_bool_bits(false), 0);
    assert!(from_bool_bits(0xffff));
    assert!(from_bool_bits(1));
    assert!(!from_bool_bits(0));
    assert!(!from_bool_bits(0x1_0000));
    assert_eq!(to_bool_bits(true) as u16 as i16, -1);
}
