use evm_decode::text::{bytes32_to_string, trimmed_len};
use evm_decode::wide::{
    bigint_to_i32, bigint_to_uint64, bigint_to_uint8, clamp_to_i32, clamp_to_u64, WideInt,
};

fn wide(bytes: &[u8]) -> WideInt {
    WideInt::from_signed_bytes_be(bytes.to_vec())
}

#[test]
fn narrow_keeps_values_of_up_to_sixty_five_bits() {
    assert_eq!(wide(&[]).narrow(), Some(0));
    assert_eq!(wide(&[0x00]).narrow(), Some(0));
    assert_eq!(wide(&[0x7f]).narrow(), Some(127));
    assert_eq!(wide(&[0x80]).narrow(), Some(-128));
    assert_eq!(wide(&[0xff]).narrow(), Some(-1));
    assert_eq!(wide(&[0xff, 0xff, 0xff]).narrow(), Some(-1));
    assert_eq!(wide(&[0x00, 0x00, 0x01, 0x00]).narrow(), Some(256));
    let top = [0x00, 0xff, 0xff, 0xff, 0xff, 0xff, 0xff, 0xff, 0xff];
    assert_eq!(wide(&top).narrow(), Some(u64::MAX as i128));
    let low = [0xff, 0x00, 0x00, 0x00, 0x00, 0x00, 0x00, 0x00, 0x00];
    assert_eq!(wide(&low).narrow(), Some(-(1i128 << 64)));
}

#[test]
fn narrow_gives_up_beyond_sixty_five_bits() {
    let above = [0x01, 0x00, 0x00, 0x00, 0x00, 0x00, 0x00, 0x00, 0x00];
    assert_eq!(wide(&above).narrow(), None);
    let below = [0xfe, 0xff, 0xff, 0xff, 0xff, 0xff, 0xff, 0xff, 0xff];
    assert_eq!(wide(&below).narrow(), None);
    let mut word = vec![0u8; 32];
    word[0] = 0x01;
    assert_eq!(wide(&word).narrow(), None);
    assert_eq!(wide(&[0x80; 32]).narrow(), None);
}

#[test]
fn signed_32_bit_range_is_kept_exactly() {
    assert_eq!(bigint_to_i32(&wide(&[0x7f, 0xff, 0xff, 0xff])), Some(i32::MAX));
    assert_eq!(bigint_to_i32(&wide(&[0x80, 0x00, 0x00, 0x00])), Some(i32::MIN));
    assert_eq!(bigint_to_i32(&wide(&[0x00, 0x80, 0x00, 0x00, 0x00])), None);
    assert_eq!(bigint_to_i32(&wide(&[0xff, 0x7f, 0xff, 0xff, 0xff])), None);
    assert_eq!(bigint_to_i32(&wide(&[0xf2, 0x76, 0x18])), Some(-887272));
    assert_eq!(bigint_to_i32(&wide(&[])), Some(0));
}

#[test]
fn unsigned_64_bit_range_is_kept_exactly() {
    let top = [0x00, 0xff, 0xff, 0xff, 0xff, 0xff, 0xff, 0xff, 0xff];
    assert_eq!(bigint_to_uint64(&wide(&top)), Some(u64::MAX));
    let above = [0x01, 0x00, 0x00, 0x00, 0x00, 0x00, 0x00, 0x00, 0x00];
    assert_eq!(bigint_to_uint64(&wide(&above)), None);
    assert_eq!(bigint_to_uint64(&wide(&[0xff])), None);
    assert_eq!(bigint_to_uint64(&wide(&[0x0b, 0xb8])), Some(3000));
    assert_eq!(bigint_to_uint64(&wide(&[0x00])), Some(0));
}

#[test]
fn unsigned_8_bit_range_is_kept_exactly() {
    assert_eq!(bigint_to_uint8(&wide(&[0x00, 0xff])), Some(255));
    assert_eq!(bigint_to_uint8(&wide(&[0x01, 0x00])), None);
    assert_eq!(bigint_to_uint8(&wide(&[0x12])), Some(18));
    assert_eq!(bigint_to_uint8(&wide(&[0x00])), Some(0));
    assert_eq!(bigint_to_uint8(&wide(&[0xff])), None);
}

#[test]
fn clamping_goes_to_the_largest_value_on_both_sides() {
    assert_eq!(clamp_to_i32(&wide(&[0x7f, 0xff, 0xff, 0xff])), i32::MAX);
    assert_eq!(clamp_to_i32(&wide(&[0x00, 0x80, 0x00, 0x00, 0x00])), i32::MAX);
    assert_eq!(clamp_to_i32(&wide(&[0xff, 0x7f, 0xff, 0xff, 0xff])), i32::MAX);
    assert_eq!(clamp_to_i32(&wide(&[0x80, 0x00, 0x00, 0x00])), i32::MIN);
    assert_eq!(clamp_to_i32(&wide(&[0xff, 0xc4])), -60);
    assert_eq!(clamp_to_u64(&wide(&[0x0b, 0xb8])), 3000);
    assert_eq!(clamp_to_u64(&wide(&[0xff])), u64::MAX);
    let above = [0x01, 0x00, 0x00, 0x00, 0x00, 0x00, 0x00, 0x00, 0x00];
    assert_eq!(clamp_to_u64(&wide(&above)), u64::MAX);
}

#[test]
fn decimal_text_is_exact_at_any_width() {
    assert_eq!(wide(&[]).to_decimal(), "0");
    assert_eq!(wide(&[0x00]).to_decimal(), "0");
    assert_eq!(wide(&[0x09]).to_decimal(), "9");
    assert_eq!(wide(&[0x0a]).to_decimal(), "10");
    assert_eq!(wide(&[0x01, 0x00]).to_decimal(), "256");
    assert_eq!(wide(&[0xff]).to_decimal(), "-1");
    assert_eq!(wide(&[0x80]).to_decimal(), "-128");
    assert_eq!(wide(&[0xfc, 0x18]).to_decimal(), "-1000");
    let mut all = vec![0x00];
    all.extend_from_slice(&[0xff; 32]);
    assert_eq!(
        wide(&all).to_decimal(),
        "115792089237316195423570985008687907853269984665640564039457584007913129639935"
    );
    assert_eq!(
        wide(&[0x80, 0, 0, 0, 0, 0, 0, 0, 0, 0, 0, 0, 0, 0, 0, 0]).to_decimal(),
        "-170141183460469231731687303715884105728"
    );
}

#[test]
fn from_signed_bytes_keeps_the_bytes() {
    let value = WideInt::from_signed_bytes_be(vec![1, 2, 3]);
    assert_eq!(value.bytes, vec![1, 2, 3]);
    assert_eq!(value.narrow(), Some(0x010203));
}

#[test]
fn trailing_zero_bytes_are_dropped() {
    assert_eq!(trimmed_len(&vec![]), 0);
    assert_eq!(trimmed_len(&vec![0, 0, 0]), 0);
    assert_eq!(trimmed_len(&vec![b'a', 0, b'b', 0, 0]), 3);
    assert_eq!(trimmed_len(&vec![0, 0, 7]), 3);
}

#[test]
fn fixed_width_names_become_text() {
    let mut name = b"Dai Stablecoin v1.0".to_vec();
    name.resize(32, 0);
    assert_eq!(bytes32_to_string(&name), "Dai Stablecoin v1.0");
    assert_eq!(bytes32_to_string(&vec![0u8; 32]), "");
    assert_eq!(bytes32_to_string(&vec![]), "");
    assert_eq!(bytes32_to_string(&vec![b'M', b'K', b'R']), "MKR");
    assert_eq!(bytes32_to_string(&vec![b'a', 0, b'b', 0]), "a\u{0}b");
    assert_eq!(bytes32_to_string(&vec![b'x', 0xff, 0, 0]), "x\u{fffd}");
}
