use weaksignal::text::{digit, push_decimal, push_signed_decimal, radix_digits, reversed, trimmed, trimmed_reversed};
use weaksignal::utils::{
    bool_slice_to_u128, bool_slice_to_u16, bool_slice_to_u32, bool_slice_to_u64, bool_slice_to_u8,
    char_lookup, sub_array, unpack_u128,
};

#[test]
fn packs_most_significant_bit_first() {
    assert_eq!(bool_slice_to_u8(&[true, false, true]), 5);
    assert_eq!(bool_slice_to_u16(&[true, false, false, false, false, false, false, false, false]), 256);
    assert_eq!(bool_slice_to_u32(&[false, true, true, false]), 6);
    assert_eq!(bool_slice_to_u64(&[true; 64]), u64::MAX);
    assert_eq!(bool_slice_to_u128(&[true; 128]), u128::MAX);
    assert_eq!(bool_slice_to_u8(&[]), 0);
}

#[test]
fn bits_beyond_the_width_are_shifted_out() {
    let mut bits = [false; 10];
    bits[0] = true;
    bits[9] = true;
    assert_eq!(bool_slice_to_u8(&bits), 1);
    assert_eq!(bool_slice_to_u16(&bits), 513);
    assert_eq!(bool_slice_to_u8(&[true; 9]), 255);
}

#[test]
fn unpack_then_pack_keeps_the_low_bits() {
    let n: u128 = 0x0123_4567_89ab_cdef_0f1e_2d3c_4b5a_6978;
    let b8: [bool; 8] = unpack_u128(n, 8).try_into().unwrap();
    assert_eq!(bool_slice_to_u8(&b8), 0x78);
    let b16: [bool; 16] = unpack_u128(n, 16).try_into().unwrap();
    assert_eq!(bool_slice_to_u16(&b16), 0x6978);
    let b32: [bool; 32] = unpack_u128(n, 32).try_into().unwrap();
    assert_eq!(bool_slice_to_u32(&b32), 0x4b5a_6978);
    let b64: [bool; 64] = unpack_u128(n, 64).try_into().unwrap();
    assert_eq!(bool_slice_to_u64(&b64), 0x0f1e_2d3c_4b5a_6978);
    let b128: [bool; 128] = unpack_u128(n, 128).try_into().unwrap();
    assert_eq!(bool_slice_to_u128(&b128), n);
}

#[test]
fn pack_then_unpack_gives_the_bits_back() {
    let bits = [true, false, false, true, true, false, true, false, false, false, true];
    let n = bool_slice_to_u16(&bits);
    assert_eq!(n, 0b10011010001);
    assert_eq!(unpack_u128(n as u128, 11), bits.to_vec());
}

#[test]
fn unpack_wider_than_the_number() {
    assert_eq!(unpack_u128(5, 4), vec![false, true, false, true]);
    assert_eq!(unpack_u128(5, 0), Vec::<bool>::new());
    let wide = unpack_u128(u128::MAX, 130);
    assert_eq!(wide.len(), 130);
    assert_eq!(&wide[..3], &[false, false, true]);
}

#[test]
fn char_lookup_in_and_out_of_range() {
    assert_eq!(char_lookup(0, "ABC"), 'A');
    assert_eq!(char_lookup(2, "ABC"), 'C');
    assert_eq!(char_lookup(3, "ABC"), '?');
    assert_eq!(char_lookup(4, "ABC"), '?');
    assert_eq!(char_lookup(0, ""), '?');
}

#[test]
fn sub_array_copies_a_range() {
    let mut source = [false; 77];
    source[10] = true;
    source[12] = true;
    let part: [bool; 4] = sub_array(&source, 9);
    assert_eq!(part, [false, true, false, true]);
}

#[test]
fn decimal_numbers() {
    let mut s = String::from("x");
    push_decimal(&mut s, 0, 0);
    push_decimal(&mut s, 7, 3);
    push_decimal(&mut s, 1234, 3);
    push_decimal(&mut s, u64::MAX, 2);
    assert_eq!(s, "x0007123418446744073709551615");
    let mut t = String::new();
    push_signed_decimal(&mut t, -30);
    push_signed_decimal(&mut t, 0);
    push_signed_decimal(&mut t, 32);
    assert_eq!(t, "-30032");
    assert_eq!(digit(9), '9');
}

#[test]
fn trimming_and_reversal() {
    assert_eq!(trimmed_reversed(&"  AB C ".chars().collect()), "C BA");
    assert_eq!(trimmed_reversed(&"   ".chars().collect()), "");
    assert_eq!(trimmed_reversed(&Vec::new()), "");
    assert_eq!(reversed(&" AB".chars().collect()), "BA ");
    assert_eq!(trimmed(" DX "), "DX");
    assert_eq!(trimmed("NWT"), "NWT");
    assert_eq!(trimmed(""), "");
}

#[test]
fn digits_lowest_first() {
    assert_eq!(radix_digits(0x1f, "0123456789ABCDEF", 3), vec!['F', '1', '0']);
    assert_eq!(radix_digits(5, "AB", 0), Vec::<char>::new());
}
