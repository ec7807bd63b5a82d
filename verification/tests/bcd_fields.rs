use netplay::bcd::{bcd_decode, bcd_encode};

#[test]
fn encode_pads_decoded_hex_with_zero_bytes() {
    assert_eq!(bcd_encode("1234", 4), vec![0x12, 0x34, 0x00, 0x00]);
}

#[test]
fn encode_exact_length_adds_nothing() {
    assert_eq!(bcd_encode("ABcd", 2), vec![0xab, 0xcd]);
}

#[test]
fn encode_decodes_hex_digits_of_either_case() {
    assert_eq!(bcd_encode("fF0a", 3), vec![0xff, 0x0a, 0x00]);
}

#[test]
fn encode_non_hex_text_gives_zero_field() {
    assert_eq!(bcd_encode("xyz1", 3), vec![0, 0, 0]);
}

#[test]
fn encode_odd_length_text_gives_zero_field() {
    assert_eq!(bcd_encode("123", 2), vec![0, 0]);
}

#[test]
fn encode_empty_text_gives_zero_field() {
    assert_eq!(bcd_encode("", 2), vec![0, 0]);
}

#[test]
fn encode_zero_length_field() {
    assert_eq!(bcd_encode("", 0), Vec::<u8>::new());
}

#[test]
fn decode_drops_trailing_zero_bytes() {
    assert_eq!(bcd_decode(&[0x12, 0x34, 0x00, 0x00]), "1234");
}

#[test]
fn decode_all_zero_field_is_empty() {
    assert_eq!(bcd_decode(&[0, 0, 0]), "");
}

#[test]
fn decode_empty_field_is_empty() {
    assert_eq!(bcd_decode(&[]), "");
}

#[test]
fn decode_keeps_leading_and_inner_zeros() {
    assert_eq!(bcd_decode(&[0x00, 0x01, 0x00, 0x20, 0x00]), "00010020");
}

#[test]
fn decode_writes_lower_case_two_digits_per_byte() {
    assert_eq!(bcd_decode(&[0xab, 0x0c, 0xf0]), "ab0cf0");
}

#[test]
fn encode_then_decode_gives_canonical_text_back() {
    let field = bcd_encode("4603002", 6);
    assert_eq!(field, vec![0; 6]);
    let field = bcd_encode("460300a1", 8);
    assert_eq!(field.len(), 8);
    assert_eq!(bcd_decode(&field), "460300a1");
}

#[test]
fn encode_then_decode_lowercases_and_drops_trailing_zero_pairs() {
    let field = bcd_encode("12AB0000", 6);
    assert_eq!(bcd_decode(&field), "12ab");
}

#[test]
fn decode_then_encode_gives_field_back() {
    let field = vec![0x01, 0x9a, 0x00, 0x7f, 0x00, 0x00];
    let text = bcd_decode(&field);
    assert_eq!(bcd_encode(&text, field.len()), field);
}
