use rust_autoclicker::wide::to_wstring;

#[test]
fn ascii_text_is_encoded_unit_for_unit_with_a_nul() {
    assert_eq!(to_wstring("Ok"), vec![0x4f, 0x6b, 0]);
    assert_eq!(to_wstring(""), vec![0]);
}

#[test]
fn matches_encode_utf16() {
    for s in ["Settings", "é€", "😀 X: 1", "Press any key..."] {
        let mut expected: Vec<u16> = s.encode_utf16().collect();
        expected.push(0);
        assert_eq!(to_wstring(s), expected);
    }
}

#[test]
fn supplementary_characters_become_surrogate_pairs() {
    assert_eq!(to_wstring("😀"), vec![0xd83d, 0xde00, 0]);
}
