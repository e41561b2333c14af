use file_intake::file_id::FileId;

#[test]
fn identifier_text_is_hyphenated_lower_case_hex() {
    let id = FileId { value: 0x550e8400e29b41d4a716446655440000 };
    assert_eq!(id.to_text(), "550e8400-e29b-41d4-a716-446655440000");
}

#[test]
fn identifier_text_of_extremes() {
    assert_eq!(FileId { value: 0 }.to_text(), "00000000-0000-0000-0000-000000000000");
    assert_eq!(FileId { value: u128::MAX }.to_text(), "ffffffff-ffff-ffff-ffff-ffffffffffff");
    assert_eq!(FileId { value: 1 }.to_text(), "00000000-0000-0000-0000-000000000001");
    assert_eq!(
        FileId { value: 0x0123456789abcdef0123456789abcdef }.to_text(),
        "01234567-89ab-cdef-0123-456789abcdef"
    );
}

#[test]
fn identifier_text_has_its_most_significant_digit_first() {
    let id = FileId { value: 0xa << 124 };
    assert_eq!(id.to_text(), "a0000000-0000-0000-0000-000000000000");
}

#[test]
fn parse_reads_the_hyphenated_form() {
    let id = FileId::parse_str("550e8400-e29b-41d4-a716-446655440000");
    assert_eq!(id, Some(FileId { value: 0x550e8400e29b41d4a716446655440000 }));
}

#[test]
fn parse_reads_upper_case_and_the_form_without_hyphens() {
    let expected = Some(FileId { value: 0x550e8400e29b41d4a716446655440000 });
    assert_eq!(FileId::parse_str("550E8400-E29B-41D4-A716-446655440000"), expected);
    assert_eq!(FileId::parse_str("550e8400e29b41d4a716446655440000"), expected);
}

#[test]
fn parse_rejects_what_is_no_identifier() {
    assert_eq!(FileId::parse_str(""), None);
    assert_eq!(FileId::parse_str("not-a-uuid"), None);
    assert_eq!(FileId::parse_str("550e8400-e29b-41d4-a716-44665544000"), None);
    assert_eq!(FileId::parse_str("550e8400-e29b-41d4-a716-44665544000g"), None);
    assert_eq!(FileId::parse_str("550e8400-e29b-41d4-a716-4466554400000"), None);
}

#[test]
fn text_of_an_identifier_parses_back() {
    let values = [0u128, 1, 0x550e8400e29b41d4a716446655440000, u128::MAX];
    for value in values {
        let id = FileId { value };
        assert_eq!(FileId::parse_str(&id.to_text()), Some(id));
    }
}
