use file_intake::file_id::FileId;
use file_intake::record::{describe_file, IndexedFile, IndexedTag};

fn sample_id() -> FileId {
    FileId { value: 0x550e8400e29b41d4a716446655440000 }
}

#[test]
fn record_of_a_text_file() {
    let record = describe_file(sample_id(), "notes.txt", 12, "abcd".to_string(), 99, false);
    assert_eq!(
        record,
        IndexedFile {
            uuid: "550e8400-e29b-41d4-a716-446655440000".to_string(),
            name: "notes.txt".to_string(),
            size: 12,
            mime: Some("text/plain".to_string()),
            hash: "abcd".to_string(),
            indexed_at: 99,
            tags: vec![],
        }
    );
}

#[test]
fn display_name_has_no_path_separators() {
    let record = describe_file(sample_id(), "../etc/pass:wd.txt", 0, String::new(), 0, false);
    assert_eq!(record.name, "..etcpasswd.txt");
    assert_eq!(record.mime, Some("text/plain".to_string()));
}

#[test]
fn display_name_has_no_control_characters() {
    let record = describe_file(sample_id(), "a\u{0}b\u{1f}c?.png", 0, String::new(), 0, false);
    assert_eq!(record.name, "abc.png");
    assert_eq!(record.mime, Some("image/png".to_string()));
}

#[test]
fn display_name_of_dots_alone_is_empty() {
    let record = describe_file(sample_id(), "..", 0, String::new(), 0, false);
    assert_eq!(record.name, "");
    assert_eq!(record.mime, None);
}

#[test]
fn long_display_name_is_cut() {
    let long = "x".repeat(300);
    let record = describe_file(sample_id(), &long, 0, String::new(), 0, false);
    assert_eq!(record.name, "x".repeat(255));
}

#[test]
fn windows_rules_apply_only_where_asked_for() {
    let plain = describe_file(sample_id(), "con.txt", 0, String::new(), 0, false);
    assert_eq!(plain.name, "con.txt");
    assert_eq!(plain.mime, Some("text/plain".to_string()));
    let windows = describe_file(sample_id(), "con.txt", 0, String::new(), 0, true);
    assert_eq!(windows.name, "");
    assert_eq!(windows.mime, None);
    let trailing = describe_file(sample_id(), "report.pdf. ", 0, String::new(), 0, true);
    assert_eq!(trailing.name, "report.pdf");
    assert_eq!(trailing.mime, Some("application/pdf".to_string()));
}

#[test]
fn media_type_goes_by_the_extension() {
    let png = describe_file(sample_id(), "photo.PNG", 0, String::new(), 0, false);
    assert_eq!(png.mime, Some("image/png".to_string()));
    let json = describe_file(sample_id(), "data.json", 0, String::new(), 0, false);
    assert_eq!(json.mime, Some("application/json".to_string()));
}

#[test]
fn media_type_is_absent_where_the_extension_is_unknown() {
    let unknown = describe_file(sample_id(), "archive.zzzunknown", 0, String::new(), 0, false);
    assert_eq!(unknown.mime, None);
    let none = describe_file(sample_id(), "README", 0, String::new(), 0, false);
    assert_eq!(none.mime, None);
}

#[test]
fn with_tags_replaces_the_tags_only() {
    let record = describe_file(sample_id(), "notes.txt", 12, "abcd".to_string(), 99, false);
    let tags = vec![
        IndexedTag { name: "a".to_string(), value: "1".to_string() },
        IndexedTag { name: "a".to_string(), value: "2".to_string() },
    ];
    let tagged = record.with_tags(tags);
    assert_eq!(tagged.name, "notes.txt");
    assert_eq!(tagged.size, 12);
    assert_eq!(tagged.hash, "abcd");
    assert_eq!(tagged.indexed_at, 99);
    assert_eq!(
        tagged.tags,
        vec![
            IndexedTag { name: "a".to_string(), value: "1".to_string() },
            IndexedTag { name: "a".to_string(), value: "2".to_string() },
        ]
    );
}
