use ibis::version::EditVersion;

#[test]
fn test_edit_versions() {
    let default = EditVersion::default();
    assert_eq!("e3b0c44298fc1c149afbf4c8996fb924", default.hash());

    let version = EditVersion::new("test");
    assert_eq!("9f86d081884c7d659a2feaa0c55ad015", version.hash());
}

#[test]
fn hashing_twice_gives_the_same_version() {
    let diff = "--- original\n+++ modified\n@@ -0,0 +1 @@\n+Hello\n";
    let first = EditVersion::new(diff);
    let second = EditVersion::new(diff);
    assert!(first == second);
    assert_eq!(first.hash(), second.hash());
}

#[test]
fn different_diffs_give_different_versions() {
    let first = EditVersion::new("a");
    let second = EditVersion::new("b");
    assert!(first != second);
    assert_eq!("ca978112ca1bbdcafac231b39a23dc4d", first.hash());
    assert_eq!("3e23e8160039594a33894f6564e1b134", second.hash());
}

#[test]
fn the_default_version_is_the_hash_of_the_empty_diff() {
    let sentinel = EditVersion::default();
    let empty = EditVersion::new("");
    assert!(sentinel == empty);
}

#[test]
fn the_external_form_has_32_lowercase_hex_characters() {
    let text = EditVersion::new("Some diff with ünïcödé").hash();
    assert_eq!(32, text.len());
    assert!(text.chars().all(|c| c.is_ascii_digit() || ('a'..='f').contains(&c)));
}

#[test]
fn versions_can_be_copied() {
    let version = EditVersion::new("test");
    let copy = version;
    assert!(copy == version);
    assert_eq!(version.hash(), copy.clone().hash());
}

#[test]
fn the_external_form_is_the_hex_encoding_of_the_bytes() {
    for diff in ["", "test", "--- original\n+++ modified\n@@ -0,0 +1 @@\n+Hello\n", "ünïcödé"] {
        let version = EditVersion::new(diff);
        assert_eq!(hex::encode(version.into_bytes()), version.hash());
    }
    let bytes = [0x00, 0x01, 0x0f, 0x10, 0x7f, 0x80, 0x9a, 0xa9, 0xbc, 0xcb, 0xde, 0xed, 0xf0, 0xfe, 0xff, 0x42];
    assert_eq!("00010f107f809aa9bccbdeedf0feff42", EditVersion::from_bytes(bytes).hash());
}
