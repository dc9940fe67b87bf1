use ibis::common::DbEdit;
use ibis::diff::{apply_patch, check_headers};
use ibis::error::Error;
use ibis::history::generate_article_version;
use ibis::newtypes::{ArticleId, EditId, PersonId, Timestamp};
use ibis::version::EditVersion;

const HUGE: &str = "--- original\n+++ modified\n@@ -18446744073709551615,1 +1 @@\n-a\n+b\n@@ -18446744073709551615,1 +3 @@\n-a\n+b\n";

#[test]
fn a_patch_is_applied_to_its_base() {
    let patch = "--- original\n+++ modified\n@@ -1 +1 @@\n-Hello\n+World\n";
    assert!(check_headers(patch));
    assert_eq!(Some("World\n".to_string()), apply_patch("Hello\n", patch));
    let first = "--- original\n+++ modified\n@@ -0,0 +1 @@\n+Hello\n";
    assert_eq!(Some("Hello\n".to_string()), apply_patch("", first));
}

#[test]
fn a_patch_that_does_not_fit_its_base_is_not_applied() {
    let patch = "--- original\n+++ modified\n@@ -1 +1 @@\n-Hello\n+World\n";
    assert_eq!(None, apply_patch("Other\n", patch));
}

#[test]
fn a_hunk_header_with_a_number_of_ten_digits_is_refused() {
    assert!(!check_headers(HUGE));
    assert_eq!(None, apply_patch("a\n", HUGE));
    assert!(!check_headers("@@ -1234567890 +1 @@\n"));
    assert!(!check_headers("--- a\n+++ b\n@@ -1,2 +1,0000000001 @@"));
}

#[test]
fn a_hunk_header_with_numbers_of_nine_digits_is_let_through() {
    let patch = "--- original\n+++ modified\n@@ -999999999,1 +999999999,1 @@\n-a\n+b\n";
    assert!(check_headers(patch));
    assert_eq!(Some("b\n".to_string()), apply_patch("a\n", patch));
    assert_eq!(None, apply_patch("c\n", patch));
}

#[test]
fn long_numbers_in_the_lines_of_a_hunk_are_no_obstacle() {
    let patch = "--- original\n+++ modified\n@@ -1 +1 @@\n-12345678901234567890\n+98765432109876543210\n";
    assert!(check_headers(patch));
    assert_eq!(
        Some("98765432109876543210\n".to_string()),
        apply_patch("12345678901234567890\n", patch)
    );
    assert!(check_headers(""));
    assert!(check_headers("12345678901234567890"));
}

#[test]
fn an_edit_with_an_oversized_header_breaks_the_chain() {
    let edit = DbEdit {
        id: EditId(1),
        creator_id: PersonId(1),
        hash: EditVersion::new(HUGE),
        ap_id: String::new(),
        diff: HUGE.to_string(),
        summary: String::new(),
        article_id: ArticleId(1),
        previous_version_id: EditVersion::default(),
        published: Timestamp(0),
    };
    let edits = vec![edit];
    assert_eq!(
        Err(Error::VersionNotFound),
        generate_article_version(&edits, &EditVersion::new(HUGE))
    );
    assert_eq!(Ok(String::new()), generate_article_version(&edits, &EditVersion::default()));
}
