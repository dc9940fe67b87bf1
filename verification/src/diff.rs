use crate::text::chars_of;
use diffy::{apply, create_patch, merge, Patch};
use vstd::prelude::*;

verus! {

/// The unified diff that leads from `original` to `modified`, as `diffy` renders it.
pub uninterp spec fn unified_diff(original: Seq<char>, modified: Seq<char>) -> Seq<char>;

/// The text that a unified diff yields on `base`: `None` where `patch` is no
/// well-formed diff, or where one of its hunks finds no place in `base`.
pub uninterp spec fn patched_text(base: Seq<char>, patch: Seq<char>) -> Option<Seq<char>>;

/// The three-way merge of `ours` and `theirs` over their common `ancestor`: the
/// merged text, or as the error the text with conflict markers.
pub uninterp spec fn merged_text(ancestor: Seq<char>, ours: Seq<char>, theirs: Seq<char>) -> Result<
    Seq<char>,
    Seq<char>,
>;

/// Calls `diffy::create_patch` and renders the patch with its `Display` impl.
/// Trusted: the text depends on the two arguments alone.
#[verifier::external_body]
pub(crate) fn create_diff(original: &str, modified: &str) -> (diff: String)
    ensures
        diff@ == unified_diff(original@, modified@),
{
    create_patch(original, modified).to_string()
}

/// How many digits a number in a hunk header may have.
pub const HEADER_DIGITS: usize = 9;

/// Whether a character is a decimal digit.
pub open spec fn is_digit(c: char) -> bool {
    '0' <= c && c <= '9'
}

/// Where the line begins in which position `n` of a text lies.
pub open spec fn line_start(text: Seq<char>, n: int) -> int
    decreases n,
{
    if n <= 0 {
        0
    } else if text[n - 1] == '\n' {
        n
    } else {
        line_start(text, n - 1)
    }
}

/// Whether position `n` lies in a line that begins with `@`, as the headers
/// of hunks do, and no line within a hunk does.
pub open spec fn in_header(text: Seq<char>, n: int) -> bool {
    0 <= n < text.len() && text[line_start(text, n)] == '@'
}

/// How many digits stand in a row just before position `n`.
pub open spec fn digits_upto(text: Seq<char>, n: int) -> nat
    decreases n,
{
    if n <= 0 || !is_digit(text[n - 1]) {
        0
    } else {
        1 + digits_upto(text, n - 1)
    }
}

/// Whether the numbers in the hunk headers of a patch are small enough to
/// be added up: in a line that begins with `@`, no more than nine digits
/// stand in a row. A line number or a length is then below a thousand
/// million, and the sum of two of them fits in a `usize` of 32 bits or more.
pub open spec fn headers_fit(patch: Seq<char>) -> bool {
    forall|n: int|
        0 <= n < patch.len() && in_header(patch, n) ==> #[trigger] digits_upto(patch, n + 1)
            <= HEADER_DIGITS
}

/// The text that a patch yields on `base`, for a patch that the library
/// applies at all: one whose hunk headers fit.
pub open spec fn applied_text(base: Seq<char>, patch: Seq<char>) -> Option<Seq<char>> {
    if headers_fit(patch) {
        patched_text(base, patch)
    } else {
        None
    }
}

/// Whether the numbers in the hunk headers of a patch are small enough to
/// be added up.
pub fn check_headers(patch: &str) -> (fit: bool)
    ensures
        fit == headers_fit(patch@),
{
    let chars = chars_of(patch);
    let mut start: usize = 0;
    let mut run: usize = 0;
    let mut n: usize = 0;
    while n < chars.len()
        invariant
            n <= chars.len(),
            chars@ == patch@,
            start == line_start(patch@, n as int),
            start <= n,
            run == digits_upto(patch@, n as int),
            run <= n,
            forall|m: int|
                0 <= m < n && in_header(patch@, m) ==> #[trigger] digits_upto(patch@, m + 1)
                    <= HEADER_DIGITS,
        decreases chars.len() - n,
    {
        let c = chars[n];
        run = if '0' <= c && c <= '9' {
            run + 1
        } else {
            0
        };
        assert(run == digits_upto(patch@, n + 1));
        if chars[start] == '@' && run > HEADER_DIGITS {
            assert(in_header(patch@, n as int));
            return false;
        }
        if c == '\n' {
            start = n + 1;
        }
        n += 1;
    }
    true
}

/// Calls `diffy::Patch::from_str` on `patch` and `diffy::apply` with the result
/// on `base`. Trusted: the outcome depends on the two arguments alone; a patch
/// that does not parse and a hunk that does not apply both give `None`. The
/// parser adds up start and length of a hunk's ranges, which it reads from
/// the hunk's header: the call is made only for patches whose headers fit.
#[verifier::external_body]
fn apply_diff(base: &str, patch: &str) -> (text: Option<String>)
    requires
        headers_fit(patch@),
    ensures
        match text {
            Some(t) => patched_text(base@, patch@) == Some(t@),
            None => patched_text(base@, patch@) is None,
        },
{
    match Patch::from_str(patch) {
        Ok(parsed) => apply(base, &parsed).ok(),
        Err(_) => None,
    }
}

/// Applies a patch to a text. A patch whose hunk headers do not fit is not
/// applied, like one that does not parse or does not match the text.
pub fn apply_patch(base: &str, patch: &str) -> (text: Option<String>)
    ensures
        match text {
            Some(t) => applied_text(base@, patch@) == Some(t@),
            None => applied_text(base@, patch@) is None,
        },
{
    if check_headers(patch) {
        apply_diff(base, patch)
    } else {
        None
    }
}

/// Calls `diffy::merge`. Trusted: the outcome depends on the three arguments
/// alone; `Ok` holds the merged text, `Err` the text with conflict markers.
#[verifier::external_body]
pub(crate) fn merge_texts(ancestor: &str, ours: &str, theirs: &str) -> (merged: Result<
    String,
    String,
>)
    ensures
        match merged {
            Ok(t) => merged_text(ancestor@, ours@, theirs@) == Ok::<Seq<char>, Seq<char>>(t@),
            Err(t) => merged_text(ancestor@, ours@, theirs@) == Err::<Seq<char>, Seq<char>>(t@),
        },
{
    merge(ancestor, ours, theirs)
}

} // verus!
