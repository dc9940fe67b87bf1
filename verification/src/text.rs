use vstd::prelude::*;
use vstd::std_specs::iter::IteratorSpec;
use vstd::string::*;

verus! {

/// Calls `String::push`.
/// Trusted: the character is appended to the end of the string.
#[verifier::external_body]
fn push_char(s: &mut String, c: char)
    ensures
        final(s)@ == old(s)@.push(c),
{
    s.push(c)
}

/// The characters of a string, in order.
pub fn chars_of(s: &str) -> (v: Vec<char>)
    ensures
        v@ == s@,
{
    broadcast use group_string_axioms;

    let mut v: Vec<char> = Vec::new();
    let mut it = s.chars();
    loop
        invariant
            v@ + it.remaining() == s@,
            it.decrease() is Some,
        ensures
            v@ == s@,
        decreases it.decrease()->0,
    {
        match it.next() {
            Some(c) => {
                v.push(c);
            },
            None => {
                assert(it.remaining() =~= Seq::<char>::empty());
                break;
            },
        }
    }
    v
}

/// The string made of the given characters, in order.
pub fn string_of(v: &Vec<char>) -> (s: String)
    ensures
        s@ == v@,
{
    let mut s = String::new();
    let mut i: usize = 0;
    while i < v.len()
        invariant
            i <= v.len(),
            s@ == v@.take(i as int),
        decreases v.len() - i,
    {
        push_char(&mut s, v[i]);
        i += 1;
    }
    s
}

/// `text` with every `from` replaced by `to`.
pub open spec fn replaced(text: Seq<char>, from: char, to: char) -> Seq<char> {
    Seq::new(
        text.len(),
        |i: int|
            if text[i] == from {
                to
            } else {
                text[i]
            },
    )
}

/// `needle` stands in `text` at position `at`.
pub open spec fn occurs_at(text: Seq<char>, needle: Seq<char>, at: int) -> bool {
    &&& 0 <= at
    &&& at + needle.len() <= text.len()
    &&& text.subrange(at, at + needle.len()) == needle
}

/// `needle` stands somewhere in `text`.
pub open spec fn occurs_in(text: Seq<char>, needle: Seq<char>) -> bool {
    exists|at: int| occurs_at(text, needle, at)
}

/// `text` ends with the character `c`.
pub open spec fn ends_with(text: Seq<char>, c: char) -> bool {
    text.len() > 0 && text.last() == c
}

/// Whether the character `c` occurs in `text`.
pub fn contains_char(text: &str, c: char) -> (found: bool)
    ensures
        found == text@.contains(c),
{
    let chars = chars_of(text);
    let mut i: usize = 0;
    while i < chars.len()
        invariant
            i <= chars.len(),
            chars@ == text@,
            forall|k: int| 0 <= k < i ==> chars@[k] != c,
        decreases chars.len() - i,
    {
        if chars[i] == c {
            return true;
        }
        i += 1;
    }
    false
}

/// `text` with every `from` replaced by `to`.
pub fn replace_char(text: &str, from: char, to: char) -> (out: String)
    ensures
        out@ == replaced(text@, from, to),
{
    let chars = chars_of(text);
    let mut out = String::new();
    let mut i: usize = 0;
    while i < chars.len()
        invariant
            i <= chars.len(),
            chars@ == text@,
            out@ == replaced(text@, from, to).take(i as int),
        decreases chars.len() - i,
    {
        let c = chars[i];
        push_char(&mut out, if c == from { to } else { c });
        i += 1;
    }
    out
}

/// Whether `text` ends with the character `c`.
pub fn ends_with_char(text: &str, c: char) -> (found: bool)
    ensures
        found == ends_with(text@, c),
{
    let chars = chars_of(text);
    chars.len() > 0 && chars[chars.len() - 1] == c
}

/// `text` followed by the character `c`.
pub fn with_char(text: &str, c: char) -> (out: String)
    ensures
        out@ == text@.push(c),
{
    let mut out = String::from_str(text);
    push_char(&mut out, c);
    out
}

/// `first` followed by `second`.
pub fn join(first: &str, second: &str) -> (out: String)
    ensures
        out@ == first@ + second@,
{
    let mut out = String::from_str(first);
    out.append(second);
    out
}

/// Whether `needle` stands in `text` at position `at`.
pub(crate) fn matches_at(text: &Vec<char>, needle: &Vec<char>, at: usize) -> (found: bool)
    requires
        at + needle.len() <= text.len(),
    ensures
        found == occurs_at(text@, needle@, at as int),
{
    let mut k: usize = 0;
    while k < needle.len()
        invariant
            k <= needle.len(),
            at + needle.len() <= text.len(),
            forall|j: int| 0 <= j < k ==> text@[at + j] == needle@[j],
        decreases needle.len() - k,
    {
        if text[at + k] != needle[k] {
            assert(text@.subrange(at as int, at + needle@.len())[k as int] != needle@[k as int]);
            return false;
        }
        k += 1;
    }
    assert(text@.subrange(at as int, at + needle@.len()) =~= needle@);
    true
}

/// Whether `needle` stands somewhere in `text`.
pub fn contains_text(text: &str, needle: &str) -> (found: bool)
    ensures
        found == occurs_in(text@, needle@),
{
    let chars = chars_of(text);
    let pattern = chars_of(needle);
    if pattern.len() > chars.len() {
        return false;
    }
    if pattern.len() == 0 {
        assert(occurs_at(text@, needle@, 0)) by {
            assert(text@.subrange(0, 0) =~= needle@);
        }
        return true;
    }
    let last: usize = chars.len() - pattern.len();
    let mut at: usize = 0;
    while at <= last
        invariant
            at <= last + 1,
            last == chars.len() - pattern.len(),
            0 < pattern.len() <= chars.len(),
            chars@ == text@,
            pattern@ == needle@,
            forall|k: int| 0 <= k < at ==> !occurs_at(text@, needle@, k),
        decreases last + 1 - at,
    {
        if matches_at(&chars, &pattern, at) {
            return true;
        }
        at += 1;
    }
    false
}

/// Whether `text` starts with `prefix`.
pub fn starts_with_text(text: &str, prefix: &str) -> (found: bool)
    ensures
        found == occurs_at(text@, prefix@, 0),
{
    let chars = chars_of(text);
    let pattern = chars_of(prefix);
    if pattern.len() > chars.len() {
        return false;
    }
    matches_at(&chars, &pattern, 0)
}

/// The first position at which `needle` stands in `text`.
#[verifier::opaque]
pub open spec fn first_occurrence(text: Seq<char>, needle: Seq<char>) -> Option<int> {
    if occurs_in(text, needle) {
        Some(
            choose|at: int|
                occurs_at(text, needle, at) && forall|k: int|
                    0 <= k < at ==> !occurs_at(text, needle, k),
        )
    } else {
        None
    }
}

/// The first position at which `needle` stands in `text`.
pub fn find_text(text: &str, needle: &str) -> (found: Option<usize>)
    ensures
        match found {
            Some(at) => {
                &&& first_occurrence(text@, needle@) == Some(at as int)
                &&& occurs_at(text@, needle@, at as int)
                &&& at + needle@.len() <= text@.len() <= usize::MAX
            },
            None => first_occurrence(text@, needle@) is None,
        },
{
    let chars = chars_of(text);
    let pattern = chars_of(needle);
    if pattern.len() > chars.len() {
        proof {
            reveal(first_occurrence);
        }
        return None;
    }
    let last: usize = chars.len() - pattern.len();
    let mut at: usize = 0;
    loop
        invariant
            at <= last,
            last == chars.len() - pattern.len(),
            pattern.len() <= chars.len(),
            chars@ == text@,
            pattern@ == needle@,
            forall|k: int| 0 <= k < at ==> !occurs_at(text@, needle@, k),
        decreases last - at,
    {
        if matches_at(&chars, &pattern, at) {
            proof {
                reveal(first_occurrence);
                let c = choose|c: int|
                    occurs_at(text@, needle@, c) && forall|k: int|
                        0 <= k < c ==> !occurs_at(text@, needle@, k);
                assert(occurs_at(text@, needle@, at as int));
                if c < at {
                    assert(!occurs_at(text@, needle@, c));
                } else if at < c {
                    assert(!occurs_at(text@, needle@, at as int));
                }
            }
            return Some(at);
        }
        if at == last {
            proof {
                reveal(first_occurrence);
            }
            return None;
        }
        at += 1;
    }
}

/// The part of a text from position `from` up to position `to`.
pub fn part_of(text: &str, from: usize, to: usize) -> (part: String)
    requires
        from <= to <= text@.len(),
    ensures
        part@ == text@.subrange(from as int, to as int),
{
    let chars = chars_of(text);
    let mut part = String::new();
    let mut i: usize = from;
    while i < to
        invariant
            from <= i <= to <= chars.len(),
            chars@ == text@,
            part@ == text@.subrange(from as int, i as int),
        decreases to - i,
    {
        push_char(&mut part, chars[i]);
        assert(text@.subrange(from as int, i + 1) =~= text@.subrange(from as int, i as int).push(
            text@[i as int],
        ));
        i += 1;
    }
    part
}

/// The characters of an optional text.
pub open spec fn optional_text(text: Option<String>) -> Option<Seq<char>> {
    match text {
        Some(t) => Some(t@),
        None => None,
    }
}

} // verus!
