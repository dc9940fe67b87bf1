use crate::common::{DbArticle, DbPerson};
use crate::config::{http_protocol_str, protocol};
use crate::error::Error;
use crate::store::{Store, StoreState};
use crate::text::{chars_of, join, matches_at, occurs_at, optional_text};
use vstd::prelude::*;

verus! {

/// A character without regard to case: the small letter for a capital
/// letter of the Latin alphabet, any other character itself.
pub open spec fn folded(c: char) -> char {
    if 'A' <= c && c <= 'Z' {
        ((c as u8) + 32) as u8 as char
    } else {
        c
    }
}

/// A text without regard to case.
pub open spec fn fold(text: Seq<char>) -> Seq<char> {
    Seq::new(text.len(), |i: int| folded(text[i]))
}

/// The pieces into which the spaces divide the first `n` characters of a
/// query. There is always at least one piece; two spaces in a row, and a
/// space at either end, give an empty piece.
pub open spec fn pieces_upto(query: Seq<char>, n: int) -> Seq<Seq<char>>
    decreases n,
{
    if n <= 0 {
        seq![Seq::empty()]
    } else {
        let rest = pieces_upto(query, n - 1);
        if query[n - 1] == ' ' {
            rest.push(Seq::empty())
        } else {
            rest.update(rest.len() - 1, rest.last().push(query[n - 1]))
        }
    }
}

/// The pieces into which the spaces divide a query.
pub open spec fn pieces(query: Seq<char>) -> Seq<Seq<char>> {
    pieces_upto(query, query.len() as int)
}

/// The first position from `from` on at which `needle` stands in `text`.
#[verifier::opaque]
pub open spec fn occurs_from(text: Seq<char>, needle: Seq<char>, from: int) -> Option<int> {
    if exists|at: int| from <= at && occurs_at(text, needle, at) {
        Some(
            choose|at: int|
                from <= at && occurs_at(text, needle, at) && forall|k: int|
                    from <= k < at ==> !occurs_at(text, needle, k),
        )
    } else {
        None
    }
}

/// Whether the pieces from the `k`-th on stand in `text` one behind the
/// other, without overlap, the first of them at or behind `from`.
pub open spec fn placed(text: Seq<char>, parts: Seq<Seq<char>>, k: int, from: int) -> bool
    decreases parts.len() - k,
{
    if k < 0 || k >= parts.len() {
        true
    } else {
        exists|at: int|
            from <= at && #[trigger] occurs_at(text, parts[k], at) && placed(
                text,
                parts,
                k + 1,
                at + parts[k].len(),
            )
    }
}

/// Whether the pieces from the `k`-th on are found when each is looked for
/// at its first place behind the one before.
pub open spec fn found_in_order(text: Seq<char>, parts: Seq<Seq<char>>, k: int, from: int) -> bool
    decreases parts.len() - k,
{
    if k < 0 || k >= parts.len() {
        true
    } else {
        match occurs_from(text, parts[k], from) {
            None => false,
            Some(at) => found_in_order(text, parts, k + 1, at + parts[k].len()),
        }
    }
}

/// Where `needle` stands in `text` at or behind `from` at all, it stands
/// there at a first place.
pub proof fn lemma_first_place(text: Seq<char>, needle: Seq<char>, from: int, at: int)
    requires
        from <= at,
        occurs_at(text, needle, at),
    ensures
        occurs_from(text, needle, from) is Some,
        from <= occurs_from(text, needle, from)->0 <= at,
        occurs_at(text, needle, occurs_from(text, needle, from)->0),
        forall|j: int|
            from <= j < occurs_from(text, needle, from)->0 ==> !occurs_at(text, needle, j),
    decreases at - from,
{
    reveal(occurs_from);
    if exists|j: int| from <= j < at && occurs_at(text, needle, j) {
        let j = choose|j: int| from <= j < at && occurs_at(text, needle, j);
        lemma_first_place(text, needle, from, j);
    } else {
        assert(from <= at && occurs_at(text, needle, at) && forall|k: int|
            from <= k < at ==> !occurs_at(text, needle, k));
        let c = choose|c: int|
            from <= c && occurs_at(text, needle, c) && forall|k: int|
                from <= k < c ==> !occurs_at(text, needle, k);
        if c < at {
            assert(!occurs_at(text, needle, c));
        } else if at < c {
            assert(!occurs_at(text, needle, at));
        }
    }
}

/// Pieces that can be placed behind `from` can be placed behind any earlier
/// position.
pub proof fn lemma_placed_earlier(
    text: Seq<char>,
    parts: Seq<Seq<char>>,
    k: int,
    from: int,
    earlier: int,
)
    requires
        earlier <= from,
        placed(text, parts, k, from),
    ensures
        placed(text, parts, k, earlier),
    decreases parts.len() - k,
{
    if 0 <= k < parts.len() {
        let at = choose|at: int|
            from <= at && #[trigger] occurs_at(text, parts[k], at) && placed(
                text,
                parts,
                k + 1,
                at + parts[k].len(),
            );
        assert(earlier <= at && occurs_at(text, parts[k], at));
    }
}

/// Where `needle` stands nowhere in `text` at or behind `from`, there is no
/// first place, and the other way round.
pub proof fn lemma_no_place(text: Seq<char>, needle: Seq<char>, from: int)
    ensures
        occurs_from(text, needle, from) is None <==> forall|at: int|
            from <= at ==> !#[trigger] occurs_at(text, needle, at),
{
    reveal(occurs_from);
}

/// Pieces that are found one after the other can be placed.
pub proof fn lemma_found_is_placed(text: Seq<char>, parts: Seq<Seq<char>>, k: int, from: int)
    requires
        found_in_order(text, parts, k, from),
    ensures
        placed(text, parts, k, from),
    decreases parts.len() - k,
{
    if 0 <= k < parts.len() {
        lemma_no_place(text, parts[k], from);
        let first = occurs_from(text, parts[k], from)->0;
        let some = choose|at: int| from <= at && occurs_at(text, parts[k], at);
        lemma_first_place(text, parts[k], from, some);
        lemma_found_is_placed(text, parts, k + 1, first + parts[k].len());
        assert(from <= first && occurs_at(text, parts[k], first) && placed(
            text,
            parts,
            k + 1,
            first + parts[k].len(),
        ));
    }
}

/// Pieces that can be placed are found one after the other.
pub proof fn lemma_placed_is_found(text: Seq<char>, parts: Seq<Seq<char>>, k: int, from: int)
    requires
        placed(text, parts, k, from),
    ensures
        found_in_order(text, parts, k, from),
    decreases parts.len() - k,
{
    if 0 <= k < parts.len() {
        let at = choose|at: int|
            from <= at && #[trigger] occurs_at(text, parts[k], at) && placed(
                text,
                parts,
                k + 1,
                at + parts[k].len(),
            );
        lemma_first_place(text, parts[k], from, at);
        let first = occurs_from(text, parts[k], from)->0;
        lemma_placed_earlier(text, parts, k + 1, at + parts[k].len(), first + parts[k].len());
        lemma_placed_is_found(text, parts, k + 1, first + parts[k].len());
    }
}

/// To look for each piece at its first place behind the one before finds
/// the pieces exactly where they can be placed at all.
pub proof fn lemma_found_iff_placed(text: Seq<char>, parts: Seq<Seq<char>>, k: int, from: int)
    ensures
        found_in_order(text, parts, k, from) == placed(text, parts, k, from),
{
    if found_in_order(text, parts, k, from) {
        lemma_found_is_placed(text, parts, k, from);
    }
    if placed(text, parts, k, from) {
        lemma_placed_is_found(text, parts, k, from);
    }
}

/// Whether a text answers a query: the words of the query stand in the
/// text in their order, whatever stands between them, and without regard
/// to case.
pub open spec fn answers(text: Seq<char>, query: Seq<char>) -> bool {
    placed(fold(text), pieces(fold(query)), 0, 0)
}

/// The articles among the first `n` whose title or text answers the query.
pub open spec fn hits_upto(s: StoreState, query: Seq<char>, n: int) -> Seq<DbArticle>
    decreases n,
{
    if n <= 0 {
        Seq::empty()
    } else if answers(s.articles[n - 1].title@, query) || answers(s.articles[n - 1].text@, query) {
        hits_upto(s, query, n - 1).push(s.articles[n - 1])
    } else {
        hits_upto(s, query, n - 1)
    }
}

fn fold_char(c: char) -> (f: char)
    ensures
        f == folded(c),
{
    if 'A' <= c && c <= 'Z' {
        ((c as u8) + 32) as char
    } else {
        c
    }
}

fn folded_chars(text: &str) -> (chars: Vec<char>)
    ensures
        chars@ == fold(text@),
{
    let plain = chars_of(text);
    let mut chars: Vec<char> = Vec::new();
    let mut i: usize = 0;
    while i < plain.len()
        invariant
            i <= plain.len(),
            plain@ == text@,
            chars@ == fold(text@).take(i as int),
        decreases plain.len() - i,
    {
        chars.push(fold_char(plain[i]));
        i += 1;
    }
    chars
}

fn split(query: &Vec<char>) -> (parts: Vec<Vec<char>>)
    ensures
        parts.len() == pieces(query@).len(),
        forall|k: int| 0 <= k < parts.len() ==> (#[trigger] parts@[k])@ == pieces(query@)[k],
{
    let mut parts: Vec<Vec<char>> = Vec::new();
    let mut current: Vec<char> = Vec::new();
    let mut n: usize = 0;
    while n < query.len()
        invariant
            n <= query.len(),
            parts.len() + 1 == pieces_upto(query@, n as int).len(),
            forall|k: int|
                0 <= k < parts.len() ==> (#[trigger] parts@[k])@ == pieces_upto(query@, n as int)[k],
            current@ == pieces_upto(query@, n as int).last(),
        decreases query.len() - n,
    {
        if query[n] == ' ' {
            parts.push(current);
            current = Vec::new();
        } else {
            current.push(query[n]);
        }
        n += 1;
    }
    parts.push(current);
    parts
}

fn find_from(text: &Vec<char>, needle: &Vec<char>, from: usize) -> (found: Option<usize>)
    ensures
        match found {
            Some(at) => occurs_from(text@, needle@, from as int) == Some(at as int) && from <= at
                && at + needle.len() <= text.len(),
            None => occurs_from(text@, needle@, from as int) is None,
        },
{
    if needle.len() > text.len() || from > text.len() - needle.len() {
        proof {
            reveal(occurs_from);
        }
        return None;
    }
    let last: usize = text.len() - needle.len();
    let mut at: usize = from;
    loop
        invariant
            from <= at <= last,
            last == text.len() - needle.len(),
            needle.len() <= text.len(),
            forall|k: int| from <= k < at ==> !occurs_at(text@, needle@, k),
        decreases last - at,
    {
        if matches_at(text, needle, at) {
            proof {
                reveal(occurs_from);
                let c = choose|c: int|
                    from <= c && occurs_at(text@, needle@, c) && forall|k: int|
                        from <= k < c ==> !occurs_at(text@, needle@, k);
                assert(occurs_at(text@, needle@, at as int));
                if c < at {
                    assert(!occurs_at(text@, needle@, c));
                } else if at < c {
                    assert(!occurs_at(text@, needle@, at as int));
                }
            }
            return Some(at);
        }
        if at == last {
            proof {
                reveal(occurs_from);
            }
            return None;
        }
        at += 1;
    }
}

/// Whether a text answers a query.
pub fn matches_query(text: &str, query: &str) -> (hit: bool)
    ensures
        hit == answers(text@, query@),
{
    let chars = folded_chars(text);
    let parts = split(&folded_chars(query));
    let ghost wanted = pieces(fold(query@));
    proof {
        lemma_found_iff_placed(fold(text@), wanted, 0, 0);
    }
    let mut from: usize = 0;
    let mut k: usize = 0;
    while k < parts.len()
        invariant
            k <= parts.len(),
            chars@ == fold(text@),
            parts.len() == wanted.len(),
            forall|j: int| 0 <= j < parts.len() ==> (#[trigger] parts@[j])@ == wanted[j],
            from <= chars.len(),
            answers(text@, query@) == found_in_order(chars@, wanted, k as int, from as int),
        decreases parts.len() - k,
    {
        match find_from(&chars, &parts[k], from) {
            None => {
                return false;
            },
            Some(at) => {
                from = at + parts[k].len();
            },
        }
        k += 1;
    }
    true
}

impl DbArticle {
    /// The articles whose title or text answers the query, in the order in
    /// which they were stored.
    pub fn search(query: &str, store: &Store) -> (hits: Vec<DbArticle>)
        requires
            store.wf(),
        ensures
            hits@ == hits_upto(store.state(), query@, store.state().articles.len() as int),
    {
        let mut hits: Vec<DbArticle> = Vec::new();
        let mut n: usize = 0;
        while n < store.rows.len()
            invariant
                n <= store.rows.len(),
                hits@ == hits_upto(store.state(), query@, n as int),
            decreases store.rows.len() - n,
        {
            let article = &store.rows[n].article;
            if matches_query(article.title.as_str(), query) || matches_query(
                article.text.as_str(),
                query,
            ) {
                hits.push(article.clone());
            }
            n += 1;
        }
        hits
    }
}

/// The start that the federation identifier of every person of a domain
/// has: scheme, domain and a slash.
pub open spec fn domain_prefix(secure: bool, domain: Seq<char>) -> Seq<char> {
    protocol(secure) + "://"@ + domain + "/"@
}

/// Whether the person at position `i` goes by `username`: without a domain
/// it must be a local person, with a domain a remote one whose federation
/// identifier starts, without regard to case, with that domain.
pub open spec fn named(
    s: StoreState,
    i: int,
    username: Seq<char>,
    domain: Option<Seq<char>>,
    secure: bool,
) -> bool {
    &&& s.persons[i].username@ == username
    &&& match domain {
        None => s.persons[i].local,
        Some(d) => !s.persons[i].local && occurs_at(
            fold(s.persons[i].ap_id@),
            fold(domain_prefix(secure, d)),
            0,
        ),
    }
}

/// Position of the first person that goes by `username`.
pub open spec fn named_pos(
    s: StoreState,
    username: Seq<char>,
    domain: Option<Seq<char>>,
    secure: bool,
) -> Option<int> {
    if exists|i: int| 0 <= i < s.persons.len() && named(s, i, username, domain, secure) {
        Some(
            choose|i: int|
                0 <= i < s.persons.len() && named(s, i, username, domain, secure) && forall|j: int|
                    0 <= j < i ==> !named(s, j, username, domain, secure),
        )
    } else {
        None
    }
}

impl DbPerson {
    /// The first person that goes by `username`: a local person where no
    /// domain is given, else a person of the remote instance with that domain.
    pub fn read_from_name(
        username: &str,
        domain: &Option<String>,
        secure: bool,
        store: &Store,
    ) -> (found: Result<DbPerson, Error>)
        requires
            store.wf(),
        ensures
            match found {
                Ok(person) => {
                    let pos = named_pos(
                        store.state(),
                        username@,
                        optional_text(*domain),
                        secure,
                    );
                    pos is Some && person == store.state().persons[pos->0]
                },
                Err(e) => e == Error::PersonNotFound && named_pos(
                    store.state(),
                    username@,
                    optional_text(*domain),
                    secure,
                ) is None,
            },
    {
        let ghost wanted = optional_text(*domain);
        let name = String::from_str(username);
        let prefix: Option<Vec<char>> = match domain {
            None => None,
            Some(d) => {
                let scheme = http_protocol_str(secure);
                let start = join(join(join(scheme, "://").as_str(), d.as_str()).as_str(), "/");
                Some(folded_chars(start.as_str()))
            },
        };
        let mut i: usize = 0;
        while i < store.persons.len()
            invariant
                i <= store.persons.len(),
                name@ == username@,
                wanted == optional_text(*domain),
                match prefix {
                    None => wanted is None,
                    Some(p) => wanted is Some && p@ == fold(domain_prefix(secure, wanted->0)),
                },
                forall|k: int| 0 <= k < i ==> !named(store.state(), k, username@, wanted, secure),
            decreases store.persons.len() - i,
        {
            let person = &store.persons[i];
            let mut hit = false;
            if person.username == name {
                match &prefix {
                    None => {
                        hit = person.local;
                    },
                    Some(p) => {
                        let id = folded_chars(person.ap_id.as_str());
                        if !person.local && p.len() <= id.len() {
                            hit = matches_at(&id, p, 0);
                        } else {
                            hit = false;
                        }
                    },
                }
            }
            assert(hit == named(store.state(), i as int, username@, wanted, secure));
            if hit {
                proof {
                    let s = store.state();
                    let c = choose|c: int|
                        0 <= c < s.persons.len() && named(s, c, username@, wanted, secure)
                            && forall|j: int|
                            0 <= j < c ==> !named(s, j, username@, wanted, secure);
                    assert(named(s, i as int, username@, wanted, secure));
                    if c < i {
                        assert(!named(s, c, username@, wanted, secure));
                    } else if i < c {
                        assert(!named(s, i as int, username@, wanted, secure));
                    }
                }
                return Ok(person.clone());
            }
            i += 1;
        }
        Err(Error::PersonNotFound)
    }
}

} // verus!
