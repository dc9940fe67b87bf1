use crate::text::{find_text, first_occurrence, join, occurs_at, part_of, starts_with_text};
use vstd::prelude::*;

verus! {

/// A link to an article, written `[[Title@domain]]` in an article's text.
#[derive(Debug, PartialEq)]
pub struct ArticleLink {
    pub title: String,
    pub domain: String,
}

/// A link as it stands in a text: its title, its domain, and the number of
/// characters that it takes.
pub struct LinkText {
    pub title: Seq<char>,
    pub domain: Seq<char>,
    pub length: int,
}

/// The link that stands at the start of a text, if one does.
pub open spec fn link_at_start(input: Seq<char>) -> Option<LinkText> {
    if !occurs_at(input, "[["@, 0) {
        None
    } else {
        match first_occurrence(input, "]]"@) {
            None => None,
            Some(end) => {
                let content = input.subrange(2, end);
                match first_occurrence(content, "@"@) {
                    None => None,
                    Some(at) => Some(
                        LinkText {
                            title: content.subrange(0, at),
                            domain: content.subrange(at + 1, content.len() as int),
                            length: end + 2,
                        },
                    ),
                }
            },
        }
    }
}

/// Where an article link leads: to the local article of that title where the
/// link names the domain of this instance, else to the article on the
/// instance that it names.
pub open spec fn link_target(title: Seq<char>, domain: Seq<char>, local_domain: Seq<char>) -> Seq<
    char,
> {
    if domain == local_domain {
        "/article/"@ + title
    } else {
        "/article/"@ + title + "@"@ + domain
    }
}

impl ArticleLink {
    /// Where the link leads, seen from the instance with the given domain.
    pub fn href(&self, local_domain: &str) -> (target: String)
        ensures
            target@ == link_target(self.title@, self.domain@, local_domain@),
    {
        let to_title = join("/article/", self.title.as_str());
        let here = String::from_str(local_domain);
        if self.domain == here {
            to_title
        } else {
            join(join(to_title.as_str(), "@").as_str(), self.domain.as_str())
        }
    }
}

/// Where a text starts with `[[`, a `]]` stands at its third character at the
/// earliest.
proof fn lemma_closing_after_opening(input: Seq<char>, end: int)
    requires
        occurs_at(input, "[["@, 0),
        occurs_at(input, "]]"@, end),
    ensures
        end >= 2,
{
    reveal_strlit("[[");
    reveal_strlit("]]");
    assert(input.subrange(0, 2)[0] == '[');
    assert(input.subrange(0, 2)[1] == '[');
    assert(input.subrange(end, end + 2)[0] == ']');
    assert(input.subrange(end, end + 2)[1] == ']');
}

/// Splits what stands between the brackets of a link at its first `@`.
fn split_link(content: &str) -> (parts: Option<(String, String)>)
    ensures
        match parts {
            Some((title, domain)) => {
                let at = first_occurrence(content@, "@"@);
                &&& at is Some
                &&& title@ == content@.subrange(0, at->0)
                &&& domain@ == content@.subrange(at->0 + 1, content@.len() as int)
            },
            None => first_occurrence(content@, "@"@) is None,
        },
{
    proof {
        reveal_strlit("@");
    }
    match find_text(content, "@") {
        None => None,
        Some(at) => {
            let length = content.unicode_len();
            let title = part_of(content, 0, at);
            let domain = part_of(content, at + 1, length);
            Some((title, domain))
        },
    }
}

/// Finds the article link at the start of `input`: `[[`, a title, `@`, a
/// domain, and `]]`. Returns the link and the number of characters that it
/// takes; `None` where no link stands there.
pub fn scan_article_link(input: &str) -> (found: Option<(ArticleLink, usize)>)
    ensures
        match found {
            Some((link, consumed)) => {
                &&& link_at_start(input@) is Some
                &&& link.title@ == link_at_start(input@)->0.title
                &&& link.domain@ == link_at_start(input@)->0.domain
                &&& consumed == link_at_start(input@)->0.length
            },
            None => link_at_start(input@) is None,
        },
{
    if !starts_with_text(input, "[[") {
        return None;
    }
    let end = match find_text(input, "]]") {
        None => {
            return None;
        },
        Some(end) => end,
    };
    proof {
        reveal_strlit("]]");
        lemma_closing_after_opening(input@, end as int);
    }
    let content = part_of(input, 2, end);
    match split_link(content.as_str()) {
        None => None,
        Some((title, domain)) => Some((ArticleLink { title, domain }, end + 2)),
    }
}

} // verus!
