use crate::common::DbEdit;
use crate::diff::{apply_patch, applied_text};
use crate::error::Error;
use crate::version::{sentinel_version, EditVersion};
use vstd::prelude::*;

verus! {

/// Position of the first edit at or after `from` whose parent is `parent`.
pub open spec fn first_child_from(edits: Seq<DbEdit>, parent: Seq<u8>, from: int) -> Option<int>
    decreases edits.len() - from,
{
    if from < 0 || from >= edits.len() {
        None
    } else if edits[from].previous_version_id@ == parent {
        Some(from)
    } else {
        first_child_from(edits, parent, from + 1)
    }
}

/// Position of the first edit, in insertion order, whose parent is `parent`.
pub open spec fn first_child(edits: Seq<DbEdit>, parent: Seq<u8>) -> Option<int> {
    first_child_from(edits, parent, 0)
}

/// Walks the chain from `current`, whose text is `text`, towards `target`,
/// taking at most `fuel` edits.
pub open spec fn walk(
    edits: Seq<DbEdit>,
    target: Seq<u8>,
    current: Seq<u8>,
    text: Seq<char>,
    fuel: nat,
) -> Result<Seq<char>, Error>
    decreases fuel,
{
    if current == target {
        Ok(text)
    } else if fuel == 0 {
        Err(Error::VersionNotFound)
    } else {
        match first_child(edits, current) {
            None => Err(Error::VersionNotFound),
            Some(i) => match applied_text(text, edits[i].diff@) {
                None => Err(Error::VersionNotFound),
                Some(next) => walk(edits, target, edits[i].hash@, next, (fuel - 1) as nat),
            },
        }
    }
}

/// The text of an article at `target`: the chain is walked from the sentinel,
/// each time with the first edit whose parent is the version reached so far,
/// until `target` is reached. No walk takes more edits than there are: one that
/// would has come back to a version it has seen, and can never reach `target`.
pub open spec fn reconstruct(edits: Seq<DbEdit>, target: Seq<u8>) -> Result<Seq<char>, Error> {
    walk(edits, target, sentinel_version(), Seq::<char>::empty(), edits.len())
}

/// The version after the first `k` edits.
pub open spec fn version_at(edits: Seq<DbEdit>, k: int) -> Seq<u8> {
    if k <= 0 {
        sentinel_version()
    } else {
        edits[k - 1].hash@
    }
}

/// The version of the most recent edit, or the sentinel without edits.
pub open spec fn latest_version(edits: Seq<DbEdit>) -> Seq<u8> {
    version_at(edits, edits.len() as int)
}

/// The text after the first `k` edits were applied in order to the empty text.
pub open spec fn text_at(edits: Seq<DbEdit>, k: int) -> Option<Seq<char>>
    decreases k,
{
    if k <= 0 {
        Some(Seq::<char>::empty())
    } else {
        match text_at(edits, k - 1) {
            None => None,
            Some(t) => applied_text(t, edits[k - 1].diff@),
        }
    }
}

/// Every edit names the version before it as its parent.
pub open spec fn linked(edits: Seq<DbEdit>) -> bool {
    forall|k: int|
        0 <= k < edits.len() ==> (#[trigger] edits[k]).previous_version_id@ == version_at(edits, k)
}

/// No version occurs twice along the chain, the sentinel included.
pub open spec fn versions_distinct(edits: Seq<DbEdit>) -> bool {
    forall|i: int, j: int|
        0 <= i < j <= edits.len() ==> #[trigger] version_at(edits, i) != #[trigger] version_at(
            edits,
            j,
        )
}

/// `text` is what the chain of `edits` replays to: the chain is linked, and its
/// diffs applied in order to the empty text give `text`.
pub open spec fn consistent(text: Seq<char>, edits: Seq<DbEdit>) -> bool {
    &&& linked(edits)
    &&& text_at(edits, edits.len() as int) == Some(text)
}

/// The result of a text computation, with the text as a sequence of characters.
pub open spec fn text_of(r: Result<String, Error>) -> Result<Seq<char>, Error> {
    match r {
        Ok(t) => Ok(t@),
        Err(e) => Err(e),
    }
}

/// Where the text after `k` edits exists, so does the text after fewer.
pub proof fn lemma_text_at_prefix(edits: Seq<DbEdit>, j: int, k: int)
    requires
        j <= k,
        text_at(edits, k) is Some,
    ensures
        text_at(edits, j) is Some,
    decreases k - j,
{
    if j < k {
        if k > 0 {
            lemma_text_at_prefix(edits, j, k - 1);
        }
    }
}

/// On a linked chain without repeated versions, the edit that follows the
/// version after `k` edits is the edit at position `k`.
pub proof fn lemma_first_child(edits: Seq<DbEdit>, k: int)
    requires
        linked(edits),
        versions_distinct(edits),
        0 <= k < edits.len(),
    ensures
        first_child(edits, version_at(edits, k)) == Some(k),
{
    lemma_first_child_from(edits, k, 0);
}

proof fn lemma_first_child_from(edits: Seq<DbEdit>, k: int, from: int)
    requires
        linked(edits),
        versions_distinct(edits),
        0 <= from <= k < edits.len(),
    ensures
        first_child_from(edits, version_at(edits, k), from) == Some(k),
    decreases k - from,
{
    if from < k {
        assert(edits[from].previous_version_id@ == version_at(edits, from));
        assert(version_at(edits, from) != version_at(edits, k));
        lemma_first_child_from(edits, k, from + 1);
    } else {
        assert(edits[k].previous_version_id@ == version_at(edits, k));
    }
}

/// On a linked chain without repeated versions, a walk that stands after `j`
/// edits with their text reaches the version after `k` edits with its text,
/// given fuel for the edits between.
pub proof fn lemma_walk_reaches(edits: Seq<DbEdit>, j: int, k: int, fuel: nat)
    requires
        linked(edits),
        versions_distinct(edits),
        0 <= j <= k <= edits.len(),
        text_at(edits, k) is Some,
        fuel >= k - j,
    ensures
        text_at(edits, j) is Some,
        walk(edits, version_at(edits, k), version_at(edits, j), text_at(edits, j)->0, fuel) == Ok::<
            Seq<char>,
            Error,
        >(text_at(edits, k)->0),
    decreases k - j,
{
    lemma_text_at_prefix(edits, j, k);
    if j < k {
        assert(version_at(edits, j) != version_at(edits, k));
        lemma_first_child(edits, j);
        lemma_text_at_prefix(edits, j + 1, k);
        assert(text_at(edits, j + 1) == applied_text(text_at(edits, j)->0, edits[j].diff@));
        assert(version_at(edits, j + 1) == edits[j].hash@);
        lemma_walk_reaches(edits, j + 1, k, (fuel - 1) as nat);
    }
}

/// Reconstruction round trip, for every version along the chain: on a linked
/// chain that replays and on which no version occurs twice, reconstructing the
/// version after `k` edits gives the text after `k` edits.
pub proof fn lemma_reconstruct_version_at(edits: Seq<DbEdit>, k: int)
    requires
        linked(edits),
        versions_distinct(edits),
        0 <= k <= edits.len(),
        text_at(edits, k) is Some,
    ensures
        reconstruct(edits, version_at(edits, k)) == Ok::<Seq<char>, Error>(text_at(edits, k)->0),
{
    lemma_walk_reaches(edits, 0, k, edits.len());
}

/// Reconstruction round trip: where an article's text is what its chain replays
/// to, and no version occurs twice along the chain, reconstructing the latest
/// version gives the article's text.
pub proof fn lemma_reconstruct_latest(text: Seq<char>, edits: Seq<DbEdit>)
    requires
        consistent(text, edits),
        versions_distinct(edits),
    ensures
        reconstruct(edits, latest_version(edits)) == Ok::<Seq<char>, Error>(text),
{
    lemma_reconstruct_version_at(edits, edits.len() as int);
}

/// What the first `k` edits replay to does not depend on later edits.
pub proof fn lemma_text_at_push(edits: Seq<DbEdit>, edit: DbEdit, k: int)
    requires
        k <= edits.len(),
    ensures
        text_at(edits.push(edit), k) == text_at(edits, k),
    decreases k,
{
    if k > 0 {
        lemma_text_at_push(edits, edit, k - 1);
        assert(edits.push(edit)[k - 1] == edits[k - 1]);
    }
}

/// Appending keeps an article consistent: where `text` is what `edits` replay
/// to, `edit` names the latest version as its parent, and its diff turns `text`
/// into `next`, there `next` is what the longer chain replays to.
pub proof fn lemma_append_consistent(
    text: Seq<char>,
    edits: Seq<DbEdit>,
    edit: DbEdit,
    next: Seq<char>,
)
    requires
        consistent(text, edits),
        edit.previous_version_id@ == latest_version(edits),
        applied_text(text, edit.diff@) == Some(next),
    ensures
        consistent(next, edits.push(edit)),
        latest_version(edits.push(edit)) == edit.hash@,
{
    let longer = edits.push(edit);
    let n = edits.len() as int;
    lemma_text_at_push(edits, edit, n);
    assert(longer[n] == edit);
    assert forall|k: int| 0 <= k < longer.len() implies (
    #[trigger] longer[k]).previous_version_id@ == version_at(longer, k) by {
        if k < n {
            assert(longer[k] == edits[k]);
            assert(edits[k].previous_version_id@ == version_at(edits, k));
            if k > 0 {
                assert(longer[k - 1] == edits[k - 1]);
            }
        } else {
            if n > 0 {
                assert(longer[n - 1] == edits[n - 1]);
            }
        }
    }
}

/// Appending leaves the earlier versions as they were: where the longer chain
/// is linked and no version occurs twice along it, the text at each version
/// that the chain had before is the text that it was before, which is what the
/// edits up to that version replay to.
pub proof fn lemma_append_keeps_versions(edits: Seq<DbEdit>, edit: DbEdit, k: int)
    requires
        linked(edits.push(edit)),
        versions_distinct(edits.push(edit)),
        0 <= k <= edits.len(),
        text_at(edits, k) is Some,
    ensures
        linked(edits),
        versions_distinct(edits),
        reconstruct(edits, version_at(edits, k)) == Ok::<Seq<char>, Error>(text_at(edits, k)->0),
        reconstruct(edits.push(edit), version_at(edits, k)) == reconstruct(
            edits,
            version_at(edits, k),
        ),
{
    let longer = edits.push(edit);
    assert forall|j: int| 0 <= j <= edits.len() implies version_at(longer, j) == version_at(
        edits,
        j,
    ) by {
        if j > 0 {
            assert(longer[j - 1] == edits[j - 1]);
        }
    }
    assert forall|j: int| 0 <= j < edits.len() implies (
    #[trigger] edits[j]).previous_version_id@ == version_at(edits, j) by {
        assert(longer[j] == edits[j]);
        assert(longer[j].previous_version_id@ == version_at(longer, j));
    }
    assert forall|i: int, j: int| 0 <= i < j <= edits.len() implies #[trigger] version_at(
        edits,
        i,
    ) != #[trigger] version_at(edits, j) by {
        assert(version_at(longer, i) != version_at(longer, j));
    }
    lemma_text_at_push(edits, edit, k);
    lemma_reconstruct_version_at(edits, k);
    lemma_reconstruct_version_at(longer, k);
}

/// Two chains hold the same changes: they are equally long, and edits at the
/// same position have the same version, the same parent and the same diff.
pub open spec fn same_chain(a: Seq<DbEdit>, b: Seq<DbEdit>) -> bool {
    &&& a.len() == b.len()
    &&& forall|k: int|
        0 <= k < a.len() ==> {
            &&& (#[trigger] a[k]).hash@ == (#[trigger] b[k]).hash@
            &&& a[k].previous_version_id@ == b[k].previous_version_id@
            &&& a[k].diff@ == b[k].diff@
        }
}

/// Chains that hold the same changes replay to the same texts.
pub proof fn lemma_same_chain_text(a: Seq<DbEdit>, b: Seq<DbEdit>, k: int)
    requires
        same_chain(a, b),
        k <= a.len(),
    ensures
        text_at(a, k) == text_at(b, k),
    decreases k,
{
    if k > 0 {
        lemma_same_chain_text(a, b, k - 1);
        assert(a[k - 1].diff@ == b[k - 1].diff@);
    }
}

/// A copy of a chain is consistent with the text that the chain is
/// consistent with, and has the same latest version.
pub proof fn lemma_same_chain_consistent(text: Seq<char>, a: Seq<DbEdit>, b: Seq<DbEdit>)
    requires
        same_chain(a, b),
    ensures
        consistent(text, a) <==> consistent(text, b),
        latest_version(a) == latest_version(b),
{
    lemma_same_chain_text(a, b, a.len() as int);
    if a.len() > 0 {
        assert(a[a.len() - 1].hash@ == b[a.len() - 1].hash@);
    }
    if linked(a) {
        assert forall|k: int| 0 <= k < b.len() implies (
        #[trigger] b[k]).previous_version_id@ == version_at(b, k) by {
            assert(a[k].previous_version_id@ == version_at(a, k));
            if k > 0 {
                assert(a[k - 1].hash@ == b[k - 1].hash@);
            }
        }
    }
    if linked(b) {
        assert forall|k: int| 0 <= k < a.len() implies (
        #[trigger] a[k]).previous_version_id@ == version_at(a, k) by {
            assert(b[k].previous_version_id@ == version_at(b, k));
            if k > 0 {
                assert(a[k - 1].hash@ == b[k - 1].hash@);
            }
        }
    }
}

/// Position of the first edit whose parent is `parent`.
fn find_child(edits: &Vec<DbEdit>, parent: &EditVersion) -> (found: Option<usize>)
    ensures
        match found {
            Some(i) => first_child(edits@, parent@) == Some(i as int) && i < edits.len(),
            None => first_child(edits@, parent@) is None,
        },
{
    let mut i: usize = edits.len();
    let mut found: Option<usize> = None;
    while i > 0
        invariant
            i <= edits.len(),
            match found {
                Some(k) => first_child_from(edits@, parent@, i as int) == Some(k as int) && k
                    < edits.len(),
                None => first_child_from(edits@, parent@, i as int) is None,
            },
        decreases i,
    {
        i -= 1;
        if edits[i].previous_version_id == *parent {
            found = Some(i);
        }
    }
    found
}

/// Starting from the empty text at the sentinel version, follows the edit chain
/// until `version` is reached, and returns the text there.
pub fn generate_article_version(edits: &Vec<DbEdit>, version: &EditVersion) -> (text: Result<
    String,
    Error,
>)
    ensures
        text_of(text) == reconstruct(edits@, version@),
{
    let mut current = EditVersion::default();
    let mut generated = String::new();
    let mut fuel: usize = edits.len();
    loop
        invariant
            fuel <= edits.len(),
            reconstruct(edits@, version@) == walk(
                edits@,
                version@,
                current@,
                generated@,
                fuel as nat,
            ),
        decreases fuel,
    {
        if current == *version {
            return Ok(generated);
        }
        if fuel == 0 {
            return Err(Error::VersionNotFound);
        }
        match find_child(edits, &current) {
            None => {
                return Err(Error::VersionNotFound);
            },
            Some(i) => match apply_patch(generated.as_str(), edits[i].diff.as_str()) {
                None => {
                    return Err(Error::VersionNotFound);
                },
                Some(next) => {
                    generated = next;
                    current = edits[i].hash;
                    fuel -= 1;
                },
            },
        }
    }
}

} // verus!
