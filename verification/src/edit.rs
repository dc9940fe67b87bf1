use crate::address::{parse_url, url_normal_form};
use crate::common::{clone_edits, DbArticle, DbEdit};
use crate::diff::{apply_patch, create_diff, applied_text, unified_diff};
use crate::error::Error;
use crate::history::{consistent, latest_version, lemma_append_consistent};
use crate::newtypes::{ArticleId, EditId, PersonId, Timestamp};
use crate::store::{edit_pos, Store, StoreState};
use crate::text::{join, with_char};
use crate::version::{hex_lower, version_of, EditVersion};
use vstd::prelude::*;

verus! {

/// What is known of an edit before it is stored.
#[derive(Debug, PartialEq)]
pub struct DbEditForm {
    pub creator_id: PersonId,
    pub hash: EditVersion,
    pub ap_id: String,
    pub diff: String,
    pub summary: String,
    pub article_id: ArticleId,
    pub previous_version_id: EditVersion,
    pub published: Timestamp,
}

/// The text from which an edit's federation identifier is made: the
/// article's identifier, a slash, and the version in hexadecimal.
pub open spec fn edit_url_text(article_ap_id: Seq<char>, version: Seq<u8>) -> Seq<char> {
    article_ap_id.push('/') + hex_lower(version)
}

/// The version of the most recent edit in `edits`, or the sentinel.
pub fn latest_of(edits: &Vec<DbEdit>) -> (version: EditVersion)
    ensures
        version@ == latest_version(edits@),
{
    if edits.len() == 0 {
        EditVersion::default()
    } else {
        edits[edits.len() - 1].hash
    }
}

impl DbEditForm {
    /// The federation identifier of the edit of `article` with the given version.
    pub fn generate_ap_id(article: &DbArticle, version: &EditVersion) -> (ap_id: Result<
        String,
        Error,
    >)
        ensures
            match ap_id {
                Ok(id) => url_normal_form(edit_url_text(article.ap_id@, version@)) == Some(id@),
                Err(e) => e == Error::InvalidUrl && url_normal_form(
                    edit_url_text(article.ap_id@, version@),
                ) is None,
            },
    {
        let with_slash = with_char(article.ap_id.as_str(), '/');
        let hex = version.hash();
        let raw = join(with_slash.as_str(), hex.as_str());
        match parse_url(raw.as_str()) {
            Some(id) => Ok(id),
            None => Err(Error::InvalidUrl),
        }
    }

    /// The edit that turns the text of `original_article` into `updated_text`.
    pub fn new(
        original_article: &DbArticle,
        creator_id: PersonId,
        updated_text: &str,
        summary: String,
        previous_version_id: EditVersion,
        now: Timestamp,
    ) -> (form: Result<DbEditForm, Error>)
        ensures
            match form {
                Ok(f) => {
                    &&& f.diff@ == unified_diff(original_article.text@, updated_text@)
                    &&& f.hash@ == version_of(f.diff@)
                    &&& url_normal_form(edit_url_text(original_article.ap_id@, f.hash@)) == Some(
                        f.ap_id@,
                    )
                    &&& f.creator_id == creator_id
                    &&& f.article_id == original_article.id
                    &&& f.previous_version_id == previous_version_id
                    &&& f.summary == summary
                    &&& f.published == now
                },
                Err(e) => e == Error::InvalidUrl && url_normal_form(
                    edit_url_text(
                        original_article.ap_id@,
                        version_of(unified_diff(original_article.text@, updated_text@)),
                    ),
                ) is None,
            },
    {
        let diff = create_diff(original_article.text.as_str(), updated_text);
        let version = EditVersion::new(diff.as_str());
        match DbEditForm::generate_ap_id(original_article, &version) {
            Err(e) => Err(e),
            Ok(ap_id) => Ok(
                DbEditForm {
                    hash: version,
                    ap_id,
                    diff,
                    creator_id,
                    article_id: original_article.id,
                    previous_version_id,
                    summary,
                    published: now,
                },
            ),
        }
    }
}

/// Why an edit with the given diff and parent cannot be appended, if it cannot.
pub open spec fn append_refusal(
    s: StoreState,
    article_id: ArticleId,
    diff: Seq<char>,
    previous: Seq<u8>,
) -> Option<Error> {
    match s.article_pos(article_id) {
        None => Some(Error::ArticleNotFound),
        Some(i) => if latest_version(s.histories[i]) != previous {
            Some(Error::StaleVersion)
        } else if applied_text(s.articles[i].text@, diff) is None {
            Some(Error::PatchFailed)
        } else if url_normal_form(edit_url_text(s.articles[i].ap_id@, version_of(diff))) is None {
            Some(Error::InvalidUrl)
        } else if s.next_edit >= i32::MAX {
            Some(Error::IdsExhausted)
        } else {
            None
        },
    }
}

/// `after` is `before` but for its text, which is `text`.
pub open spec fn retexted(before: DbArticle, after: DbArticle, text: Seq<char>) -> bool {
    &&& after.text@ == text
    &&& after == DbArticle { text: after.text, ..before }
}

/// `after` is `before` with `edit` appended to the history of the article at
/// position `i`, and with that article's text turned into what the edit's diff
/// makes of it.
pub open spec fn appended(before: StoreState, after: StoreState, i: int, edit: DbEdit) -> bool {
    &&& 0 <= i < before.articles.len()
    &&& applied_text(before.articles[i].text@, edit.diff@) is Some
    &&& retexted(
        before.articles[i],
        after.articles[i],
        applied_text(before.articles[i].text@, edit.diff@)->0,
    )
    &&& after == before.with_edit(i, edit).with_article(i, after.articles[i])
}

impl Store {
    /// Appends an edit to an article's chain: the edit's version is the hash of
    /// `diff`, the article's text becomes what `diff` makes of it, and the
    /// edit's version becomes the article's latest. The edit must name the
    /// article's latest version as its parent, and its diff must apply to the
    /// article's text; otherwise nothing changes.
    pub fn append_edit(
        &mut self,
        article_id: ArticleId,
        diff: String,
        summary: String,
        creator_id: PersonId,
        previous_version: EditVersion,
        now: Timestamp,
    ) -> (appended_edit: Result<(DbEdit, DbArticle), Error>)
        requires
            old(self).wf(),
        ensures
            final(self).wf(),
            match appended_edit {
                Ok((edit, article)) => {
                    let before = old(self).state();
                    let i = before.article_pos(article_id)->0;
                    &&& append_refusal(before, article_id, diff@, previous_version@) is None
                    &&& edit.id.0 == before.next_edit
                    &&& edit.creator_id == creator_id
                    &&& edit.hash@ == version_of(diff@)
                    &&& url_normal_form(edit_url_text(before.articles[i].ap_id@, edit.hash@))
                        == Some(edit.ap_id@)
                    &&& edit.diff == diff
                    &&& edit.summary == summary
                    &&& edit.article_id == article_id
                    &&& edit.previous_version_id == previous_version
                    &&& edit.published == now
                    &&& appended(before, final(self).state(), i, edit)
                    &&& article == final(self).state().articles[i]
                    &&& latest_version(final(self).state().histories[i]) == edit.hash@
                    &&& consistent(before.articles[i].text@, before.histories[i]) ==> consistent(
                        article.text@,
                        final(self).state().histories[i],
                    )
                    &&& before.all_consistent() ==> final(self).state().all_consistent()
                },
                Err(e) => {
                    &&& append_refusal(old(self).state(), article_id, diff@, previous_version@)
                        == Some(e)
                    &&& final(self).state() == old(self).state()
                },
            },
    {
        let i = match self.find_article(article_id) {
            None => {
                return Err(Error::ArticleNotFound);
            },
            Some(i) => i,
        };
        let latest = latest_of(&self.rows[i].edits);
        if !(latest == previous_version) {
            return Err(Error::StaleVersion);
        }
        let next_text = match apply_patch(self.rows[i].article.text.as_str(), diff.as_str()) {
            None => {
                return Err(Error::PatchFailed);
            },
            Some(text) => text,
        };
        let hash = EditVersion::new(diff.as_str());
        let ap_id = match DbEditForm::generate_ap_id(&self.rows[i].article, &hash) {
            Err(e) => {
                return Err(e);
            },
            Ok(id) => id,
        };
        if self.next_edit >= i32::MAX {
            return Err(Error::IdsExhausted);
        }
        let edit = DbEdit {
            id: EditId(self.next_edit),
            creator_id,
            hash,
            ap_id,
            diff,
            summary,
            article_id,
            previous_version_id: previous_version,
            published: now,
        };
        let stored = edit.clone();
        self.rows[i].edits.push(edit);
        self.rows[i].article.text = next_text;
        self.next_edit = self.next_edit + 1;
        let article = self.rows[i].article.clone();
        proof {
            let before = old(self).state();
            let after = self.state();
            let mid = before.with_edit(i as int, stored);
            assert(after.articles =~= before.articles.update(i as int, article));
            assert(after.histories =~= before.histories.update(
                i as int,
                before.histories[i as int].push(stored),
            ));
            assert(after == mid.with_article(i as int, article));
            before.lemma_with_edit(i as int, stored);
            mid.lemma_with_article(i as int, article);
            if consistent(before.articles[i as int].text@, before.histories[i as int]) {
                lemma_append_consistent(
                    before.articles[i as int].text@,
                    before.histories[i as int],
                    stored,
                    article.text@,
                );
            }
            if before.all_consistent() {
                before.lemma_counters();
                assert forall|j: int| 0 <= j < after.articles.len() implies consistent(
                    (#[trigger] after.articles[j]).text@,
                    after.histories[j],
                ) by {
                    assert(consistent(before.articles[j].text@, before.histories[j]));
                }
            }
        }
        Ok((stored, article))
    }
}

impl DbEditForm {
    /// `edit` holds what the form says.
    pub open spec fn describes(self, edit: DbEdit) -> bool {
        edit == DbEdit {
            id: edit.id,
            creator_id: self.creator_id,
            hash: self.hash,
            ap_id: self.ap_id,
            diff: self.diff,
            summary: self.summary,
            article_id: self.article_id,
            previous_version_id: self.previous_version_id,
            published: self.published,
        }
    }
}

/// Position of the edit with the given federation identifier in a history.
fn find_edit(edits: &Vec<DbEdit>, ap_id: &str) -> (pos: Option<usize>)
    ensures
        match pos {
            Some(k) => k < edits.len() && edit_pos(edits@, ap_id@) == Some(k as int),
            None => edit_pos(edits@, ap_id@) is None,
        },
{
    let wanted = String::from_str(ap_id);
    let mut k: usize = 0;
    while k < edits.len()
        invariant
            k <= edits.len(),
            wanted@ == ap_id@,
            forall|j: int| 0 <= j < k ==> (#[trigger] edits@[j]).ap_id@ != ap_id@,
        decreases edits.len() - k,
    {
        if edits[k].ap_id == wanted {
            proof {
                let c = choose|c: int|
                    0 <= c < edits@.len() && edits@[c].ap_id@ == ap_id@ && forall|j: int|
                        0 <= j < c ==> (#[trigger] edits@[j]).ap_id@ != ap_id@;
                assert(edits@[k as int].ap_id@ == ap_id@);
                if c < k {
                    assert(edits@[c].ap_id@ != ap_id@);
                } else if k < c {
                    assert(edits@[k as int].ap_id@ != ap_id@);
                }
            }
            return Some(k);
        }
        k += 1;
    }
    None
}

impl DbEdit {
    /// Stores an edit that was received from another instance as it is: at
    /// the end of its article's history, or where the history holds an edit
    /// with the same federation identifier already, in the place of that
    /// one and under its identity. The article's text stays as it is.
    pub fn create(form: DbEditForm, store: &mut Store) -> (stored: Result<DbEdit, Error>)
        requires
            old(store).wf(),
        ensures
            final(store).wf(),
            match stored {
                Ok(edit) => {
                    let before = old(store).state();
                    let i = before.article_pos(form.article_id)->0;
                    &&& before.article_pos(form.article_id) is Some
                    &&& form.describes(edit)
                    &&& match edit_pos(before.histories[i], form.ap_id@) {
                        Some(k) => edit.id == before.histories[i][k].id,
                        None => before.next_edit < i32::MAX && edit.id.0 == before.next_edit,
                    }
                    &&& final(store).state() == before.with_upserted_edit(i, edit)
                },
                Err(e) => {
                    let before = old(store).state();
                    &&& final(store).state() == before
                    &&& match before.article_pos(form.article_id) {
                        None => e == Error::ArticleNotFound,
                        Some(i) => e == Error::IdsExhausted && edit_pos(
                            before.histories[i],
                            form.ap_id@,
                        ) is None && before.next_edit >= i32::MAX,
                    }
                },
            },
    {
        let i = match store.find_article(form.article_id) {
            None => {
                return Err(Error::ArticleNotFound);
            },
            Some(i) => i,
        };
        match find_edit(&store.rows[i].edits, form.ap_id.as_str()) {
            Some(k) => {
                let edit = DbEdit {
                    id: store.rows[i].edits[k].id,
                    creator_id: form.creator_id,
                    hash: form.hash,
                    ap_id: form.ap_id,
                    diff: form.diff,
                    summary: form.summary,
                    article_id: form.article_id,
                    previous_version_id: form.previous_version_id,
                    published: form.published,
                };
                let copy = edit.clone();
                store.rows[i].edits[k] = edit;
                proof {
                    let before = old(store).state();
                    assert(store.state().articles =~= before.articles);
                    assert(store.state().histories =~= before.histories.update(
                        i as int,
                        before.histories[i as int].update(k as int, copy),
                    ));
                    before.lemma_with_replaced_edit(i as int, k as int, copy);
                }
                Ok(copy)
            },
            None => {
                if store.next_edit >= i32::MAX {
                    return Err(Error::IdsExhausted);
                }
                let edit = DbEdit {
                    id: EditId(store.next_edit),
                    creator_id: form.creator_id,
                    hash: form.hash,
                    ap_id: form.ap_id,
                    diff: form.diff,
                    summary: form.summary,
                    article_id: form.article_id,
                    previous_version_id: form.previous_version_id,
                    published: form.published,
                };
                let copy = edit.clone();
                store.rows[i].edits.push(edit);
                store.next_edit = store.next_edit + 1;
                proof {
                    let before = old(store).state();
                    assert(store.state().articles =~= before.articles);
                    assert(store.state().histories =~= before.histories.update(
                        i as int,
                        before.histories[i as int].push(copy),
                    ));
                    before.lemma_with_edit(i as int, copy);
                }
                Ok(copy)
            },
        }
    }

    /// The edits of an article, oldest first; none where there is no such article.
    pub fn list_for_article(id: ArticleId, store: &Store) -> (edits: Vec<DbEdit>)
        requires
            store.wf(),
        ensures
            edits@ == store.state().history_of(id),
    {
        match store.find_article(id) {
            Some(i) => clone_edits(&store.rows[i].edits),
            None => Vec::new(),
        }
    }
}

} // verus!
