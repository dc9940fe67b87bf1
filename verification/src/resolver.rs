use crate::address::url_normal_form;
use crate::article::{can_edit_article, edit_forbidden};
use crate::common::{ApiConflict, DbArticle, DbEdit, EditArticleForm, LocalUserView};
use crate::config::IbisConfig;
use crate::conflict::{delete_refusal, DbConflict, DbConflictForm};
use crate::diff::{
    applied_text, apply_patch, create_diff, merge_texts, merged_text, unified_diff,
};
use crate::edit::{append_refusal, appended, edit_url_text, latest_of, DbEditForm};
use crate::error::Error;
use crate::history::{generate_article_version, latest_version, reconstruct};
use crate::newtypes::{ArticleId, EditId, InstanceId, PersonId, Timestamp};
use crate::store::{Store, StoreState};
use crate::text::{
    contains_text, ends_with, ends_with_char, join, occurs_in, optional_text, with_char,
};
use crate::version::{version_of, EditVersion};
use vstd::prelude::*;

verus! {

/// The line width to which submitted Markdown is wrapped.
pub const LINE_WIDTH: usize = 80;

/// What became of a submitted edit.
#[derive(Debug, PartialEq)]
pub enum EditOutcome {
    /// The edit was appended to the chain of a local article.
    Committed { edit: DbEdit, article: DbArticle },
    /// The article lives on another instance: the edit is not stored, and has
    /// to be proposed to the instance of origin.
    Proposed { edit: DbEdit, origin: InstanceId },
    /// The article has moved on since the version that the edit was made
    /// from: the edit was queued as a conflict.
    Conflict(DbConflict),
}

/// A text with a newline at its end: the text itself where it ends in one.
pub open spec fn with_final_newline(text: Seq<char>) -> Seq<char> {
    if ends_with(text, '\n') {
        text
    } else {
        text.push('\n')
    }
}

/// The start of a Markdown link to the instance with the given domain.
pub open spec fn local_link(domain: Seq<char>) -> Seq<char> {
    "](https://"@ + domain
}

/// The state without the conflict that a submission resolves.
pub open spec fn without_resolved(s: StoreState, form: EditArticleForm) -> StoreState {
    match form.resolve_conflict_id {
        Some(id) => s.without_conflict(s.conflict_pos(id)->0),
        None => s,
    }
}

/// Why a submission is refused before any diff is made, if it is: the checks
/// come in this order. `canonical` is what the Markdown formatter made of the
/// submitted text, if it made anything of it.
pub open spec fn submission_refusal(
    s: StoreState,
    person: PersonId,
    is_admin: bool,
    domain: Seq<char>,
    form: EditArticleForm,
    canonical: Option<Seq<char>>,
) -> Option<Error> {
    if form.resolve_conflict_id is Some && delete_refusal(s, form.resolve_conflict_id->0, person)
        is Some {
        delete_refusal(s, form.resolve_conflict_id->0, person)
    } else {
        match s.article_pos(form.article_id) {
            None => Some(Error::ArticleNotFound),
            Some(i) => if form.new_text@ == s.articles[i].text@ {
                Some(Error::NoChanges)
            } else if form.summary@.len() == 0 {
                Some(Error::EmptySummary)
            } else if edit_forbidden(s.articles[i], is_admin) {
                Some(Error::ArticleProtected)
            } else if occurs_in(with_final_newline(form.new_text@), local_link(domain)) {
                Some(Error::LocalLink)
            } else if canonical is None {
                Some(Error::FormatFailed)
            } else {
                None
            },
        }
    }
}

/// Why a submission fails, if it does. A diff is tried before it is kept:
/// one that does not lead to the canonical text is stored neither as an edit
/// nor as a conflict.
pub open spec fn submission_error(
    s: StoreState,
    person: PersonId,
    is_admin: bool,
    domain: Seq<char>,
    form: EditArticleForm,
    canonical: Option<Seq<char>>,
) -> Option<Error> {
    if submission_refusal(s, person, is_admin, domain, form, canonical) is Some {
        submission_refusal(s, person, is_admin, domain, form, canonical)
    } else {
        let i = s.article_pos(form.article_id)->0;
        let text = canonical->0;
        if form.previous_version_id@ == latest_version(s.histories[i]) {
            update_refusal(s, form.article_id, text, form.previous_version_id@)
        } else {
            match reconstruct(s.histories[i], form.previous_version_id@) {
                Err(e) => Some(e),
                Ok(ancestor) => if applied_text(ancestor, unified_diff(ancestor, text)) != Some(
                    text,
                ) {
                    Some(Error::PatchFailed)
                } else if s.next_conflict >= i32::MAX {
                    Some(Error::IdsExhausted)
                } else {
                    None
                },
            }
        }
    }
}

/// Why a new text cannot become the next version of an article, if it cannot.
/// For a local article the diff is tried before it is stored: where it does
/// not turn the article's text into `new_text`, nothing is committed.
pub open spec fn update_refusal(
    s: StoreState,
    article_id: ArticleId,
    new_text: Seq<char>,
    previous: Seq<u8>,
) -> Option<Error> {
    match s.article_pos(article_id) {
        None => Some(Error::ArticleNotFound),
        Some(i) => {
            let diff = unified_diff(s.articles[i].text@, new_text);
            if s.articles[i].local {
                if latest_version(s.histories[i]) != previous {
                    Some(Error::StaleVersion)
                } else if applied_text(s.articles[i].text@, diff) != Some(new_text) {
                    Some(Error::PatchFailed)
                } else {
                    append_refusal(s, article_id, diff, previous)
                }
            } else if url_normal_form(edit_url_text(s.articles[i].ap_id@, version_of(diff)))
                is None {
                Some(Error::InvalidUrl)
            } else {
                None
            }
        },
    }
}

/// What `submit_article_update` has done: the edit that leads from the
/// article's text to `new_text` was appended to a local article's chain,
/// and `new_text` is the article's text now, or
/// was made ready to be proposed to the origin of a remote article, which
/// leaves the store as it was. A conflict is never the outcome.
pub open spec fn updated(
    before: StoreState,
    after: StoreState,
    article_id: ArticleId,
    new_text: Seq<char>,
    summary: String,
    previous: Seq<u8>,
    creator: PersonId,
    now: Timestamp,
    outcome: EditOutcome,
) -> bool {
    let i = before.article_pos(article_id)->0;
    let article = before.articles[i];
    match outcome {
        EditOutcome::Committed { edit, article: updated } => {
            &&& article.local
            &&& previous == latest_version(before.histories[i])
            &&& edit.id.0 == before.next_edit
            &&& edit.creator_id == creator
            &&& edit.diff@ == unified_diff(article.text@, new_text)
            &&& edit.hash@ == version_of(edit.diff@)
            &&& url_normal_form(edit_url_text(article.ap_id@, edit.hash@)) == Some(edit.ap_id@)
            &&& edit.summary == summary
            &&& edit.article_id == article_id
            &&& edit.previous_version_id@ == previous
            &&& edit.published == now
            &&& appended(before, after, i, edit)
            &&& after.articles[i].text@ == new_text
            &&& updated == after.articles[i]
        },
        EditOutcome::Proposed { edit, origin } => {
            &&& !article.local
            &&& origin == article.instance_id
            &&& edit.id.0 == -1
            &&& edit.creator_id == creator
            &&& edit.diff@ == unified_diff(article.text@, new_text)
            &&& edit.hash@ == version_of(edit.diff@)
            &&& url_normal_form(edit_url_text(article.ap_id@, edit.hash@)) == Some(edit.ap_id@)
            &&& edit.summary == summary
            &&& edit.article_id == article_id
            &&& edit.previous_version_id@ == previous
            &&& edit.published == now
            &&& after == before
        },
        EditOutcome::Conflict(_) => false,
    }
}

/// What a successful submission has done, for each kind of outcome. A
/// conflict holds the diff from the text at the stated version to the
/// canonical text, a diff that was tried and leads to that text.
pub open spec fn submitted(
    before: StoreState,
    after: StoreState,
    person: PersonId,
    form: EditArticleForm,
    canonical: Option<Seq<char>>,
    now: Timestamp,
    outcome: EditOutcome,
) -> bool {
    let i = before.article_pos(form.article_id)->0;
    let text = canonical->0;
    let base = without_resolved(before, form);
    match outcome {
        EditOutcome::Conflict(conflict) => {
            &&& form.previous_version_id@ != latest_version(before.histories[i])
            &&& reconstruct(before.histories[i], form.previous_version_id@) is Ok
            &&& conflict.id.0 == before.next_conflict
            &&& conflict.diff@ == unified_diff(
                reconstruct(before.histories[i], form.previous_version_id@)->Ok_0,
                text,
            )
            &&& applied_text(
                reconstruct(before.histories[i], form.previous_version_id@)->Ok_0,
                conflict.diff@,
            ) == Some(text)
            &&& conflict.hash@ == version_of(conflict.diff@)
            &&& conflict.summary == form.summary
            &&& conflict.creator_id == person
            &&& conflict.article_id == form.article_id
            &&& conflict.previous_version_id == form.previous_version_id
            &&& conflict.published == now
            &&& after == base.with_new_conflict(conflict)
        },
        _ => {
            &&& form.previous_version_id@ == latest_version(before.histories[i])
            &&& updated(
                base,
                after,
                form.article_id,
                text,
                form.summary,
                form.previous_version_id@,
                person,
                now,
                outcome,
            )
        },
    }
}

/// Makes `new_text` the next version of an article. For a local article the
/// edit is appended to the chain, which requires that `previous_version` is
/// the article's latest version. For a remote article nothing is stored: the
/// edit is handed back, to be proposed to the instance of origin.
pub fn submit_article_update(
    new_text: &str,
    summary: String,
    previous_version: EditVersion,
    article_id: ArticleId,
    creator_id: PersonId,
    store: &mut Store,
    now: Timestamp,
) -> (outcome: Result<EditOutcome, Error>)
    requires
        old(store).wf(),
    ensures
        final(store).wf(),
        old(store).state().all_consistent() ==> final(store).state().all_consistent(),
        match outcome {
            Ok(done) => {
                &&& update_refusal(old(store).state(), article_id, new_text@, previous_version@)
                    is None
                &&& updated(
                    old(store).state(),
                    final(store).state(),
                    article_id,
                    new_text@,
                    summary,
                    previous_version@,
                    creator_id,
                    now,
                    done,
                )
            },
            Err(e) => {
                &&& update_refusal(old(store).state(), article_id, new_text@, previous_version@)
                    == Some(e)
                &&& final(store).state() == old(store).state()
            },
        },
{
    let i = match store.find_article(article_id) {
        None => {
            return Err(Error::ArticleNotFound);
        },
        Some(i) => i,
    };
    if store.rows[i].article.local {
        if previous_version != latest_of(&store.rows[i].edits) {
            return Err(Error::StaleVersion);
        }
        let diff = create_diff(store.rows[i].article.text.as_str(), new_text);
        match apply_patch(store.rows[i].article.text.as_str(), diff.as_str()) {
            None => {
                return Err(Error::PatchFailed);
            },
            Some(text) => {
                if text != String::from_str(new_text) {
                    return Err(Error::PatchFailed);
                }
            },
        }
        match store.append_edit(article_id, diff, summary, creator_id, previous_version, now) {
            Err(e) => Err(e),
            Ok((edit, article)) => Ok(EditOutcome::Committed { edit, article }),
        }
    } else {
        match DbEditForm::new(
            &store.rows[i].article,
            creator_id,
            new_text,
            summary,
            previous_version,
            now,
        ) {
            Err(e) => Err(e),
            Ok(form) => Ok(
                EditOutcome::Proposed {
                    edit: DbEdit {
                        id: EditId(-1),
                        creator_id: form.creator_id,
                        hash: form.hash,
                        ap_id: form.ap_id,
                        diff: form.diff,
                        summary: form.summary,
                        article_id: form.article_id,
                        previous_version_id: form.previous_version_id,
                        published: form.published,
                    },
                    origin: store.rows[i].article.instance_id,
                },
            ),
        }
    }
}

/// Why a text is not accepted as the text of an article, if it is not.
pub open spec fn text_refusal(
    text: Seq<char>,
    domain: Seq<char>,
    canonical: Option<Seq<char>>,
) -> Option<Error> {
    if occurs_in(with_final_newline(text), local_link(domain)) {
        Some(Error::LocalLink)
    } else if canonical is None {
        Some(Error::FormatFailed)
    } else {
        None
    }
}

/// The text that is handed to the Markdown formatter for a submitted text:
/// the text with a newline at its end. It is to be wrapped at `LINE_WIDTH`.
pub fn text_to_format(text: &str) -> (prepared: String)
    ensures
        prepared@ == with_final_newline(text@),
{
    if ends_with_char(text, '\n') {
        String::from_str(text)
    } else {
        with_char(text, '\n')
    }
}

/// The form in which a submitted text is diffed and stored: what the Markdown
/// formatter made of `text_to_format(text)`, handed in as `formatted`, with
/// `None` where the formatter failed. A text that links to the local instance
/// through the instance's own domain is refused, whatever the formatter made
/// of it.
pub fn canonical_form(text: &str, domain: &str, formatted: Option<String>) -> (canonical: Result<
    String,
    Error,
>)
    ensures
        match canonical {
            Ok(t) => text_refusal(text@, domain@, optional_text(formatted)) is None
                && optional_text(formatted) == Some(t@),
            Err(e) => text_refusal(text@, domain@, optional_text(formatted)) == Some(e),
        },
{
    let with_newline = text_to_format(text);
    let link = join("](https://", domain);
    if contains_text(with_newline.as_str(), link.as_str()) {
        return Err(Error::LocalLink);
    }
    match formatted {
        None => Err(Error::FormatFailed),
        Some(t) => Ok(t),
    }
}

/// Takes a user's new text for an article, together with what the Markdown
/// formatter made of it (see `canonical_form`). The submission is checked; the
/// conflict that it resolves, if it names one, is removed; and then either the
/// edit is committed (the stated previous version is the article's latest) or
/// it is queued as a conflict (the article has moved on). A failed submission
/// changes nothing.
pub fn submit_edit(
    user: &LocalUserView,
    store: &mut Store,
    config: &IbisConfig,
    edit_form: EditArticleForm,
    formatted: Option<String>,
    now: Timestamp,
) -> (outcome: Result<EditOutcome, Error>)
    requires
        old(store).wf(),
    ensures
        final(store).wf(),
        old(store).state().all_consistent() ==> final(store).state().all_consistent(),
        match outcome {
            Ok(done) => {
                &&& submission_error(
                    old(store).state(),
                    user.person.id,
                    user.local_user.admin,
                    config.federation.domain@,
                    edit_form,
                    optional_text(formatted),
                ) is None
                &&& submitted(
                    old(store).state(),
                    final(store).state(),
                    user.person.id,
                    edit_form,
                    optional_text(formatted),
                    now,
                    done,
                )
            },
            Err(e) => {
                &&& submission_error(
                    old(store).state(),
                    user.person.id,
                    user.local_user.admin,
                    config.federation.domain@,
                    edit_form,
                    optional_text(formatted),
                ) == Some(e)
                &&& final(store).state() == old(store).state()
            },
        },
{
    let ghost before = store.state();
    let resolved: Option<usize> = match edit_form.resolve_conflict_id {
        None => None,
        Some(id) => match store.find_conflict(id) {
            None => {
                return Err(Error::ConflictNotFound);
            },
            Some(k) => {
                if store.conflicts[k].creator_id != user.person.id {
                    return Err(Error::NotCreator);
                }
                Some(k)
            },
        },
    };
    let i = match store.find_article(edit_form.article_id) {
        None => {
            return Err(Error::ArticleNotFound);
        },
        Some(i) => i,
    };
    if edit_form.new_text == store.rows[i].article.text {
        return Err(Error::NoChanges);
    }
    if edit_form.summary.as_str().is_empty() {
        return Err(Error::EmptySummary);
    }
    match can_edit_article(&store.rows[i].article, user.local_user.admin) {
        Err(e) => {
            return Err(e);
        },
        Ok(_) => {},
    }
    let new_text = match canonical_form(
        edit_form.new_text.as_str(),
        config.federation.domain.as_str(),
        formatted,
    ) {
        Err(e) => {
            return Err(e);
        },
        Ok(text) => text,
    };
    assert(submission_refusal(
        before,
        user.person.id,
        user.local_user.admin,
        config.federation.domain@,
        edit_form,
        optional_text(formatted),
    ) is None);
    let latest = latest_of(&store.rows[i].edits);
    let done = if edit_form.previous_version_id == latest {
        match submit_article_update(
            new_text.as_str(),
            edit_form.summary,
            edit_form.previous_version_id,
            edit_form.article_id,
            user.person.id,
            store,
            now,
        ) {
            Err(e) => {
                return Err(e);
            },
            Ok(done) => done,
        }
    } else {
        let ancestor = match generate_article_version(
            &store.rows[i].edits,
            &edit_form.previous_version_id,
        ) {
            Err(e) => {
                return Err(e);
            },
            Ok(text) => text,
        };
        let diff = create_diff(ancestor.as_str(), new_text.as_str());
        match apply_patch(ancestor.as_str(), diff.as_str()) {
            None => {
                return Err(Error::PatchFailed);
            },
            Some(text) => {
                if text != new_text {
                    return Err(Error::PatchFailed);
                }
            },
        }
        let form = DbConflictForm {
            hash: EditVersion::new(diff.as_str()),
            diff,
            summary: edit_form.summary,
            creator_id: user.person.id,
            article_id: edit_form.article_id,
            previous_version_id: edit_form.previous_version_id,
            published: now,
        };
        match DbConflict::create(form, store) {
            Err(e) => {
                return Err(e);
            },
            Ok(conflict) => EditOutcome::Conflict(conflict),
        }
    };
    let ghost mid = store.state();
    match resolved {
        None => {},
        Some(k) => {
            let _ = store.conflicts.remove(k);
            proof {
                mid.lemma_without_conflict(k as int);
                assert(store.state() == mid.without_conflict(k as int));
                assert(before.conflicts.push(mid.conflicts.last()).remove(k as int)
                    =~= before.conflicts.remove(k as int).push(mid.conflicts.last()));
            }
        },
    }
    Ok(done)
}

/// What became of an attempt to resolve a conflict.
#[derive(Debug, PartialEq)]
pub enum MergeOutcome {
    /// The conflicting edit merged cleanly with what the article has become:
    /// the merged text was submitted, and the conflict is gone.
    Merged(EditOutcome),
    /// The two sides changed the same lines: the conflict stays, and the user
    /// has to resolve it by hand.
    Unresolved(ApiConflict),
}

/// The three-way merge that resolves `conflict`: between the text that its
/// diff makes of the ancestor version and the article's current text.
/// Errors where the ancestor cannot be reconstructed, or the diff does not
/// apply to it.
pub open spec fn conflict_merge(s: StoreState, i: int, conflict: DbConflict) -> Result<
    Result<Seq<char>, Seq<char>>,
    Error,
> {
    match reconstruct(s.histories[i], conflict.previous_version_id@) {
        Err(e) => Err(e),
        Ok(ancestor) => match applied_text(ancestor, conflict.diff@) {
            None => Err(Error::PatchFailed),
            Some(ours) => Ok(merged_text(ancestor, ours, s.articles[i].text@)),
        },
    }
}

/// Why the attempt to resolve a conflict fails, if it does.
pub open spec fn resolution_refusal(s: StoreState, conflict: DbConflict) -> Option<Error> {
    if s.conflict_pos(conflict.id) is None {
        Some(Error::ConflictNotFound)
    } else {
        match s.article_pos(conflict.article_id) {
            None => Some(Error::ArticleNotFound),
            Some(i) => match conflict_merge(s, i, conflict) {
                Err(e) => Some(e),
                Ok(Err(_)) => None,
                Ok(Ok(merged)) => update_refusal(
                    s,
                    conflict.article_id,
                    merged,
                    latest_version(s.histories[i]),
                ),
            },
        }
    }
}

/// What a successful attempt to resolve a conflict has done. After a clean
/// merge, the merged text has been submitted on top of the article's latest
/// version in the conflict creator's name, and the conflict is removed. After
/// a merge with conflicts nothing has changed, and the user is handed the
/// text with conflict markers and the version to base the resolving edit on.
pub open spec fn resolved(
    before: StoreState,
    after: StoreState,
    conflict: DbConflict,
    now: Timestamp,
    outcome: MergeOutcome,
) -> bool {
    let i = before.article_pos(conflict.article_id)->0;
    let k = before.conflict_pos(conflict.id)->0;
    let merge = conflict_merge(before, i, conflict)->Ok_0;
    match outcome {
        MergeOutcome::Merged(done) => {
            &&& merge is Ok
            &&& updated(
                before.without_conflict(k),
                after,
                conflict.article_id,
                merge->Ok_0,
                conflict.summary,
                latest_version(before.histories[i]),
                conflict.creator_id,
                now,
                done,
            )
        },
        MergeOutcome::Unresolved(api) => {
            &&& merge is Err
            &&& after == before
            &&& api.id == conflict.id
            &&& api.hash == conflict.hash
            &&& api.three_way_merge@ == merge->Err_0
            &&& api.summary == conflict.summary
            &&& api.article == before.articles[i]
            &&& api.previous_version_id@ == latest_version(before.histories[i])
            &&& api.published == conflict.published
        },
    }
}

impl DbConflict {
    /// Tries to resolve the conflict against the article as the store holds
    /// it now. (For an article of another instance the caller refreshes the
    /// article from its origin first.) The conflicting edit is replayed on
    /// the version that it was made from, and merged with the article's
    /// current text.
    pub fn to_api_conflict(&self, store: &mut Store, now: Timestamp) -> (outcome: Result<
        MergeOutcome,
        Error,
    >)
        requires
            old(store).wf(),
        ensures
            final(store).wf(),
            old(store).state().all_consistent() ==> final(store).state().all_consistent(),
            match outcome {
                Ok(done) => {
                    &&& resolution_refusal(old(store).state(), *self) is None
                    &&& resolved(old(store).state(), final(store).state(), *self, now, done)
                },
                Err(e) => {
                    &&& resolution_refusal(old(store).state(), *self) == Some(e)
                    &&& final(store).state() == old(store).state()
                },
            },
    {
        let ghost before = store.state();
        let k = match store.find_conflict(self.id) {
            None => {
                return Err(Error::ConflictNotFound);
            },
            Some(k) => k,
        };
        let i = match store.find_article(self.article_id) {
            None => {
                return Err(Error::ArticleNotFound);
            },
            Some(i) => i,
        };
        let ancestor = match generate_article_version(
            &store.rows[i].edits,
            &self.previous_version_id,
        ) {
            Err(e) => {
                return Err(e);
            },
            Ok(text) => text,
        };
        let ours = match apply_patch(ancestor.as_str(), self.diff.as_str()) {
            None => {
                return Err(Error::PatchFailed);
            },
            Some(text) => text,
        };
        let latest = latest_of(&store.rows[i].edits);
        match merge_texts(ancestor.as_str(), ours.as_str(), store.rows[i].article.text.as_str()) {
            Ok(new_text) => {
                match submit_article_update(
                    new_text.as_str(),
                    self.summary.clone(),
                    latest,
                    self.article_id,
                    self.creator_id,
                    store,
                    now,
                ) {
                    Err(e) => Err(e),
                    Ok(done) => {
                        let ghost mid = store.state();
                        let _ = store.conflicts.remove(k);
                        proof {
                            mid.lemma_without_conflict(k as int);
                            assert(store.state() == mid.without_conflict(k as int));
                            assert(updated(
                                before.without_conflict(k as int),
                                store.state(),
                                self.article_id,
                                new_text@,
                                self.summary,
                                latest@,
                                self.creator_id,
                                now,
                                done,
                            ));
                        }
                        Ok(MergeOutcome::Merged(done))
                    },
                }
            },
            Err(three_way_merge) => Ok(
                MergeOutcome::Unresolved(
                    ApiConflict {
                        id: self.id,
                        hash: self.hash,
                        three_way_merge,
                        summary: self.summary.clone(),
                        article: store.rows[i].article.clone(),
                        previous_version_id: latest,
                        published: self.published,
                    },
                ),
            ),
        }
    }
}

} // verus!
