use crate::activities::{texts, Follow};
use crate::address::url_normal_form;
use crate::api::{copy_of, edited, forked, EditReport};
use crate::article::edit_forbidden;
use crate::common::{DbEdit, EditArticleForm, ForkArticleForm, InstanceFollow, LocalUserView};
use crate::config::IbisConfig;
use crate::conflict::{delete_refusal, DbConflict};
use crate::edit::{appended, edit_url_text};
use crate::error::{Error, ErrorKind};
use crate::diff::{applied_text, merged_text, unified_diff};
use crate::history::{
    consistent, latest_version, lemma_append_consistent, lemma_append_keeps_versions,
    lemma_reconstruct_latest, lemma_same_chain_consistent, lemma_text_at_prefix, reconstruct,
    same_chain, version_at, versions_distinct,
};
use crate::inbox::{follow_received, follow_refusal, Received};
use crate::instance::{followers_of, lemma_followers_established};
use crate::newtypes::{ArticleId, InstanceId, PersonId, Timestamp};
use crate::resolver::{
    conflict_merge, local_link, resolution_refusal, resolved, submission_error,
    submission_refusal, submitted, updated, with_final_newline, without_resolved, EditOutcome,
    MergeOutcome,
};
use crate::store::StoreState;
use crate::text::occurs_in;
use crate::version::{sentinel_version, version_of};
use vstd::prelude::*;

verus! {

/// Hashing is a function of the diff text alone: equal diffs have equal
/// versions, and the sentinel is the version of the empty diff.
pub proof fn lemma_version_deterministic(first: Seq<char>, second: Seq<char>)
    requires
        first == second,
    ensures
        version_of(first) == version_of(second),
        sentinel_version() == version_of(Seq::<char>::empty()),
{
}

/// Reconstruction round trip for the articles of a store: in a store whose
/// articles are consistent, which every store is that was filled by this
/// instance's own creating, editing and forking, reconstructing an article's
/// latest version gives the article's text, where no version occurs twice
/// along the article's chain.
pub proof fn lemma_article_round_trip(s: StoreState, id: ArticleId)
    requires
        s.all_consistent(),
        s.article_pos(id) is Some,
        0 <= s.article_pos(id)->0 < s.articles.len(),
        versions_distinct(s.history_of(id)),
    ensures
        reconstruct(s.history_of(id), s.latest_version_of(id)) == Ok::<Seq<char>, Error>(
            s.articles[s.article_pos(id)->0].text@,
        ),
{
    let i = s.article_pos(id)->0;
    assert(consistent(s.articles[i].text@, s.histories[i]));
    lemma_reconstruct_latest(s.articles[i].text@, s.history_of(id));
}

/// Appending an edit to one article leaves every other article as it was,
/// its text and its history.
pub proof fn lemma_append_leaves_others(
    before: StoreState,
    after: StoreState,
    i: int,
    edit: DbEdit,
    j: int,
)
    requires
        before.histories.len() == before.articles.len(),
        appended(before, after, i, edit),
        0 <= j < before.articles.len(),
        j != i,
    ensures
        after.articles[j] == before.articles[j],
        after.histories[j] == before.histories[j],
{
}

/// Making a new text the next version of an article keeps every article
/// consistent that was: the edited one, which has one more edit, and all
/// others, which do not change.
pub proof fn lemma_update_keeps_consistency(
    before: StoreState,
    after: StoreState,
    article_id: ArticleId,
    new_text: Seq<char>,
    summary: String,
    previous: Seq<u8>,
    creator: PersonId,
    now: Timestamp,
    outcome: EditOutcome,
    j: int,
)
    requires
        before.histories.len() == before.articles.len(),
        before.article_pos(article_id) is Some,
        0 <= before.article_pos(article_id)->0 < before.articles.len(),
        updated(before, after, article_id, new_text, summary, previous, creator, now, outcome),
        0 <= j < before.articles.len(),
        consistent(before.articles[j].text@, before.histories[j]),
    ensures
        consistent(after.articles[j].text@, after.histories[j]),
{
    let i = before.article_pos(article_id)->0;
    match outcome {
        EditOutcome::Committed { edit, article } => {
            if j == i {
                lemma_append_consistent(
                    before.articles[i].text@,
                    before.histories[i],
                    edit,
                    after.articles[i].text@,
                );
            }
        },
        _ => {},
    }
}

/// A commit and the versions before it: after a new text became the next
/// version of a local article whose text was what its chain replays to, the
/// chain is longer by the one edit, the article holds the new text, and
/// replaying the chain up to its new latest version gives the new text.
/// Replaying it up to the version after any `k` of the earlier edits gives
/// the text that it gave before. (No version may occur twice along the new
/// chain: a replay follows the first edit that names a version as its parent.)
pub proof fn lemma_commit_keeps_history(
    before: StoreState,
    after: StoreState,
    article_id: ArticleId,
    new_text: Seq<char>,
    summary: String,
    previous: Seq<u8>,
    creator: PersonId,
    now: Timestamp,
    outcome: EditOutcome,
    k: int,
)
    requires
        before.histories.len() == before.articles.len(),
        before.article_pos(article_id) is Some,
        0 <= before.article_pos(article_id)->0 < before.articles.len(),
        updated(before, after, article_id, new_text, summary, previous, creator, now, outcome),
        outcome is Committed,
        consistent(
            before.articles[before.article_pos(article_id)->0].text@,
            before.histories[before.article_pos(article_id)->0],
        ),
        versions_distinct(after.histories[before.article_pos(article_id)->0]),
        0 <= k <= before.histories[before.article_pos(article_id)->0].len(),
    ensures
        ({
            let i = before.article_pos(article_id)->0;
            let edit = outcome->Committed_edit;
            &&& after.histories[i] == before.histories[i].push(edit)
            &&& latest_version(after.histories[i]) == edit.hash@
            &&& after.articles[i].text@ == new_text
            &&& reconstruct(after.histories[i], edit.hash@) == Ok::<Seq<char>, Error>(new_text)
            &&& reconstruct(after.histories[i], version_at(before.histories[i], k)) == reconstruct(
                before.histories[i],
                version_at(before.histories[i], k),
            )
        }),
{
    let i = before.article_pos(article_id)->0;
    let edit = outcome->Committed_edit;
    let edits = before.histories[i];
    assert(after.histories[i] == edits.push(edit));
    lemma_append_consistent(before.articles[i].text@, edits, edit, new_text);
    lemma_reconstruct_latest(new_text, after.histories[i]);
    lemma_text_at_prefix(edits, k, edits.len() as int);
    lemma_append_keeps_versions(edits, edit, k);
}

/// What a committed edit request leaves behind: the article's text is the
/// canonical form of the submitted text, which is also what replaying the
/// longer chain up to its latest version gives, and the earlier versions
/// replay to the texts that they replayed to before. (As for any replay, no
/// version may occur twice along the chain.)
pub proof fn lemma_committed_edit_replays(
    before: StoreState,
    after: StoreState,
    user: LocalUserView,
    form: EditArticleForm,
    canonical: Option<Seq<char>>,
    now: Timestamp,
    activity_id: String,
    report: EditReport,
    k: int,
)
    requires
        before.histories.len() == before.articles.len(),
        before.article_pos(form.article_id) is Some,
        0 <= before.article_pos(form.article_id)->0 < before.articles.len(),
        edited(before, after, user, form, canonical, now, activity_id, report),
        report.outcome is Committed,
        consistent(
            before.articles[before.article_pos(form.article_id)->0].text@,
            before.histories[before.article_pos(form.article_id)->0],
        ),
        versions_distinct(after.histories[before.article_pos(form.article_id)->0]),
        0 <= k <= before.histories[before.article_pos(form.article_id)->0].len(),
    ensures
        ({
            let i = before.article_pos(form.article_id)->0;
            &&& report.spec_conflict() is None
            &&& after.articles[i].text@ == canonical->0
            &&& after.histories[i].len() == before.histories[i].len() + 1
            &&& reconstruct(after.histories[i], latest_version(after.histories[i])) == Ok::<
                Seq<char>,
                Error,
            >(canonical->0)
            &&& reconstruct(after.histories[i], version_at(before.histories[i], k)) == reconstruct(
                before.histories[i],
                version_at(before.histories[i], k),
            )
        }),
{
    assert(submitted(before, after, user.person.id, form, canonical, now, report.outcome));
    lemma_commit_keeps_history(
        without_resolved(before, form),
        after,
        form.article_id,
        canonical->0,
        form.summary,
        form.previous_version_id@,
        user.person.id,
        now,
        report.outcome,
        k,
    );
}

/// A submission keeps every article consistent that was, whether it ends as
/// a commit, as a proposal or as a conflict.
pub proof fn lemma_submission_keeps_consistency(
    before: StoreState,
    after: StoreState,
    person: PersonId,
    form: EditArticleForm,
    canonical: Option<Seq<char>>,
    now: Timestamp,
    outcome: EditOutcome,
    j: int,
)
    requires
        before.histories.len() == before.articles.len(),
        before.article_pos(form.article_id) is Some,
        0 <= before.article_pos(form.article_id)->0 < before.articles.len(),
        submitted(before, after, person, form, canonical, now, outcome),
        0 <= j < before.articles.len(),
        consistent(before.articles[j].text@, before.histories[j]),
    ensures
        consistent(after.articles[j].text@, after.histories[j]),
{
    match outcome {
        EditOutcome::Conflict(_) => {},
        _ => {
            lemma_update_keeps_consistency(
                without_resolved(before, form),
                after,
                form.article_id,
                canonical->0,
                form.summary,
                form.previous_version_id@,
                person,
                now,
                outcome,
                j,
            );
        },
    }
}

/// No-op rejection: a submission whose text is the article's current text is
/// refused as having no changes, which is a validation error, whatever the
/// previous version that it states. (The conflict that the submission names
/// as resolved, if it names one, has to be one that the submitter may
/// discard: else that is what the submission is refused for.)
pub proof fn lemma_no_op_rejected(
    s: StoreState,
    person: PersonId,
    is_admin: bool,
    domain: Seq<char>,
    form: EditArticleForm,
    canonical: Option<Seq<char>>,
)
    requires
        s.article_pos(form.article_id) is Some,
        form.new_text@ == s.articles[s.article_pos(form.article_id)->0].text@,
        form.resolve_conflict_id is Some ==> delete_refusal(
            s,
            form.resolve_conflict_id->0,
            person,
        ) is None,
    ensures
        submission_error(s, person, is_admin, domain, form, canonical) == Some(Error::NoChanges),
        Error::NoChanges.spec_kind() == ErrorKind::Validation,
{
    assert(submission_refusal(s, person, is_admin, domain, form, canonical) == Some(
        Error::NoChanges,
    ));
}

/// When the fast path is owed: a submission that resolves no conflict, names
/// an article that its submitter may edit, brings another text than the
/// article's, a summary and no link to the local instance, and states the
/// article's latest version, is accepted wherever the formatter, the diff
/// and the counters play along: the formatter gave a text; for a local
/// article the diff to that text leads back to it and an edit identifier is
/// left; and the edit's federation identifier is a URL.
pub proof fn lemma_fast_path_accepted(
    s: StoreState,
    person: PersonId,
    is_admin: bool,
    domain: Seq<char>,
    form: EditArticleForm,
    canonical: Option<Seq<char>>,
)
    requires
        form.resolve_conflict_id is None,
        s.article_pos(form.article_id) is Some,
        form.new_text@ != s.articles[s.article_pos(form.article_id)->0].text@,
        form.summary@.len() > 0,
        !edit_forbidden(s.articles[s.article_pos(form.article_id)->0], is_admin),
        !occurs_in(with_final_newline(form.new_text@), local_link(domain)),
        form.previous_version_id@ == latest_version(
            s.histories[s.article_pos(form.article_id)->0],
        ),
        canonical is Some,
        ({
            let article = s.articles[s.article_pos(form.article_id)->0];
            let diff = unified_diff(article.text@, canonical->0);
            &&& url_normal_form(edit_url_text(article.ap_id@, version_of(diff))) is Some
            &&& article.local ==> applied_text(article.text@, diff) == canonical
            &&& article.local ==> s.next_edit < i32::MAX
        }),
    ensures
        submission_error(s, person, is_admin, domain, form, canonical) is None,
{
}

/// When a conflict is owed: a submission that passes the same checks, but
/// states a version of the chain that is not the article's latest, is
/// accepted, and so queued as a conflict, wherever the formatter gave a
/// text, the diff from the text at the stated version to that text leads
/// back to it, and a conflict identifier is left.
pub proof fn lemma_divergence_accepted(
    s: StoreState,
    person: PersonId,
    is_admin: bool,
    domain: Seq<char>,
    form: EditArticleForm,
    canonical: Option<Seq<char>>,
)
    requires
        form.resolve_conflict_id is None,
        s.article_pos(form.article_id) is Some,
        form.new_text@ != s.articles[s.article_pos(form.article_id)->0].text@,
        form.summary@.len() > 0,
        !edit_forbidden(s.articles[s.article_pos(form.article_id)->0], is_admin),
        !occurs_in(with_final_newline(form.new_text@), local_link(domain)),
        form.previous_version_id@ != latest_version(
            s.histories[s.article_pos(form.article_id)->0],
        ),
        reconstruct(s.histories[s.article_pos(form.article_id)->0], form.previous_version_id@)
            is Ok,
        canonical is Some,
        ({
            let ancestor = reconstruct(
                s.histories[s.article_pos(form.article_id)->0],
                form.previous_version_id@,
            )->Ok_0;
            applied_text(ancestor, unified_diff(ancestor, canonical->0)) == canonical
        }),
        s.next_conflict < i32::MAX,
    ensures
        submission_error(s, person, is_admin, domain, form, canonical) is None,
{
}

/// Fast-path commit: a submission that states the article's latest version
/// as its previous version never ends as a conflict, and adds no conflict
/// to the store.
pub proof fn lemma_fast_path_never_conflicts(
    before: StoreState,
    after: StoreState,
    person: PersonId,
    form: EditArticleForm,
    canonical: Option<Seq<char>>,
    now: Timestamp,
    outcome: EditOutcome,
)
    requires
        before.article_pos(form.article_id) is Some,
        submitted(before, after, person, form, canonical, now, outcome),
        form.previous_version_id@ == latest_version(
            before.histories[before.article_pos(form.article_id)->0],
        ),
    ensures
        !(outcome is Conflict),
        after.conflicts == without_resolved(before, form).conflicts,
{
}

/// Divergence detection: a submission that states another previous version
/// than the article's latest, and is not refused, ends as a conflict. The
/// store then holds exactly one conflict more, and no article and no history
/// has changed: nothing is committed silently.
pub proof fn lemma_divergence_queues_conflict(
    before: StoreState,
    after: StoreState,
    person: PersonId,
    form: EditArticleForm,
    canonical: Option<Seq<char>>,
    now: Timestamp,
    outcome: EditOutcome,
)
    requires
        before.article_pos(form.article_id) is Some,
        submitted(before, after, person, form, canonical, now, outcome),
        form.previous_version_id@ != latest_version(
            before.histories[before.article_pos(form.article_id)->0],
        ),
    ensures
        outcome is Conflict,
        after.conflicts == without_resolved(before, form).conflicts.push(outcome->Conflict_0),
        after.articles == before.articles,
        after.histories == before.histories,
{
    match outcome {
        EditOutcome::Conflict(_) => {},
        _ => {
            assert(updated(
                without_resolved(before, form),
                after,
                form.article_id,
                canonical->0,
                form.summary,
                form.previous_version_id@,
                person,
                now,
                outcome,
            ));
        },
    }
}

/// Fast-path commit, for a whole edit request: where the request states the
/// article's latest version and is accepted, no conflict is created and none
/// is handed back. The store holds the conflicts that it held, but for the
/// one that the request names as resolved.
pub proof fn lemma_edit_on_latest_never_conflicts(
    before: StoreState,
    after: StoreState,
    user: LocalUserView,
    form: EditArticleForm,
    canonical: Option<Seq<char>>,
    now: Timestamp,
    activity_id: String,
    report: EditReport,
)
    requires
        before.article_pos(form.article_id) is Some,
        edited(before, after, user, form, canonical, now, activity_id, report),
        form.previous_version_id@ == latest_version(
            before.histories[before.article_pos(form.article_id)->0],
        ),
    ensures
        !(report.outcome is Conflict),
        report.resolution is None,
        report.spec_conflict() is None,
        after.conflicts == without_resolved(before, form).conflicts,
        form.resolve_conflict_id is None ==> after.conflicts == before.conflicts,
{
}

/// Divergence, for a whole edit request: where the request states another
/// version than the article's latest and is accepted, one conflict is made.
/// It holds the article, the submitter, the summary and the stated version,
/// and the diff from the text at the stated version to the canonical form of
/// the submitted text. The submitted text is never committed over the
/// change that others made: text and edits of the article change only where
/// the three-way merge of the text at the stated version, the canonical text
/// and the article's current text is clean, and the article's text is then
/// the result of that merge, and the conflict is gone again. Else articles
/// and histories are as they were, the conflict is in the store, and where
/// the merge was tried and left conflicts the user is handed the stored
/// conflict's identifier with the merged text.
pub proof fn lemma_edit_after_divergence(
    before: StoreState,
    after: StoreState,
    user: LocalUserView,
    domain: Seq<char>,
    form: EditArticleForm,
    canonical: Option<Seq<char>>,
    now: Timestamp,
    activity_id: String,
    report: EditReport,
)
    requires
        before.valid(),
        before.article_pos(form.article_id) is Some,
        submission_error(before, user.person.id, user.local_user.admin, domain, form, canonical)
            is None,
        edited(before, after, user, form, canonical, now, activity_id, report),
        form.previous_version_id@ != latest_version(
            before.histories[before.article_pos(form.article_id)->0],
        ),
    ensures
        ({
            let i = before.article_pos(form.article_id)->0;
            let kept = without_resolved(before, form).conflicts;
            let ancestor = reconstruct(before.histories[i], form.previous_version_id@);
            let merge = merged_text(ancestor->Ok_0, canonical->0, before.articles[i].text@);
            let c = report.outcome->Conflict_0;
            &&& report.outcome is Conflict
            &&& ancestor is Ok
            &&& c.id.0 == before.next_conflict
            &&& c.article_id == form.article_id
            &&& c.creator_id == user.person.id
            &&& c.summary == form.summary
            &&& c.previous_version_id == form.previous_version_id
            &&& c.diff@ == unified_diff(ancestor->Ok_0, canonical->0)
            &&& c.hash@ == version_of(c.diff@)
            &&& match report.resolution {
                Some(Ok(MergeOutcome::Merged(EditOutcome::Committed { edit, article }))) => {
                    &&& merge is Ok
                    &&& after.articles[i].text@ == merge->Ok_0
                    &&& after.histories[i] == before.histories[i].push(edit)
                    &&& edit.previous_version_id@ == latest_version(before.histories[i])
                    &&& after.conflicts == kept
                },
                Some(Ok(MergeOutcome::Merged(_))) => {
                    &&& merge is Ok
                    &&& after.articles == before.articles
                    &&& after.histories == before.histories
                    &&& after.conflicts == kept
                },
                Some(Ok(MergeOutcome::Unresolved(api))) => {
                    &&& merge is Err
                    &&& api.three_way_merge@ == merge->Err_0
                    &&& api.id == c.id
                    &&& report.spec_conflict() == Some(api)
                    &&& after.articles == before.articles
                    &&& after.histories == before.histories
                    &&& after.conflicts == kept.push(c)
                },
                Some(Err(_)) => {
                    &&& after.articles == before.articles
                    &&& after.histories == before.histories
                    &&& after.conflicts == kept.push(c)
                },
                None => false,
            }
        }),
{
    let i = before.article_pos(form.article_id)->0;
    let c = report.outcome->Conflict_0;
    let person = user.person.id;
    assert(report.outcome is Conflict) by {
        if !(report.outcome is Conflict) {
            assert(submitted(before, after, person, form, canonical, now, report.outcome));
        }
    }
    let queued = without_resolved(before, form).with_new_conflict(c);
    assert(submitted(before, queued, person, form, canonical, now, EditOutcome::Conflict(c)));
    lemma_conflict_is_queued(
        before,
        person,
        user.local_user.admin,
        domain,
        form,
        canonical,
        now,
        c,
    );
    match report.resolution {
        Some(Ok(MergeOutcome::Merged(done))) => {
            assert(resolution_refusal(queued, c) is None);
            assert(resolved(queued, after, c, now, MergeOutcome::Merged(done)));
            lemma_merged_conflict_is_gone(queued, after, c, now, done);
            if done is Committed {
                lemma_clean_merge_commits(queued, after, c, now, done, i);
            }
        },
        Some(Ok(MergeOutcome::Unresolved(api))) => {
            assert(resolution_refusal(queued, c) is None);
            assert(resolved(queued, after, c, now, MergeOutcome::Unresolved(api)));
            lemma_unresolved_conflict_stays(queued, after, c, now, MergeOutcome::Unresolved(api));
        },
        Some(Err(_)) => {
            assert(after == queued);
        },
        None => {},
    }
}

/// A conflict that a submission has queued: it stands last among the
/// conflicts, under an identifier that no other conflict has, and no article
/// and no history has changed. Its diff leads from the text at the stated
/// version to the canonical text, so that the merge which resolves it is the
/// three-way merge of the text at the stated version, the canonical text and
/// the article's current text.
pub proof fn lemma_conflict_is_queued(
    before: StoreState,
    person: PersonId,
    is_admin: bool,
    domain: Seq<char>,
    form: EditArticleForm,
    canonical: Option<Seq<char>>,
    now: Timestamp,
    c: DbConflict,
)
    requires
        before.valid(),
        before.article_pos(form.article_id) is Some,
        submission_error(before, person, is_admin, domain, form, canonical) is None,
        submitted(
            before,
            without_resolved(before, form).with_new_conflict(c),
            person,
            form,
            canonical,
            now,
            EditOutcome::Conflict(c),
        ),
    ensures
        ({
            let i = before.article_pos(form.article_id)->0;
            let kept = without_resolved(before, form).conflicts;
            let queued = without_resolved(before, form).with_new_conflict(c);
            let ancestor = reconstruct(before.histories[i], form.previous_version_id@);
            &&& 0 <= i < before.articles.len()
            &&& before.histories.len() == before.articles.len()
            &&& queued.valid()
            &&& queued.articles == before.articles
            &&& queued.histories == before.histories
            &&& queued.conflicts == kept.push(c)
            &&& queued.article_pos(c.article_id) == Some(i)
            &&& queued.conflict_pos(c.id) == Some(kept.len() as int)
            &&& queued.conflicts.remove(kept.len() as int) == kept
            &&& ancestor is Ok
            &&& conflict_merge(queued, i, c) == Ok::<Result<Seq<char>, Seq<char>>, Error>(
                merged_text(ancestor->Ok_0, canonical->0, before.articles[i].text@),
            )
        }),
{
    let i = before.article_pos(form.article_id)->0;
    let base = without_resolved(before, form);
    assert(before.histories.len() == before.articles.len()) by {
        reveal(StoreState::valid);
    }
    assert(submission_refusal(before, person, is_admin, domain, form, canonical) is None);
    assert(base.valid()) by {
        if form.resolve_conflict_id is Some {
            before.lemma_without_conflict(before.conflict_pos(form.resolve_conflict_id->0)->0);
        }
    }
    let queued = base.with_new_conflict(c);
    base.lemma_with_new_conflict(c);
    let n = base.conflicts.len() as int;
    assert(queued.conflicts[n] == c);
    queued.lemma_conflict_pos(n);
    assert(queued.conflicts.remove(n) =~= base.conflicts);
    before.lemma_article_pos(i);
    queued.lemma_article_pos(i);
}

/// After a clean merge the conflict is gone and the other conflicts stay.
/// Where the merged text was not committed, because the article lives on
/// another instance, no article and no history has changed.
pub proof fn lemma_merged_conflict_is_gone(
    before: StoreState,
    after: StoreState,
    conflict: DbConflict,
    now: Timestamp,
    outcome: EditOutcome,
)
    requires
        before.histories.len() == before.articles.len(),
        before.article_pos(conflict.article_id) is Some,
        0 <= before.article_pos(conflict.article_id)->0 < before.articles.len(),
        resolution_refusal(before, conflict) is None,
        resolved(before, after, conflict, now, MergeOutcome::Merged(outcome)),
    ensures
        conflict_merge(before, before.article_pos(conflict.article_id)->0, conflict) is Ok,
        conflict_merge(before, before.article_pos(conflict.article_id)->0, conflict)->Ok_0 is Ok,
        after.conflicts == before.conflicts.remove(before.conflict_pos(conflict.id)->0),
        !(outcome is Committed) ==> after.articles == before.articles && after.histories
            == before.histories,
{
}

/// When the resolution of a conflict is owed: for a stored conflict on an
/// article of the store, whose stated version is on the chain and whose diff
/// applies to the text there, the attempt is accepted where the two sides
/// do not merge cleanly. Where they do, it is accepted wherever the diff and
/// the counters play along: the federation identifier of the merging edit
/// is a URL and, for a local article, the diff to the merged text leads
/// back to it and an edit identifier is left.
pub proof fn lemma_resolution_accepted(s: StoreState, conflict: DbConflict)
    requires
        s.conflict_pos(conflict.id) is Some,
        s.article_pos(conflict.article_id) is Some,
        conflict_merge(s, s.article_pos(conflict.article_id)->0, conflict) is Ok,
        ({
            let article = s.articles[s.article_pos(conflict.article_id)->0];
            let merge = conflict_merge(s, s.article_pos(conflict.article_id)->0, conflict)->Ok_0;
            let diff = unified_diff(article.text@, merge->Ok_0);
            merge is Ok ==> {
                &&& url_normal_form(edit_url_text(article.ap_id@, version_of(diff))) is Some
                &&& article.local ==> applied_text(article.text@, diff) == Some(merge->Ok_0)
                &&& article.local ==> s.next_edit < i32::MAX
            }
        }),
    ensures
        resolution_refusal(s, conflict) is None,
{
}

/// Conflict convergence: where the attempt to resolve a conflict on a local
/// article ends in a clean merge, exactly one edit is appended to the
/// article's chain. The edit stands on the version that was the latest, its
/// diff leads from the article's text to the merged text, and its version is
/// the hash of that diff. The merged text is the article's text now. The
/// conflict is gone; every other conflict, and every other article with its
/// history, is as it was.
pub proof fn lemma_clean_merge_commits(
    before: StoreState,
    after: StoreState,
    conflict: DbConflict,
    now: Timestamp,
    outcome: EditOutcome,
    j: int,
)
    requires
        before.histories.len() == before.articles.len(),
        before.article_pos(conflict.article_id) is Some,
        0 <= before.article_pos(conflict.article_id)->0 < before.articles.len(),
        resolution_refusal(before, conflict) is None,
        resolved(before, after, conflict, now, MergeOutcome::Merged(outcome)),
        outcome is Committed,
        0 <= j < before.articles.len(),
    ensures
        ({
            let i = before.article_pos(conflict.article_id)->0;
            let merge = conflict_merge(before, i, conflict);
            let edit = outcome->Committed_edit;
            &&& merge is Ok
            &&& merge->Ok_0 is Ok
            &&& after.histories[i] == before.histories[i].push(edit)
            &&& edit.previous_version_id@ == latest_version(before.histories[i])
            &&& edit.diff@ == unified_diff(before.articles[i].text@, merge->Ok_0->Ok_0)
            &&& edit.hash@ == version_of(edit.diff@)
            &&& edit.creator_id == conflict.creator_id
            &&& after.articles[i].text@ == merge->Ok_0->Ok_0
            &&& after.conflicts == before.conflicts.remove(before.conflict_pos(conflict.id)->0)
            &&& j != i ==> after.articles[j] == before.articles[j] && after.histories[j]
                == before.histories[j]
        }),
{
}

/// After a clean merge was committed to a local article whose text was what
/// its chain replays to, replaying the longer chain up to its latest version
/// gives the merged text, and the earlier versions replay to the texts that
/// they replayed to before. (As for any replay, no version may occur twice
/// along the chain.)
pub proof fn lemma_clean_merge_replays(
    before: StoreState,
    after: StoreState,
    conflict: DbConflict,
    now: Timestamp,
    outcome: EditOutcome,
    k: int,
)
    requires
        before.histories.len() == before.articles.len(),
        before.article_pos(conflict.article_id) is Some,
        0 <= before.article_pos(conflict.article_id)->0 < before.articles.len(),
        resolution_refusal(before, conflict) is None,
        resolved(before, after, conflict, now, MergeOutcome::Merged(outcome)),
        outcome is Committed,
        consistent(
            before.articles[before.article_pos(conflict.article_id)->0].text@,
            before.histories[before.article_pos(conflict.article_id)->0],
        ),
        versions_distinct(after.histories[before.article_pos(conflict.article_id)->0]),
        0 <= k <= before.histories[before.article_pos(conflict.article_id)->0].len(),
    ensures
        ({
            let i = before.article_pos(conflict.article_id)->0;
            let merged = conflict_merge(before, i, conflict)->Ok_0->Ok_0;
            &&& after.articles[i].text@ == merged
            &&& reconstruct(after.histories[i], latest_version(after.histories[i])) == Ok::<
                Seq<char>,
                Error,
            >(merged)
            &&& reconstruct(after.histories[i], version_at(before.histories[i], k)) == reconstruct(
                before.histories[i],
                version_at(before.histories[i], k),
            )
        }),
{
    let i = before.article_pos(conflict.article_id)->0;
    lemma_commit_keeps_history(
        before.without_conflict(before.conflict_pos(conflict.id)->0),
        after,
        conflict.article_id,
        conflict_merge(before, i, conflict)->Ok_0->Ok_0,
        conflict.summary,
        latest_version(before.histories[i]),
        conflict.creator_id,
        now,
        outcome,
        k,
    );
}

/// Conflict non-convergence: where the two sides of a conflict do not merge
/// cleanly, the attempt to resolve it changes nothing, so the conflict
/// stays, and the user is handed the merged text with conflict markers
/// together with the article's latest version, on which to base the edit
/// that resolves the conflict.
pub proof fn lemma_unresolved_conflict_stays(
    before: StoreState,
    after: StoreState,
    conflict: DbConflict,
    now: Timestamp,
    outcome: MergeOutcome,
)
    requires
        before.histories.len() == before.articles.len(),
        resolution_refusal(before, conflict) is None,
        resolved(before, after, conflict, now, outcome),
        outcome is Unresolved,
    ensures
        ({
            let i = before.article_pos(conflict.article_id)->0;
            let merge = conflict_merge(before, i, conflict);
            let api = outcome->Unresolved_0;
            &&& after == before
            &&& after.conflict_pos(conflict.id) is Some
            &&& merge is Ok
            &&& merge->Ok_0 is Err
            &&& api.three_way_merge@ == merge->Ok_0->Err_0
            &&& api.previous_version_id@ == latest_version(before.histories[i])
            &&& api.id == conflict.id
        }),
{
}

/// Fork fidelity: the history of a fork is as long as the history of its
/// source, and holds at each position an edit with the same version, diff,
/// parent, summary and creator. The fork has the text of the source, and is
/// consistent where the source is. The source itself is left as it was.
pub proof fn lemma_fork_fidelity(
    before: StoreState,
    after: StoreState,
    config: &IbisConfig,
    form: ForkArticleForm,
    now: Timestamp,
)
    requires
        before.histories.len() == before.articles.len(),
        before.article_pos(form.article_id) is Some,
        0 <= before.article_pos(form.article_id)->0 < before.articles.len(),
        forked(before, after, config, form, now, after.articles[before.articles.len() as int]),
    ensures
        ({
            let i = before.article_pos(form.article_id)->0;
            let n = before.articles.len() as int;
            &&& after.histories[n].len() == before.histories[i].len()
            &&& same_chain(before.histories[i], after.histories[n])
            &&& forall|k: int|
                0 <= k < before.histories[i].len() ==> {
                    &&& (#[trigger] after.histories[n][k]).hash == before.histories[i][k].hash
                    &&& after.histories[n][k].diff == before.histories[i][k].diff
                    &&& after.histories[n][k].summary == before.histories[i][k].summary
                    &&& after.histories[n][k].creator_id == before.histories[i][k].creator_id
                    &&& after.histories[n][k].previous_version_id
                        == before.histories[i][k].previous_version_id
                }
            &&& after.articles[n].text == before.articles[i].text
            &&& after.articles[i] == before.articles[i]
            &&& after.histories[i] == before.histories[i]
            &&& latest_version(after.histories[n]) == latest_version(before.histories[i])
            &&& consistent(before.articles[i].text@, before.histories[i]) ==> consistent(
                after.articles[n].text@,
                after.histories[n],
            )
        }),
{
    let i = before.article_pos(form.article_id)->0;
    let n = before.articles.len() as int;
    let fork = after.articles[n];
    assert forall|k: int| 0 <= k < before.histories[i].len() implies {
        &&& (#[trigger] after.histories[n][k]).hash == before.histories[i][k].hash
        &&& after.histories[n][k].diff == before.histories[i][k].diff
        &&& after.histories[n][k].summary == before.histories[i][k].summary
        &&& after.histories[n][k].creator_id == before.histories[i][k].creator_id
        &&& after.histories[n][k].previous_version_id == before.histories[i][k].previous_version_id
    } by {
        assert(copy_of(
            before.histories[i][k],
            after.histories[n][k],
            fork,
            before.next_edit + k,
            now,
        ));
    }
    assert(same_chain(before.histories[i], after.histories[n])) by {
        assert forall|k: int| 0 <= k < before.histories[i].len() implies {
            &&& (#[trigger] before.histories[i][k]).hash@ == (
            #[trigger] after.histories[n][k]).hash@
            &&& before.histories[i][k].previous_version_id@
                == after.histories[n][k].previous_version_id@
            &&& before.histories[i][k].diff@ == after.histories[n][k].diff@
        } by {
            assert(after.histories[n][k].hash == before.histories[i][k].hash);
        }
    }
    lemma_same_chain_consistent(
        before.articles[i].text@,
        before.histories[i],
        after.histories[n],
    );
}

/// Follow handshake, on the side of the instance that is followed: once a
/// request to follow was taken in, the person who asked follows the local
/// instance by an edge that is not pending, and where the local instance
/// can sign, an acceptance is on its way to that person's inbox and to no
/// other.
pub proof fn lemma_follow_handshake(
    before: StoreState,
    after: StoreState,
    follow: Follow,
    activity_id: String,
    received: Received,
)
    requires
        before.valid(),
        follow_refusal(before, follow) is None,
        follow_received(before, after, follow, activity_id, received),
    ensures
        ({
            let actor = before.persons[before.person_pos_by_ap_id(follow.actor@)->0];
            let local = before.instances[before.local_instance_pos()->0];
            &&& after.follow_pos(local.id, actor.id) is Some
            &&& after.follows[after.follow_pos(local.id, actor.id)->0] == InstanceFollow {
                instance_id: local.id,
                follower_id: actor.id,
                pending: false,
            }
            &&& local.private_key is Some ==> {
                &&& received.delivery is Some
                &&& received.delivery->0.activity is Accept
                &&& received.delivery->0.activity->Accept_0.object == follow
                &&& texts(received.delivery->0.inboxes@) == seq![
                    actor.inbox_url@,
                ]
            }
        }),
{
    let actor = before.persons[before.person_pos_by_ap_id(follow.actor@)->0];
    let local = before.instances[before.local_instance_pos()->0];
    before.lemma_with_follow(
        InstanceFollow { instance_id: local.id, follower_id: actor.id, pending: false },
    );
}

/// Follow handshake, on the side of the follower: the edge that a local
/// person's request to follow a remote instance leaves in the store is
/// pending, and stays so until an acceptance sets it anew.
pub proof fn lemma_follow_pending_until_accepted(
    before: StoreState,
    instance: InstanceId,
    follower: PersonId,
)
    requires
        before.valid(),
    ensures
        ({
            let after = before.with_follow(
                InstanceFollow { instance_id: instance, follower_id: follower, pending: true },
            );
            &&& after.follow_pos(instance, follower) is Some
            &&& after.follows[after.follow_pos(instance, follower)->0].pending
        }),
{
    before.lemma_with_follow(
        InstanceFollow { instance_id: instance, follower_id: follower, pending: true },
    );
}

/// Nothing is delivered on the strength of a pending edge: whoever is among
/// the followers that an activity of an instance goes out to has an
/// established edge to that instance.
pub proof fn lemma_delivery_needs_established_edge(s: StoreState, id: InstanceId, k: int)
    requires
        0 <= k < followers_of(s, id).len(),
    ensures
        exists|e: int|
            0 <= e < s.follows.len() && (#[trigger] s.follows[e]).instance_id == id
                && !s.follows[e].pending && s.person_pos(s.follows[e].follower_id) is Some
                && s.persons[s.person_pos(s.follows[e].follower_id)->0] == followers_of(s, id)[k],
{
    lemma_followers_established(s, id, s.follows.len() as int, k);
}

} // verus!
