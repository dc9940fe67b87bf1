use crate::activities::{
    texts, CreateArticle, Follow, InboxActivities, Outbound, UpdateLocalArticle,
    UpdateRemoteArticle,
};
use crate::address::{
    extract_domain, host_with_port, parse_url, url_host, url_normal_form, url_port,
};
use crate::article::{
    article_view, normal_title, title_refusal, titled_pos, validate_title, view_at,
};
use crate::common::{
    ApiConflict, ApproveArticleForm, ArticleView, CreateArticleForm, DbArticle, DbEdit, DbInstance,
    DbPerson, DeleteConflictForm, EditArticleForm, FollowInstance, ForkArticleForm, GetArticleForm,
    GetInstance, GetUserForm, InstanceFollow, InstanceView, ListArticlesForm, LocalUserView,
    ProtectArticleForm, RegisterUserForm, SearchArticleForm,
};
use crate::config::{http_protocol_str, protocol, IbisConfig};
use crate::conflict::{delete_refusal, DbConflict};
use crate::diff::{apply_patch, create_diff, applied_text, unified_diff};
use crate::edit::{edit_url_text, DbEditForm};
use crate::error::Error;
use crate::history::{
    consistent, lemma_same_chain_consistent, linked, same_chain, text_at, version_at,
};
use crate::instance::followers_of;
use crate::listing::listing;
use crate::newtypes::{ArticleId, EditId, Timestamp};
use crate::outbox::{
    broadcast_refusal, creation_sent, local_update_sent, proposal_refusal, remote_update_sent,
};
use crate::resolver::{
    canonical_form, resolution_refusal, resolved, submission_error, submit_edit,
    submitted, text_refusal, without_resolved, EditOutcome, MergeOutcome,
};
use crate::search::{hits_upto, named_pos};
use crate::store::{ArticleRow, Store, StoreState};
use crate::text::{join, optional_text, replace_char};
use crate::user::local_user_refusal;
use crate::version::{sentinel_version, version_of, EditVersion};
use vstd::prelude::*;

verus! {

/// Checks that a user is an admin.
pub fn check_is_admin(user: &LocalUserView) -> (checked: Result<(), Error>)
    ensures
        checked == if user.local_user.admin {
            Ok::<(), Error>(())
        } else {
            Err::<(), Error>(Error::NotAdmin)
        },
{
    if user.local_user.admin {
        Ok(())
    } else {
        Err(Error::NotAdmin)
    }
}

/// `delivery` is what goes out to other instances after an edit came to
/// `outcome`: a committed edit is announced to the followers of the local
/// instance, a proposed one is sent to the instance that the article lives
/// on, a conflict stays at home. Nothing goes out either where the activity
/// cannot be made.
pub open spec fn delivery_of(
    s: StoreState,
    outcome: EditOutcome,
    activity_id: String,
    delivery: Option<Outbound>,
) -> bool {
    match outcome {
        EditOutcome::Committed { edit, article } => match delivery {
            Some(out) => broadcast_refusal(s, article) is None && local_update_sent(
                s,
                article,
                Seq::empty(),
                activity_id,
                out,
            ),
            None => broadcast_refusal(s, article) is Some,
        },
        EditOutcome::Proposed { edit, origin } => match delivery {
            Some(out) => s.instance_pos(origin) is Some && proposal_refusal(s, edit) is None
                && remote_update_sent(
                s,
                edit,
                s.instances[s.instance_pos(origin)->0],
                activity_id,
                out,
            ),
            None => s.instance_pos(origin) is None || proposal_refusal(s, edit) is Some,
        },
        EditOutcome::Conflict(_) => delivery is None,
    }
}

/// Makes what goes out to other instances after an edit came to `outcome`.
pub fn federate(outcome: &EditOutcome, store: &Store, activity_id: String) -> (delivery: Option<
    Outbound,
>)
    requires
        store.wf(),
    ensures
        delivery_of(store.state(), *outcome, activity_id, delivery),
{
    match outcome {
        EditOutcome::Committed { edit, article } => {
            match UpdateLocalArticle::send(article.clone(), Vec::new(), store, activity_id) {
                Ok(out) => Some(out),
                Err(_) => None,
            }
        },
        EditOutcome::Proposed { edit, origin } => match DbInstance::read(*origin, store) {
            Err(_) => None,
            Ok(instance) => match UpdateRemoteArticle::send(
                edit.clone(),
                instance,
                store,
                activity_id,
            ) {
                Ok(out) => Some(out),
                Err(_) => None,
            },
        },
        EditOutcome::Conflict(_) => None,
    }
}

/// What an edit request has led to.
#[derive(Debug, PartialEq)]
pub struct EditReport {
    /// What became of the submission.
    pub outcome: EditOutcome,
    /// Where the submission was queued as a conflict: what became of the
    /// attempt to resolve the conflict at once.
    pub resolution: Option<Result<MergeOutcome, Error>>,
    /// What has to go out to other instances.
    pub delivery: Option<Outbound>,
}

impl EditReport {
    /// The conflict that the user has to resolve by hand, if there is one.
    pub open spec fn spec_conflict(&self) -> Option<ApiConflict> {
        match self.resolution {
            Some(Ok(MergeOutcome::Unresolved(api))) => Some(api),
            _ => None,
        }
    }

    /// The conflict that the user has to resolve by hand, if there is one.
    pub fn conflict(&self) -> (conflict: Option<&ApiConflict>)
        ensures
            match conflict {
                Some(api) => self.spec_conflict() == Some(*api),
                None => self.spec_conflict() is None,
            },
    {
        match &self.resolution {
            Some(Ok(MergeOutcome::Unresolved(api))) => Some(api),
            _ => None,
        }
    }
}

/// What `edit_article` has done where the submission was accepted.
pub open spec fn edited(
    before: StoreState,
    after: StoreState,
    user: LocalUserView,
    form: EditArticleForm,
    canonical: Option<Seq<char>>,
    now: Timestamp,
    activity_id: String,
    report: EditReport,
) -> bool {
    match report.outcome {
        EditOutcome::Conflict(conflict) => {
            let queued = without_resolved(before, form).with_new_conflict(conflict);
            &&& submitted(before, queued, user.person.id, form, canonical, now, report.outcome)
            &&& match report.resolution {
                None => false,
                Some(Err(e)) => {
                    &&& resolution_refusal(queued, conflict) == Some(e)
                    &&& after == queued
                    &&& report.delivery is None
                },
                Some(Ok(MergeOutcome::Merged(done))) => {
                    &&& resolution_refusal(queued, conflict) is None
                    &&& resolved(queued, after, conflict, now, MergeOutcome::Merged(done))
                    &&& delivery_of(after, done, activity_id, report.delivery)
                },
                Some(Ok(MergeOutcome::Unresolved(api))) => {
                    &&& resolution_refusal(queued, conflict) is None
                    &&& resolved(queued, after, conflict, now, MergeOutcome::Unresolved(api))
                    &&& report.delivery is None
                },
            }
        },
        _ => {
            &&& submitted(before, after, user.person.id, form, canonical, now, report.outcome)
            &&& report.resolution is None
            &&& delivery_of(after, report.outcome, activity_id, report.delivery)
        },
    }
}

/// Edits an existing article, local or remote.
///
/// Where nobody has changed the article since the version that the edit is
/// based on, the edit is committed. Else it is queued as a conflict, and the
/// conflict is resolved at once where the two changes merge cleanly; if not,
/// the report holds the conflict for the user to resolve. A refused
/// submission changes nothing.
///
/// `formatted` is what the Markdown formatter made of the submitted text
/// (see `canonical_form`). A conflict is resolved against the article as the
/// store holds it. For an article of another instance, which has to be
/// refreshed from its origin in between, the two steps are taken apart:
/// `submit_edit`, then `DbConflict::to_api_conflict`.
pub fn edit_article(
    user: &LocalUserView,
    store: &mut Store,
    config: &IbisConfig,
    edit_form: EditArticleForm,
    formatted: Option<String>,
    now: Timestamp,
    activity_id: String,
) -> (report: Result<EditReport, Error>)
    requires
        old(store).wf(),
    ensures
        final(store).wf(),
        old(store).state().all_consistent() ==> final(store).state().all_consistent(),
        match report {
            Ok(r) => {
                &&& submission_error(
                    old(store).state(),
                    user.person.id,
                    user.local_user.admin,
                    config.federation.domain@,
                    edit_form,
                    optional_text(formatted),
                ) is None
                &&& edited(
                    old(store).state(),
                    final(store).state(),
                    *user,
                    edit_form,
                    optional_text(formatted),
                    now,
                    activity_id,
                    r,
                )
            },
            Err(e) => {
                &&& submission_error(
                    old(store).state(),
                    user.person.id,
                    user.local_user.admin,
                    config.federation.domain@,
                    edit_form,
                    optional_text(formatted),
                ) == Some(e)
                &&& final(store).state() == old(store).state()
            },
        },
{
    let outcome = match submit_edit(user, store, config, edit_form, formatted, now) {
        Err(e) => {
            return Err(e);
        },
        Ok(outcome) => outcome,
    };
    match &outcome {
        EditOutcome::Conflict(conflict) => {
            match conflict.to_api_conflict(store, now) {
                Err(e) => Ok(EditReport { outcome, resolution: Some(Err(e)), delivery: None }),
                Ok(MergeOutcome::Merged(done)) => {
                    let delivery = federate(&done, store, activity_id);
                    Ok(
                        EditReport {
                            outcome,
                            resolution: Some(Ok(MergeOutcome::Merged(done))),
                            delivery,
                        },
                    )
                },
                Ok(MergeOutcome::Unresolved(api)) => Ok(
                    EditReport {
                        outcome,
                        resolution: Some(Ok(MergeOutcome::Unresolved(api))),
                        delivery: None,
                    },
                ),
            }
        },
        _ => {
            let delivery = federate(&outcome, store, activity_id);
            Ok(EditReport { outcome, resolution: None, delivery })
        },
    }
}

/// How an article is looked up: by title, with the domain for a remote one,
/// or by id; exactly one of title and id must be given, and no domain with an id.
pub open spec fn lookup(s: StoreState, query: GetArticleForm) -> Result<int, Error> {
    match (query.title, query.id) {
        (Some(title), None) => match titled_pos(s, title@, optional_text(query.domain)) {
            Some(i) => Ok(i),
            None => Err(Error::ArticleNotFound),
        },
        (None, Some(id)) => if query.domain is Some {
            Err(Error::InvalidQuery)
        } else {
            match s.article_pos(id) {
                Some(i) => Ok(i),
                None => Err(Error::ArticleNotFound),
            }
        },
        _ => Err(Error::InvalidQuery),
    }
}

/// Retrieves an article by title or by id. It must be in the store already.
pub fn get_article(query: GetArticleForm, store: &Store) -> (found: Result<ArticleView, Error>)
    requires
        store.wf(),
    ensures
        match found {
            Ok(view) => lookup(store.state(), query) is Ok && article_view(
                store.state(),
                lookup(store.state(), query)->Ok_0,
                view,
            ),
            Err(e) => lookup(store.state(), query) == Err::<int, Error>(e),
        },
{
    match (query.title, query.id) {
        (Some(title), None) => DbArticle::read_view_title(title.as_str(), query.domain, store),
        (None, Some(id)) => {
            if query.domain.is_some() {
                return Err(Error::InvalidQuery);
            }
            DbArticle::read_view(id, store)
        },
        _ => Err(Error::InvalidQuery),
    }
}

/// Protects an article against edits by anyone but admins, or lifts the
/// protection. Only an admin may do so.
pub fn protect_article(
    user: &LocalUserView,
    store: &mut Store,
    params: ProtectArticleForm,
) -> (updated: Result<DbArticle, Error>)
    requires
        old(store).wf(),
    ensures
        final(store).wf(),
        old(store).state().all_consistent() ==> final(store).state().all_consistent(),
        match updated {
            Ok(article) => {
                let before = old(store).state();
                let i = before.article_pos(params.article_id)->0;
                &&& user.local_user.admin
                &&& before.article_pos(params.article_id) is Some
                &&& article == DbArticle { protected: params.protected, ..before.articles[i] }
                &&& final(store).state() == before.with_article(i, article)
            },
            Err(e) => {
                &&& final(store).state() == old(store).state()
                &&& e == if !user.local_user.admin {
                    Error::NotAdmin
                } else {
                    Error::ArticleNotFound
                }
                &&& !user.local_user.admin || old(store).state().article_pos(params.article_id)
                    is None
            },
        },
{
    match check_is_admin(user) {
        Err(e) => {
            return Err(e);
        },
        Ok(_) => {},
    }
    DbArticle::update_protected(params.article_id, params.protected, store)
}

/// Discards a conflict without resolving it. Only the user who made the
/// conflicting edit may do so.
pub fn delete_conflict(
    user: &LocalUserView,
    store: &mut Store,
    params: DeleteConflictForm,
) -> (deleted: Result<(), Error>)
    requires
        old(store).wf(),
    ensures
        final(store).wf(),
        old(store).state().all_consistent() ==> final(store).state().all_consistent(),
        match deleted {
            Ok(_) => {
                let before = old(store).state();
                &&& delete_refusal(before, params.conflict_id, user.person.id) is None
                &&& final(store).state() == before.without_conflict(
                    before.conflict_pos(params.conflict_id)->0,
                )
            },
            Err(e) => {
                &&& delete_refusal(old(store).state(), params.conflict_id, user.person.id)
                    == Some(e)
                &&& final(store).state() == old(store).state()
            },
        },
{
    match DbConflict::delete(params.conflict_id, user.person.id, store) {
        Ok(_) => Ok(()),
        Err(e) => Err(e),
    }
}

/// The text from which a local article's federation identifier is made:
/// scheme, domain, `/article/` and the title.
pub open spec fn article_url_text(secure: bool, domain: Seq<char>, title: Seq<char>) -> Seq<char> {
    protocol(secure) + "://"@ + domain + "/article/"@ + title
}

/// The federation identifier of a local article with the given title: it
/// lies on the domain of the local instance. `None` where the identifier of
/// the local instance has no host, or the whole is no URL.
pub open spec fn local_article_url(local: DbInstance, secure: bool, title: Seq<char>) -> Option<
    Seq<char>,
> {
    if url_host(local.ap_id@) is None {
        None
    } else {
        url_normal_form(
            article_url_text(
                secure,
                host_with_port(url_host(local.ap_id@)->0, url_port(local.ap_id@)),
                title,
            ),
        )
    }
}

/// The federation identifier of a local article with the given title.
fn local_article_ap_id(local: &DbInstance, config: &IbisConfig, title: &str) -> (ap_id: Result<
    String,
    Error,
>)
    ensures
        match ap_id {
            Ok(url) => local_article_url(*local, config.federation.secure, title@) == Some(url@),
            Err(e) => e == Error::InvalidUrl && local_article_url(
                *local,
                config.federation.secure,
                title@,
            ) is None,
        },
{
    let domain = match extract_domain(local.ap_id.as_str()) {
        Err(e) => {
            return Err(e);
        },
        Ok(d) => d,
    };
    let scheme = http_protocol_str(config.federation.secure);
    let base = join(join(scheme, "://").as_str(), domain.as_str());
    let raw = join(join(base.as_str(), "/article/").as_str(), title);
    match parse_url(raw.as_str()) {
        Some(url) => Ok(url),
        None => Err(Error::InvalidUrl),
    }
}

/// `delivery` tells the followers of the local instance of a new article,
/// or is nothing where the activity cannot be made.
pub open spec fn creation_delivery(
    s: StoreState,
    article: DbArticle,
    activity_id: String,
    delivery: Option<Outbound>,
) -> bool {
    match delivery {
        Some(out) => broadcast_refusal(s, article) is None && creation_sent(
            s,
            article,
            activity_id,
            out,
        ),
        None => broadcast_refusal(s, article) is Some,
    }
}

/// What a fork has led to.
#[derive(Debug, PartialEq)]
pub struct ForkReport {
    /// The new article with its edits.
    pub view: ArticleView,
    /// What has to go out to other instances.
    pub delivery: Option<Outbound>,
}

/// Why an article cannot be forked, if it cannot.
pub open spec fn fork_refusal(s: StoreState, config: &IbisConfig, form: ForkArticleForm) -> Option<
    Error,
> {
    match s.article_pos(form.article_id) {
        None => Some(Error::ArticleNotFound),
        Some(i) => match s.local_instance_pos() {
            None => Some(Error::InstanceNotFound),
            Some(l) => {
                let url = local_article_url(
                    s.instances[l],
                    config.federation.secure,
                    normal_title(form.new_title@),
                );
                if url is None {
                    Some(Error::InvalidUrl)
                } else if title_refusal(form.new_title@) is Some {
                    title_refusal(form.new_title@)
                } else if s.article_pos_by_ap_id(url->0) is Some {
                    Some(Error::DuplicateArticle)
                } else if s.next_article >= i32::MAX || s.next_edit + s.histories[i].len()
                    > i32::MAX {
                    Some(Error::IdsExhausted)
                } else if exists|k: int|
                    0 <= k < s.histories[i].len() && url_normal_form(
                        edit_url_text(url->0, (#[trigger] s.histories[i][k]).hash@),
                    ) is None {
                    Some(Error::InvalidUrl)
                } else {
                    None
                }
            },
        },
    }
}

/// `copy` is the edit `source` as it stands in the history of the article
/// `fork`: it keeps version, diff, summary, creator and parent, and has an
/// identity, a federation identifier and a time of its own.
pub open spec fn copy_of(
    source: DbEdit,
    copy: DbEdit,
    fork: DbArticle,
    id: int,
    now: Timestamp,
) -> bool {
    &&& copy.id.0 == id
    &&& copy.creator_id == source.creator_id
    &&& copy.hash == source.hash
    &&& copy.diff == source.diff
    &&& copy.summary == source.summary
    &&& copy.article_id == fork.id
    &&& copy.previous_version_id == source.previous_version_id
    &&& copy.published == now
    &&& url_normal_form(edit_url_text(fork.ap_id@, source.hash@)) == Some(copy.ap_id@)
}

/// What a fork has done: the store holds one more article, `fork`, which is
/// local, has the text of the source, and a history that holds a copy of
/// every edit of the source, in the same order. Nothing else has changed.
pub open spec fn forked(
    before: StoreState,
    after: StoreState,
    config: &IbisConfig,
    form: ForkArticleForm,
    now: Timestamp,
    fork: DbArticle,
) -> bool {
    let i = before.article_pos(form.article_id)->0;
    let n = before.articles.len() as int;
    let local = before.instances[before.local_instance_pos()->0];
    &&& fork.id.0 == before.next_article
    &&& fork.title@ == normal_title(form.new_title@)
    &&& fork.text == before.articles[i].text
    &&& local_article_url(local, config.federation.secure, normal_title(form.new_title@)) == Some(
        fork.ap_id@,
    )
    &&& fork.instance_id == local.id
    &&& fork.local
    &&& !fork.protected
    &&& fork.approved == !config.options.article_approval
    &&& fork.published == now
    &&& after.histories.len() == n + 1
    &&& after.histories[n].len() == before.histories[i].len()
    &&& forall|k: int|
        0 <= k < before.histories[i].len() ==> copy_of(
            before.histories[i][k],
            #[trigger] after.histories[n][k],
            fork,
            before.next_edit + k,
            now,
        )
    &&& after == before.with_new_history(fork, after.histories[n])
}

/// Copies of the edits of a history for the article `fork`, with
/// identifiers from `first_id` on.
fn copy_edits(edits: &Vec<DbEdit>, fork: &DbArticle, first_id: i32, now: Timestamp) -> (copies:
    Result<Vec<DbEdit>, Error>)
    requires
        first_id + edits.len() <= i32::MAX,
    ensures
        match copies {
            Ok(c) => {
                &&& c.len() == edits.len()
                &&& forall|j: int|
                    0 <= j < edits.len() ==> copy_of(
                        edits@[j],
                        #[trigger] c@[j],
                        *fork,
                        first_id + j,
                        now,
                    )
            },
            Err(e) => {
                &&& e == Error::InvalidUrl
                &&& exists|k: int|
                    0 <= k < edits.len() && url_normal_form(
                        edit_url_text(fork.ap_id@, (#[trigger] edits@[k]).hash@),
                    ) is None
            },
        },
{
    let mut copies: Vec<DbEdit> = Vec::new();
    let mut next: i32 = first_id;
    let mut k: usize = 0;
    while k < edits.len()
        invariant
            k <= edits.len(),
            next == first_id + k,
            first_id + edits.len() <= i32::MAX,
            copies.len() == k,
            forall|j: int|
                0 <= j < k ==> copy_of(edits@[j], #[trigger] copies@[j], *fork, first_id + j, now),
        decreases edits.len() - k,
    {
        let source = &edits[k];
        let edit_ap_id = match DbEditForm::generate_ap_id(fork, &source.hash) {
            Err(e) => {
                assert(url_normal_form(edit_url_text(fork.ap_id@, edits@[k as int].hash@))
                    is None);
                return Err(e);
            },
            Ok(url) => url,
        };
        copies.push(
            DbEdit {
                id: EditId(next),
                creator_id: source.creator_id,
                hash: source.hash,
                ap_id: edit_ap_id,
                diff: source.diff.clone(),
                summary: source.summary.clone(),
                article_id: fork.id,
                previous_version_id: source.previous_version_id,
                published: now,
            },
        );
        next = next + 1;
        k += 1;
    }
    Ok(copies)
}

/// Stores a new article together with its edits.
fn push_history(store: &mut Store, article: DbArticle, edits: Vec<DbEdit>)
    requires
        old(store).wf(),
        article.id.0 == old(store).state().next_article,
        old(store).state().next_article < i32::MAX,
        old(store).state().next_edit + edits.len() <= i32::MAX,
        old(store).state().article_pos_by_ap_id(article.ap_id@) is None,
        forall|k: int|
            0 <= k < edits.len() ==> (#[trigger] edits@[k]).article_id == article.id
                && edits@[k].id.0 < old(store).state().next_edit + edits.len(),
    ensures
        final(store).wf(),
        final(store).state() == old(store).state().with_new_history(article, edits@),
        final(store).state().article_pos(article.id) == Some(
            old(store).state().articles.len() as int,
        ),
{
    let ghost before = store.state();
    let count = edits.len();
    proof {
        before.lemma_counters();
    }
    let ghost history = edits@;
    store.rows.push(ArticleRow { article, edits });
    store.next_article = store.next_article + 1;
    store.next_edit = store.next_edit + count as i32;
    proof {
        let after = store.state();
        assert(after.articles =~= before.articles.push(article));
        assert(after.histories =~= before.histories.push(history));
        before.lemma_with_new_history(article, history);
        after.lemma_article_pos(before.articles.len() as int);
    }
}

/// Forks an article to the local instance: the new article starts with the
/// text and with a copy of the whole history of the source. From then on
/// the two go their own ways. As for a created article, the title is stored
/// with underscores for spaces, and the federation identifier is made from
/// the title in that form.
pub fn fork_article(
    store: &mut Store,
    config: &IbisConfig,
    fork_form: ForkArticleForm,
    now: Timestamp,
    activity_id: String,
) -> (report: Result<ForkReport, Error>)
    requires
        old(store).wf(),
    ensures
        final(store).wf(),
        old(store).state().all_consistent() ==> final(store).state().all_consistent(),
        match report {
            Ok(r) => {
                let n = old(store).state().articles.len() as int;
                &&& fork_refusal(old(store).state(), config, fork_form) is None
                &&& forked(
                    old(store).state(),
                    final(store).state(),
                    config,
                    fork_form,
                    now,
                    r.view.article,
                )
                &&& article_view(final(store).state(), n, r.view)
                &&& creation_delivery(final(store).state(), r.view.article, activity_id, r.delivery)
            },
            Err(e) => {
                &&& fork_refusal(old(store).state(), config, fork_form) == Some(e)
                &&& final(store).state() == old(store).state()
            },
        },
{
    let ghost before = store.state();
    proof {
        before.lemma_counters();
    }
    let i = match store.find_article(fork_form.article_id) {
        None => {
            return Err(Error::ArticleNotFound);
        },
        Some(i) => i,
    };
    let l = match store.find_local_instance() {
        None => {
            return Err(Error::InstanceNotFound);
        },
        Some(l) => l,
    };
    let title = replace_char(fork_form.new_title.as_str(), ' ', '_');
    let ap_id = match local_article_ap_id(&store.instances[l], config, title.as_str()) {
        Err(e) => {
            return Err(e);
        },
        Ok(url) => url,
    };
    match validate_title(fork_form.new_title.as_str()) {
        Err(e) => {
            return Err(e);
        },
        Ok(_) => {},
    }
    if store.find_article_by_ap_id(ap_id.as_str()).is_some() {
        return Err(Error::DuplicateArticle);
    }
    let count = store.rows[i].edits.len();
    if store.next_article >= i32::MAX || count > 0x7fff_ffff {
        return Err(Error::IdsExhausted);
    }
    if count as i32 > i32::MAX - store.next_edit {
        return Err(Error::IdsExhausted);
    }
    let fork = DbArticle {
        id: ArticleId(store.next_article),
        title,
        text: store.rows[i].article.text.clone(),
        ap_id,
        instance_id: store.instances[l].id,
        local: true,
        protected: false,
        approved: !config.options.article_approval,
        published: now,
    };
    let copies = match copy_edits(&store.rows[i].edits, &fork, store.next_edit, now) {
        Err(e) => {
            return Err(e);
        },
        Ok(copies) => copies,
    };
    let ghost history = copies@;
    let ghost stored = fork;
    let n = store.rows.len();
    proof {
        assert forall|j: int| 0 <= j < before.histories[i as int].len() implies url_normal_form(
            edit_url_text(fork.ap_id@, (#[trigger] before.histories[i as int][j]).hash@),
        ) is Some by {
            assert(copy_of(
                before.histories[i as int][j],
                history[j],
                fork,
                before.next_edit + j,
                now,
            ));
        }
        assert forall|j: int| 0 <= j < history.len() implies (#[trigger] history[j]).article_id
            == fork.id && history[j].id.0 < before.next_edit + history.len() by {
            assert(copy_of(
                before.histories[i as int][j],
                history[j],
                fork,
                before.next_edit + j,
                now,
            ));
        }
    }
    push_history(store, fork, copies);
    proof {
        if before.all_consistent() {
            assert(same_chain(before.histories[i as int], history)) by {
                assert forall|k: int| 0 <= k < history.len() implies {
                    &&& (#[trigger] before.histories[i as int][k]).hash@ == (
                    #[trigger] history[k]).hash@
                    &&& before.histories[i as int][k].previous_version_id@
                        == history[k].previous_version_id@
                    &&& before.histories[i as int][k].diff@ == history[k].diff@
                } by {
                    assert(copy_of(
                        before.histories[i as int][k],
                        history[k],
                        stored,
                        before.next_edit + k,
                        now,
                    ));
                }
            }
            assert(consistent(before.articles[i as int].text@, before.histories[i as int]));
            lemma_same_chain_consistent(
                before.articles[i as int].text@,
                before.histories[i as int],
                history,
            );
            before.lemma_with_new_history_consistent(stored, history);
        }
    }
    let view = view_at(store, n);
    let delivery = match CreateArticle::send_to_followers(view.article.clone(), store, activity_id) {
        Ok(out) => Some(out),
        Err(_) => None,
    };
    Ok(ForkReport { view, delivery })
}

/// What the creation of an article has led to.
#[derive(Debug, PartialEq)]
pub struct CreateReport {
    /// The new article with its first edit.
    pub view: ArticleView,
    /// The announcement of the first edit, to go out to other instances.
    pub updated: Option<Outbound>,
    /// The announcement of the article, to go out to other instances.
    pub created: Option<Outbound>,
}

/// Why the first edit of a new article with the given federation identifier
/// is refused, if it is.
pub open spec fn first_edit_refusal(
    s: StoreState,
    domain: Seq<char>,
    article_url: Seq<char>,
    text: Seq<char>,
    summary: Seq<char>,
    canonical: Option<Seq<char>>,
) -> Option<Error> {
    if text.len() == 0 {
        Some(Error::NoChanges)
    } else if summary.len() == 0 {
        Some(Error::EmptySummary)
    } else if text_refusal(text, domain, canonical) is Some {
        text_refusal(text, domain, canonical)
    } else {
        let diff = unified_diff(Seq::empty(), canonical->0);
        if applied_text(Seq::empty(), diff) != canonical {
            Some(Error::PatchFailed)
        } else if url_normal_form(edit_url_text(article_url, version_of(diff))) is None {
            Some(Error::InvalidUrl)
        } else if s.next_edit >= i32::MAX {
            Some(Error::IdsExhausted)
        } else {
            None
        }
    }
}

/// Why an article cannot be created, if it cannot.
pub open spec fn creation_refusal(
    s: StoreState,
    config: &IbisConfig,
    form: CreateArticleForm,
    canonical: Option<Seq<char>>,
) -> Option<Error> {
    if title_refusal(form.title@) is Some {
        title_refusal(form.title@)
    } else {
        match s.local_instance_pos() {
            None => Some(Error::InstanceNotFound),
            Some(l) => {
                let url = local_article_url(
                    s.instances[l],
                    config.federation.secure,
                    normal_title(form.title@),
                );
                if url is None {
                    Some(Error::InvalidUrl)
                } else if s.article_pos_by_ap_id(url->0) is Some {
                    Some(Error::DuplicateArticle)
                } else if s.next_article >= i32::MAX {
                    Some(Error::IdsExhausted)
                } else {
                    first_edit_refusal(
                        s,
                        config.federation.domain@,
                        url->0,
                        form.text@,
                        form.summary@,
                        canonical,
                    )
                }
            },
        }
    }
}

/// `article` and `edit` are a new local article and its first edit, as they
/// are made from a form: the edit leads from the empty text to the canonical
/// form of the submitted text, and the article holds that text, which is
/// also what the edit makes of the empty text.
pub open spec fn planned(
    before: StoreState,
    user: LocalUserView,
    config: &IbisConfig,
    form: CreateArticleForm,
    canonical: Option<Seq<char>>,
    now: Timestamp,
    article: DbArticle,
    edit: DbEdit,
) -> bool {
    let local = before.instances[before.local_instance_pos()->0];
    let diff = unified_diff(Seq::empty(), canonical->0);
    &&& article.id.0 == before.next_article
    &&& article.title@ == normal_title(form.title@)
    &&& applied_text(Seq::empty(), diff) == Some(article.text@)
    &&& canonical == Some(article.text@)
    &&& local_article_url(local, config.federation.secure, normal_title(form.title@)) == Some(
        article.ap_id@,
    )
    &&& article.instance_id == local.id
    &&& article.local
    &&& !article.protected
    &&& article.approved == !config.options.article_approval
    &&& article.published == now
    &&& edit.id.0 == before.next_edit
    &&& edit.creator_id == user.person.id
    &&& edit.diff@ == diff
    &&& edit.hash@ == version_of(diff)
    &&& url_normal_form(edit_url_text(article.ap_id@, edit.hash@)) == Some(edit.ap_id@)
    &&& edit.summary == form.summary
    &&& edit.article_id == article.id
    &&& edit.previous_version_id@ == sentinel_version()
    &&& edit.published == now
}

/// What the creation of an article has done: the store holds one more
/// article, `article`, which is local and whose history holds one edit, from
/// the empty text to the canonical form of the submitted text. Nothing else
/// has changed.
pub open spec fn created(
    before: StoreState,
    after: StoreState,
    user: LocalUserView,
    config: &IbisConfig,
    form: CreateArticleForm,
    canonical: Option<Seq<char>>,
    now: Timestamp,
    article: DbArticle,
) -> bool {
    let n = before.articles.len() as int;
    &&& after.histories.len() == n + 1
    &&& after.histories[n].len() == 1
    &&& planned(before, user, config, form, canonical, now, article, after.histories[n][0])
    &&& after == before.with_new_history(article, after.histories[n])
    &&& consistent(article.text@, after.histories[n])
}

/// Makes a new local article and its first edit from a form, without
/// storing them.
fn plan_article(
    user: &LocalUserView,
    store: &Store,
    config: &IbisConfig,
    form: CreateArticleForm,
    formatted: Option<String>,
    now: Timestamp,
) -> (plan: Result<(DbArticle, DbEdit), Error>)
    requires
        store.wf(),
    ensures
        match plan {
            Ok((article, edit)) => {
                &&& creation_refusal(store.state(), config, form, optional_text(formatted)) is None
                &&& planned(
                    store.state(),
                    *user,
                    config,
                    form,
                    optional_text(formatted),
                    now,
                    article,
                    edit,
                )
            },
            Err(e) => creation_refusal(store.state(), config, form, optional_text(formatted))
                == Some(e),
        },
{
    proof {
        store.state().lemma_counters();
    }
    match validate_title(form.title.as_str()) {
        Err(e) => {
            return Err(e);
        },
        Ok(_) => {},
    }
    let l = match store.find_local_instance() {
        None => {
            return Err(Error::InstanceNotFound);
        },
        Some(l) => l,
    };
    let escaped_title = replace_char(form.title.as_str(), ' ', '_');
    let ap_id = match local_article_ap_id(&store.instances[l], config, escaped_title.as_str()) {
        Err(e) => {
            return Err(e);
        },
        Ok(url) => url,
    };
    if store.find_article_by_ap_id(ap_id.as_str()).is_some() {
        return Err(Error::DuplicateArticle);
    }
    if store.next_article >= i32::MAX {
        return Err(Error::IdsExhausted);
    }
    if form.text.as_str().is_empty() {
        return Err(Error::NoChanges);
    }
    if form.summary.as_str().is_empty() {
        return Err(Error::EmptySummary);
    }
    let new_text = match canonical_form(
        form.text.as_str(),
        config.federation.domain.as_str(),
        formatted,
    ) {
        Err(e) => {
            return Err(e);
        },
        Ok(text) => text,
    };
    proof {
        reveal_strlit("");
        assert(""@ =~= Seq::<char>::empty());
    }
    let diff = create_diff("", new_text.as_str());
    let text = match apply_patch("", diff.as_str()) {
        None => {
            return Err(Error::PatchFailed);
        },
        Some(text) => text,
    };
    if text != new_text {
        return Err(Error::PatchFailed);
    }
    let article = DbArticle {
        id: ArticleId(store.next_article),
        title: escaped_title,
        text,
        ap_id,
        instance_id: store.instances[l].id,
        local: true,
        protected: false,
        approved: !config.options.article_approval,
        published: now,
    };
    let hash = EditVersion::new(diff.as_str());
    let edit_ap_id = match DbEditForm::generate_ap_id(&article, &hash) {
        Err(e) => {
            return Err(e);
        },
        Ok(url) => url,
    };
    if store.next_edit >= i32::MAX {
        return Err(Error::IdsExhausted);
    }
    let edit = DbEdit {
        id: EditId(store.next_edit),
        creator_id: user.person.id,
        hash,
        ap_id: edit_ap_id,
        diff,
        summary: form.summary,
        article_id: article.id,
        previous_version_id: EditVersion::default(),
        published: now,
    };
    Ok((article, edit))
}

/// Creates a new local article with a first edit that holds its text, and
/// makes the announcements for the followers of the local instance. Where
/// the article or its first edit is refused, nothing changes. `formatted` is
/// what the Markdown formatter made of the text (see `canonical_form`), and
/// becomes the text of the article.
pub fn create_article(
    user: &LocalUserView,
    store: &mut Store,
    config: &IbisConfig,
    form: CreateArticleForm,
    formatted: Option<String>,
    now: Timestamp,
    update_activity_id: String,
    create_activity_id: String,
) -> (report: Result<CreateReport, Error>)
    requires
        old(store).wf(),
    ensures
        final(store).wf(),
        old(store).state().all_consistent() ==> final(store).state().all_consistent(),
        match report {
            Ok(r) => {
                let n = old(store).state().articles.len() as int;
                &&& creation_refusal(
                    old(store).state(),
                    config,
                    form,
                    optional_text(formatted),
                ) is None
                &&& created(
                    old(store).state(),
                    final(store).state(),
                    *user,
                    config,
                    form,
                    optional_text(formatted),
                    now,
                    r.view.article,
                )
                &&& article_view(final(store).state(), n, r.view)
                &&& match r.updated {
                    Some(out) => broadcast_refusal(final(store).state(), r.view.article) is None
                        && local_update_sent(
                        final(store).state(),
                        r.view.article,
                        Seq::empty(),
                        update_activity_id,
                        out,
                    ),
                    None => broadcast_refusal(final(store).state(), r.view.article) is Some,
                }
                &&& creation_delivery(
                    final(store).state(),
                    r.view.article,
                    create_activity_id,
                    r.created,
                )
            },
            Err(e) => {
                &&& creation_refusal(
                    old(store).state(),
                    config,
                    form,
                    optional_text(formatted),
                ) == Some(e)
                &&& final(store).state() == old(store).state()
            },
        },
{
    let ghost before = store.state();
    let (article, edit) = match plan_article(user, store, config, form, formatted, now) {
        Err(e) => {
            return Err(e);
        },
        Ok(plan) => plan,
    };
    let ghost first = edit;
    let ghost planned_article = article;
    let mut edits: Vec<DbEdit> = Vec::new();
    edits.push(edit);
    let n = store.rows.len();
    proof {
        before.lemma_counters();
        assert(edits@ =~= seq![first]);
    }
    push_history(store, article, edits);
    proof {
        let history = seq![first];
        assert(text_at(history, 0) == Some(Seq::<char>::empty()));
        assert(text_at(history, 1) == applied_text(
            Seq::<char>::empty(),
            history[0].diff@,
        ));
        assert(linked(history)) by {
            assert forall|k: int| 0 <= k < history.len() implies (
            #[trigger] history[k]).previous_version_id@ == version_at(
                history,
                k,
            ) by {}
        }
        assert(consistent(planned_article.text@, history));
        if before.all_consistent() {
            before.lemma_with_new_history_consistent(planned_article, history);
        }
    }
    let view = view_at(store, n);
    let updated = match UpdateLocalArticle::send(
        view.article.clone(),
        Vec::new(),
        store,
        update_activity_id,
    ) {
        Ok(out) => Some(out),
        Err(_) => None,
    };
    let created = match CreateArticle::send_to_followers(
        view.article.clone(),
        store,
        create_activity_id,
    ) {
        Ok(out) => Some(out),
        Err(_) => None,
    };
    Ok(CreateReport { view, updated, created })
}

/// Lets a local user follow an instance. The edge to a remote instance is
/// pending until that instance accepts; the request goes out to its inbox.
pub fn follow_instance(
    user: &LocalUserView,
    store: &mut Store,
    params: FollowInstance,
    activity_id: String,
) -> (delivery: Result<Option<Outbound>, Error>)
    requires
        old(store).wf(),
    ensures
        final(store).wf(),
        old(store).state().all_consistent() ==> final(store).state().all_consistent(),
        match delivery {
            Ok(sent) => {
                let before = old(store).state();
                let target = before.instances[before.instance_pos(params.id)->0];
                &&& before.instance_pos(params.id) is Some
                &&& final(store).state() == before.with_follow(
                    InstanceFollow {
                        instance_id: target.id,
                        follower_id: user.person.id,
                        pending: !target.local,
                    },
                )
                &&& match sent {
                    Some(out) => {
                        &&& user.person.private_key == Some(out.private_key)
                        &&& out.actor@ == user.person.ap_id@
                        &&& out.activity == InboxActivities::Follow(
                            Follow {
                                actor: user.person.ap_id,
                                object: target.ap_id,
                                id: activity_id,
                            },
                        )
                        &&& texts(out.inboxes@) == seq![target.inbox_url@]
                    },
                    None => user.person.private_key is None,
                }
            },
            Err(e) => {
                &&& e == Error::InstanceNotFound
                &&& old(store).state().instance_pos(params.id) is None
                &&& final(store).state() == old(store).state()
            },
        },
{
    let target = match DbInstance::read(params.id, store) {
        Err(e) => {
            return Err(e);
        },
        Ok(target) => target,
    };
    let pending = !target.local;
    DbInstance::follow(&user.person, &target, pending, store);
    match Follow::send(user.person.clone(), &target, activity_id) {
        Ok(out) => Ok(Some(out)),
        Err(_) => Ok(None),
    }
}

/// Lists the articles that have been edited, most recently edited first.
pub fn list_articles(query: ListArticlesForm, store: &Store) -> (articles: Vec<DbArticle>)
    requires
        store.wf(),
    ensures
        articles@ == listing(store.state(), query.only_local, query.instance_id),
{
    DbArticle::read_all(query.only_local, query.instance_id, store)
}

/// Decides on an article that waits for approval: an approved article is
/// made visible, one that is not approved is removed. Only an admin may decide.
pub fn approve_article(
    user: &LocalUserView,
    store: &mut Store,
    params: ApproveArticleForm,
) -> (decided: Result<(), Error>)
    requires
        old(store).wf(),
    ensures
        final(store).wf(),
        old(store).state().all_consistent() ==> final(store).state().all_consistent(),
        match decided {
            Ok(_) => {
                let before = old(store).state();
                let i = before.article_pos(params.article_id)->0;
                &&& user.local_user.admin
                &&& before.article_pos(params.article_id) is Some
                &&& if params.approve {
                    &&& final(store).state() == before.with_article(
                        i,
                        final(store).state().articles[i],
                    )
                    &&& final(store).state().articles[i] == DbArticle {
                        approved: true,
                        ..before.articles[i]
                    }
                } else {
                    final(store).state() == before.with_article_deleted(i)
                }
            },
            Err(e) => {
                &&& final(store).state() == old(store).state()
                &&& e == if !user.local_user.admin {
                    Error::NotAdmin
                } else {
                    Error::ArticleNotFound
                }
                &&& !user.local_user.admin || old(store).state().article_pos(params.article_id)
                    is None
            },
        },
{
    match check_is_admin(user) {
        Err(e) => {
            return Err(e);
        },
        Ok(_) => {},
    }
    if params.approve {
        match DbArticle::update_approved(params.article_id, true, store) {
            Ok(_) => Ok(()),
            Err(e) => Err(e),
        }
    } else {
        match DbArticle::delete(params.article_id, store) {
            Ok(_) => Ok(()),
            Err(e) => Err(e),
        }
    }
}

/// Searches the articles for those whose title or text answers a query.
pub fn search_article(query: SearchArticleForm, store: &Store) -> (hits: Result<
    Vec<DbArticle>,
    Error,
>)
    requires
        store.wf(),
    ensures
        match hits {
            Ok(articles) => query.query@.len() > 0 && articles@ == hits_upto(
                store.state(),
                query.query@,
                store.state().articles.len() as int,
            ),
            Err(e) => e == Error::EmptyQuery && query.query@.len() == 0,
        },
{
    if query.query.as_str().is_empty() {
        return Err(Error::EmptyQuery);
    }
    Ok(DbArticle::search(query.query.as_str(), store))
}

/// Looks a person up by name, and by domain for a person of another instance.
pub fn get_user(params: GetUserForm, config: &IbisConfig, store: &Store) -> (found: Result<
    DbPerson,
    Error,
>)
    requires
        store.wf(),
    ensures
        match found {
            Ok(person) => {
                let pos = named_pos(
                    store.state(),
                    params.name@,
                    optional_text(params.domain),
                    config.federation.secure,
                );
                pos is Some && person == store.state().persons[pos->0]
            },
            Err(e) => e == Error::PersonNotFound && named_pos(
                store.state(),
                params.name@,
                optional_text(params.domain),
                config.federation.secure,
            ) is None,
        },
{
    DbPerson::read_from_name(params.name.as_str(), &params.domain, config.federation.secure, store)
}

/// Registers a new local user, where the instance takes new users. What the
/// form holds as the password is stored as it is: the caller hands in the
/// hash. The key pair is the caller's to make as well.
pub fn register_user(
    config: &IbisConfig,
    store: &mut Store,
    params: RegisterUserForm,
    public_key: String,
    private_key: String,
    now: Timestamp,
) -> (registered: Result<LocalUserView, Error>)
    requires
        old(store).wf(),
    ensures
        final(store).wf(),
        old(store).state().all_consistent() ==> final(store).state().all_consistent(),
        match registered {
            Ok(view) => {
                let before = old(store).state();
                &&& config.options.registration_open
                &&& local_user_refusal(before, config, params.username@) is None
                &&& view.person.username == params.username
                &&& view.person.local
                &&& view.person.public_key == public_key
                &&& view.person.private_key == Some(private_key)
                &&& view.person.id.0 == before.next_person
                &&& view.local_user.password_encrypted == params.password
                &&& view.local_user.person_id == view.person.id
                &&& view.local_user.id.0 == before.next_local_user
                &&& !view.local_user.admin
                &&& view.following@.len() == 0
                &&& final(store).state() == before.with_new_person(
                    view.person,
                ).with_new_local_user(view.local_user)
            },
            Err(e) => {
                &&& final(store).state() == old(store).state()
                &&& if !config.options.registration_open {
                    e == Error::RegistrationClosed
                } else {
                    local_user_refusal(old(store).state(), config, params.username@) == Some(e)
                }
            },
        },
{
    if !config.options.registration_open {
        return Err(Error::RegistrationClosed);
    }
    DbPerson::create_local(
        params.username,
        params.password,
        public_key,
        private_key,
        false,
        store,
        config,
        now,
    )
}

/// Shows an instance with its followers: the one with the given id, or
/// without an id the local instance.
pub fn get_instance(params: GetInstance, store: &Store) -> (view: Result<InstanceView, Error>)
    requires
        store.wf(),
    ensures
        match view {
            Ok(v) => {
                let s = store.state();
                let pos = match params.id {
                    Some(i) => s.instance_pos(i),
                    None => s.local_instance_pos(),
                };
                &&& pos is Some
                &&& v.instance == s.instances[pos->0]
                &&& v.followers@ == followers_of(s, v.instance.id)
            },
            Err(e) => e == Error::InstanceNotFound && match params.id {
                Some(i) => store.state().instance_pos(i) is None,
                None => store.state().local_instance_pos() is None,
            },
        },
{
    DbInstance::read_view(params.id, store)
}

} // verus!
