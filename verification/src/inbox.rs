use crate::activities::{
    distinct, texts, Accept, AnnouncableActivities, AnnounceActivity, CreateArticle, Follow,
    InboxActivities, Outbound, RejectEdit, UpdateLocalArticle, UpdateRemoteArticle,
};
use crate::address::{urls_match, verify_urls_match};
use crate::common::{DbArticle, DbInstance, InstanceFollow};
use crate::conflict::{DbConflict, DbConflictForm};
use crate::edit::{append_refusal, appended};
use crate::error::Error;
use crate::hydrate::{article_received, article_refusal};
use crate::instance::followers_of;
use crate::newtypes::Timestamp;
use crate::objects::ApubArticle;
use crate::outbox::{
    accept_sent, broadcast_refusal, instance_inboxes, local_update_sent, person_inboxes,
    rejection_sent,
};
use crate::store::{Store, StoreState};
use crate::version::version_of;
use vstd::prelude::*;

verus! {

/// What the receipt of an activity asks of the caller.
#[derive(Debug, PartialEq)]
pub struct Received {
    /// What has to go out to other instances.
    pub delivery: Option<Outbound>,
    /// The URL of a collection of edits that has to be fetched and taken in,
    /// so that the store knows the history of an article that it has heard of.
    pub fetch: Option<String>,
}

/// Why a request to follow is refused, if it is.
pub open spec fn follow_refusal(s: StoreState, follow: Follow) -> Option<Error> {
    if s.person_pos_by_ap_id(follow.actor@) is None {
        Some(Error::PersonNotFound)
    } else {
        match s.local_instance_pos() {
            None => Some(Error::InstanceNotFound),
            Some(l) => match urls_match(follow.object@, s.instances[l].ap_id@) {
                Err(e) => Some(e),
                Ok(_) => None,
            },
        }
    }
}

/// What the receipt of a request to follow has done: the person who asked
/// follows the local instance by an established edge, and an acceptance is
/// on its way to that person's inbox.
pub open spec fn follow_received(
    before: StoreState,
    after: StoreState,
    follow: Follow,
    activity_id: String,
    received: Received,
) -> bool {
    let actor = before.persons[before.person_pos_by_ap_id(follow.actor@)->0];
    let local = before.instances[before.local_instance_pos()->0];
    &&& after == before.with_follow(
        InstanceFollow { instance_id: local.id, follower_id: actor.id, pending: false },
    )
    &&& received.fetch is None
    &&& match received.delivery {
        Some(out) => accept_sent(before, local, follow, activity_id, out),
        None => local.private_key is None,
    }
}

impl Follow {
    /// The sender of a request to follow must be known.
    pub fn verify(&self, store: &Store) -> (checked: Result<(), Error>)
        requires
            store.wf(),
        ensures
            checked == if store.state().person_pos_by_ap_id(self.actor@) is Some {
                Ok::<(), Error>(())
            } else {
                Err::<(), Error>(Error::PersonNotFound)
            },
    {
        match store.find_person_by_ap_id(self.actor.as_str()) {
            Some(_) => Ok(()),
            None => Err(Error::PersonNotFound),
        }
    }

    /// Takes a request to follow the local instance: the request is granted
    /// at once, and the acceptance is made ready to go out.
    pub fn receive(self, store: &mut Store, activity_id: String) -> (received: Result<
        Received,
        Error,
    >)
        requires
            old(store).wf(),
        ensures
            final(store).wf(),
            old(store).state().all_consistent() ==> final(store).state().all_consistent(),
            match received {
                Ok(r) => follow_refusal(old(store).state(), self) is None && follow_received(
                    old(store).state(),
                    final(store).state(),
                    self,
                    activity_id,
                    r,
                ),
                Err(e) => {
                    &&& follow_refusal(old(store).state(), self) == Some(e)
                    &&& final(store).state() == old(store).state()
                },
            },
    {
        let a = match store.find_person_by_ap_id(self.actor.as_str()) {
            None => {
                return Err(Error::PersonNotFound);
            },
            Some(a) => a,
        };
        let l = match store.find_local_instance() {
            None => {
                return Err(Error::InstanceNotFound);
            },
            Some(l) => l,
        };
        match verify_urls_match(self.object.as_str(), store.instances[l].ap_id.as_str()) {
            Err(e) => {
                return Err(e);
            },
            Ok(_) => {},
        }
        let actor = store.persons[a].clone();
        let local_instance = store.instances[l].clone();
        DbInstance::follow(&actor, &local_instance, false, store);
        let delivery = match Accept::send(local_instance, self, store, activity_id) {
            Ok(out) => Some(out),
            Err(_) => None,
        };
        Ok(Received { delivery, fetch: None })
    }
}

/// Why an acceptance is refused, if it is: the person whose request was
/// accepted must be a local one, and the instance that accepted must be known.
pub open spec fn accept_refusal(s: StoreState, accept: Accept) -> Option<Error> {
    match s.person_pos_by_ap_id(accept.object.actor@) {
        None => Some(Error::PersonNotFound),
        Some(p) => if !s.persons[p].local {
            Some(Error::PersonNotFound)
        } else if s.instance_pos_by_ap_id(accept.actor@) is None {
            Some(Error::InstanceNotFound)
        } else {
            None
        },
    }
}

/// What the receipt of an acceptance has done: the edge from the local person
/// to the instance that accepted is established.
pub open spec fn accept_received(before: StoreState, after: StoreState, accept: Accept) -> bool {
    let person = before.persons[before.person_pos_by_ap_id(accept.object.actor@)->0];
    let instance = before.instances[before.instance_pos_by_ap_id(accept.actor@)->0];
    after == before.with_follow(
        InstanceFollow { instance_id: instance.id, follower_id: person.id, pending: false },
    )
}

impl Accept {
    /// Nothing is asked of an acceptance before it is taken in.
    pub fn verify(&self) -> (checked: Result<(), Error>)
        ensures
            checked == Ok::<(), Error>(()),
    {
        Ok(())
    }

    /// Takes the acceptance of a local person's request to follow an instance.
    pub fn receive(self, store: &mut Store) -> (received: Result<Received, Error>)
        requires
            old(store).wf(),
        ensures
            final(store).wf(),
            old(store).state().all_consistent() ==> final(store).state().all_consistent(),
            match received {
                Ok(r) => {
                    &&& accept_refusal(old(store).state(), self) is None
                    &&& accept_received(old(store).state(), final(store).state(), self)
                    &&& r.delivery is None
                    &&& r.fetch is None
                },
                Err(e) => {
                    &&& accept_refusal(old(store).state(), self) == Some(e)
                    &&& final(store).state() == old(store).state()
                },
            },
    {
        let p = match store.find_person_by_ap_id(self.object.actor.as_str()) {
            None => {
                return Err(Error::PersonNotFound);
            },
            Some(p) => p,
        };
        if !store.persons[p].local {
            return Err(Error::PersonNotFound);
        }
        let i = match store.find_instance_by_ap_id(self.actor.as_str()) {
            None => {
                return Err(Error::InstanceNotFound);
            },
            Some(i) => i,
        };
        let person = store.persons[p].clone();
        let instance = store.instances[i].clone();
        DbInstance::follow(&person, &instance, false, store);
        Ok(Received { delivery: None, fetch: None })
    }
}

/// What the receipt of news of an article has done, be it of its creation
/// or of an update: the article is in the store as the document describes
/// it, and unless the article is a local one, its edits are to be fetched.
pub open spec fn article_taken(
    before: StoreState,
    after: StoreState,
    json: ApubArticle,
    now: Timestamp,
    fetch: Option<String>,
) -> bool {
    let k = after.article_pos_by_ap_id(json.id@)->0;
    &&& after.article_pos_by_ap_id(json.id@) is Some
    &&& article_received(before, after, json, now, after.articles[k])
    &&& if after.articles[k].local {
        fetch is None
    } else {
        fetch == Some(json.edits)
    }
}

/// The article that the store holds under a federation identifier.
pub open spec fn taken_article(s: StoreState, ap_id: Seq<char>) -> Option<DbArticle> {
    match s.article_pos_by_ap_id(ap_id) {
        Some(k) => Some(s.articles[k]),
        None => None,
    }
}

/// Takes the article of an activity into the store.
fn take_article(json: ApubArticle, store: &mut Store, now: Timestamp) -> (taken:
    Result<(DbArticle, Option<String>), Error>)
    requires
        old(store).wf(),
    ensures
        final(store).wf(),
        match taken {
            Ok((article, fetch)) => {
                &&& article_refusal(old(store).state(), json) is None
                &&& article_taken(old(store).state(), final(store).state(), json, now, fetch)
                &&& final(store).state().article_pos_by_ap_id(json.id@) is Some
                &&& Some(article) == taken_article(final(store).state(), json.id@)
            },
            Err(e) => {
                &&& article_refusal(old(store).state(), json) == Some(e)
                &&& final(store).state() == old(store).state()
            },
        },
{
    let edits = json.edits.clone();
    let ghost before = store.state();
    match DbArticle::from_json(json, store, now) {
        Err(e) => Err(e),
        Ok(article) => {
            proof {
                let after = store.state();
                match before.article_pos_by_ap_id(json.id@) {
                    Some(k) => {
                        before.lemma_article_pos(k);
                        assert(after.articles[k] == article);
                        after.lemma_article_pos(k);
                    },
                    None => {
                        let n = before.articles.len() as int;
                        assert(after.articles[n] == article);
                        after.lemma_article_pos(n);
                    },
                }
            }
            let fetch = if article.local {
                None
            } else {
                Some(edits)
            };
            Ok((article, fetch))
        },
    }
}

/// What the receipt of news of a new article has done: besides taking the
/// article in, where the article is a local one the same activity is passed
/// on to the followers of the local instance.
pub open spec fn creation_received(
    before: StoreState,
    after: StoreState,
    create: CreateArticle,
    now: Timestamp,
    received: Received,
) -> bool {
    let article = after.articles[after.article_pos_by_ap_id(create.object.id@)->0];
    &&& article_taken(before, after, create.object, now, received.fetch)
    &&& if article.local {
        match received.delivery {
            Some(out) => {
                let local = after.instances[after.local_instance_pos()->0];
                &&& after.local_instance_pos() is Some
                &&& local.private_key == Some(out.private_key)
                &&& out.actor@ == local.ap_id@
                &&& out.activity == InboxActivities::CreateArticle(create)
                &&& texts(out.inboxes@) == distinct(
                    person_inboxes(followers_of(after, local.id)),
                )
            },
            None => after.local_instance_pos() is None
                || after.instances[after.local_instance_pos()->0].private_key is None,
        }
    } else {
        received.delivery is None
    }
}

impl CreateArticle {
    /// Nothing is asked of news of an article before it is taken in.
    pub fn verify(&self) -> (checked: Result<(), Error>)
        ensures
            checked == Ok::<(), Error>(()),
    {
        Ok(())
    }

    /// Takes news of a new article: the article is taken into the store, and
    /// where it is a local one the news is passed on to the followers of the
    /// local instance.
    pub fn receive(self, store: &mut Store, now: Timestamp) -> (received: Result<Received, Error>)
        requires
            old(store).wf(),
        ensures
            final(store).wf(),
            match received {
                Ok(r) => article_refusal(old(store).state(), self.object) is None
                    && creation_received(old(store).state(), final(store).state(), self, now, r),
                Err(e) => {
                    &&& article_refusal(old(store).state(), self.object) == Some(e)
                    &&& final(store).state() == old(store).state()
                },
            },
    {
        let (article, fetch) = match take_article(self.object.clone(), store, now) {
            Err(e) => {
                return Err(e);
            },
            Ok(taken) => taken,
        };
        let delivery = if article.local {
            match store.find_local_instance() {
                None => None,
                Some(l) => {
                    let none: Vec<DbInstance> = Vec::new();
                    proof {
                        let followers = person_inboxes(
                            followers_of(
                                store.state(),
                                store.instances@[l as int].id,
                            ),
                        );
                        assert(followers + instance_inboxes(none@) =~= followers);
                    }
                    match store.instances[l].send_to_followers(
                        InboxActivities::CreateArticle(self),
                        &none,
                        store,
                    ) {
                        Ok(out) => Some(out),
                        Err(_) => None,
                    }
                },
            }
        } else {
            None
        };
        Ok(Received { delivery, fetch })
    }
}

impl UpdateLocalArticle {
    /// Nothing is asked of news of an article before it is taken in.
    pub fn verify(&self) -> (checked: Result<(), Error>)
        ensures
            checked == Ok::<(), Error>(()),
    {
        Ok(())
    }

    /// Takes the news that the instance of origin has committed an edit: the
    /// article is brought up to date, and its edits are to be fetched.
    pub fn receive(self, store: &mut Store, now: Timestamp) -> (received: Result<Received, Error>)
        requires
            old(store).wf(),
        ensures
            final(store).wf(),
            match received {
                Ok(r) => {
                    &&& article_refusal(old(store).state(), self.object) is None
                    &&& article_taken(
                        old(store).state(),
                        final(store).state(),
                        self.object,
                        now,
                        r.fetch,
                    )
                    &&& r.delivery is None
                },
                Err(e) => {
                    &&& article_refusal(old(store).state(), self.object) == Some(e)
                    &&& final(store).state() == old(store).state()
                },
            },
    {
        match take_article(self.object, store, now) {
            Err(e) => Err(e),
            Ok((_, fetch)) => Ok(Received { delivery: None, fetch }),
        }
    }
}

/// Why a proposed edit cannot even be considered, if it cannot: the article,
/// the person who made the edit and the instance that proposes it must be known.
pub open spec fn proposal_unknown(s: StoreState, update: UpdateRemoteArticle) -> Option<Error> {
    if s.article_pos_by_ap_id(update.object.object@) is None {
        Some(Error::ArticleNotFound)
    } else if s.person_pos_by_ap_id(update.object.attributed_to@) is None {
        Some(Error::PersonNotFound)
    } else if s.instance_pos_by_ap_id(update.actor@) is None {
        Some(Error::InstanceNotFound)
    } else {
        None
    }
}

/// Whether the instance of origin takes a proposed edit: the article must be
/// a local one that is not protected, the edit must be based on the
/// article's latest version, and its diff must apply to the article's text.
pub open spec fn proposal_accepted(s: StoreState, update: UpdateRemoteArticle) -> bool {
    let article = s.articles[s.article_pos_by_ap_id(update.object.object@)->0];
    &&& article.local
    &&& !article.protected
    &&& append_refusal(s, article.id, update.object.content@, update.object.previous_version@)
        is None
}

/// What the receipt of a proposed edit has done. An edit that is taken is
/// appended to the article's chain in its creator's name, and the new state
/// of the article is announced to the followers of the local instance and to
/// the instance that proposed the edit. An edit that is not taken leaves the
/// store as it was, and a rejection goes to the instance that proposed it.
pub open spec fn proposal_received(
    before: StoreState,
    after: StoreState,
    update: UpdateRemoteArticle,
    activity_id: String,
    received: Received,
) -> bool {
    let i = before.article_pos_by_ap_id(update.object.object@)->0;
    let creator = before.persons[before.person_pos_by_ap_id(update.object.attributed_to@)->0];
    let proposer = before.instances[before.instance_pos_by_ap_id(update.actor@)->0];
    &&& received.fetch is None
    &&& if proposal_accepted(before, update) {
        let edit = after.histories[i].last();
        &&& after.histories[i].len() == before.histories[i].len() + 1
        &&& appended(before, after, i, edit)
        &&& edit.id.0 == before.next_edit
        &&& edit.creator_id == creator.id
        &&& edit.diff == update.object.content
        &&& edit.summary == update.object.summary
        &&& edit.hash@ == version_of(update.object.content@)
        &&& edit.article_id == before.articles[i].id
        &&& edit.previous_version_id == update.object.previous_version
        &&& edit.published == update.object.published
        &&& match received.delivery {
            Some(out) => broadcast_refusal(after, after.articles[i]) is None
                && local_update_sent(after, after.articles[i], seq![proposer], activity_id, out),
            None => broadcast_refusal(after, after.articles[i]) is Some,
        }
    } else {
        &&& after == before
        &&& match received.delivery {
            Some(out) => before.local_instance_pos() is Some && rejection_sent(
                before,
                update.object,
                proposer,
                activity_id,
                out,
            ),
            None => before.local_instance_pos() is None
                || before.instances[before.local_instance_pos()->0].private_key is None,
        }
    }
}

impl UpdateRemoteArticle {
    /// Nothing is asked of a proposed edit before it is taken in.
    pub fn verify(&self) -> (checked: Result<(), Error>)
        ensures
            checked == Ok::<(), Error>(()),
    {
        Ok(())
    }

    /// Takes an edit that another instance proposes for a local article, and
    /// decides on it.
    pub fn receive(self, store: &mut Store, activity_id: String) -> (received: Result<
        Received,
        Error,
    >)
        requires
            old(store).wf(),
        ensures
            final(store).wf(),
            old(store).state().all_consistent() ==> final(store).state().all_consistent(),
            match received {
                Ok(r) => proposal_unknown(old(store).state(), self) is None && proposal_received(
                    old(store).state(),
                    final(store).state(),
                    self,
                    activity_id,
                    r,
                ),
                Err(e) => {
                    &&& proposal_unknown(old(store).state(), self) == Some(e)
                    &&& final(store).state() == old(store).state()
                },
            },
    {
        let ghost before = store.state();
        let i = match store.find_article_by_ap_id(self.object.object.as_str()) {
            None => {
                return Err(Error::ArticleNotFound);
            },
            Some(i) => i,
        };
        let c = match store.find_person_by_ap_id(self.object.attributed_to.as_str()) {
            None => {
                return Err(Error::PersonNotFound);
            },
            Some(c) => c,
        };
        let p = match store.find_instance_by_ap_id(self.actor.as_str()) {
            None => {
                return Err(Error::InstanceNotFound);
            },
            Some(p) => p,
        };
        proof {
            before.lemma_article_pos(i as int);
        }
        let proposer = store.instances[p].clone();
        let taken = if store.rows[i].article.local && !store.rows[i].article.protected {
            match store.append_edit(
                store.rows[i].article.id,
                self.object.content.clone(),
                self.object.summary.clone(),
                store.persons[c].id,
                self.object.previous_version,
                self.object.published,
            ) {
                Ok((_, article)) => Some(article),
                Err(_) => None,
            }
        } else {
            None
        };
        let delivery = match taken {
            Some(article) => {
                let mut extra: Vec<DbInstance> = Vec::new();
                extra.push(proposer);
                assert(extra@ =~= seq![proposer]);
                match UpdateLocalArticle::send(article, extra, store, activity_id) {
                    Ok(out) => Some(out),
                    Err(_) => None,
                }
            },
            None => match RejectEdit::send(self.object, proposer, store, activity_id) {
                Ok(out) => Some(out),
                Err(_) => None,
            },
        };
        Ok(Received { delivery, fetch: None })
    }
}

/// Why a rejection cannot be taken in, if it cannot.
pub open spec fn rejection_refusal(s: StoreState, reject: RejectEdit) -> Option<Error> {
    if s.article_pos_by_ap_id(reject.object.object@) is None {
        Some(Error::ArticleNotFound)
    } else if s.person_pos_by_ap_id(reject.object.attributed_to@) is None {
        Some(Error::PersonNotFound)
    } else if s.next_conflict >= i32::MAX {
        Some(Error::IdsExhausted)
    } else {
        None
    }
}

/// What the receipt of a rejection has done: the edit that was refused is
/// queued as a conflict of the person who made it, who is told of it that way.
pub open spec fn rejection_received(
    before: StoreState,
    after: StoreState,
    reject: RejectEdit,
    now: Timestamp,
) -> bool {
    let article = before.articles[before.article_pos_by_ap_id(reject.object.object@)->0];
    let creator = before.persons[before.person_pos_by_ap_id(reject.object.attributed_to@)->0];
    let conflict = after.conflicts.last();
    &&& after.conflicts.len() == before.conflicts.len() + 1
    &&& conflict.id.0 == before.next_conflict
    &&& conflict.hash == reject.object.version
    &&& conflict.diff == reject.object.content
    &&& conflict.summary == reject.object.summary
    &&& conflict.creator_id == creator.id
    &&& conflict.article_id == article.id
    &&& conflict.previous_version_id == reject.object.previous_version
    &&& conflict.published == now
    &&& after == before.with_new_conflict(conflict)
}

impl RejectEdit {
    /// Nothing is asked of a rejection before it is taken in.
    pub fn verify(&self) -> (checked: Result<(), Error>)
        ensures
            checked == Ok::<(), Error>(()),
    {
        Ok(())
    }

    /// Takes the news that the instance of origin has refused an edit.
    pub fn receive(self, store: &mut Store, now: Timestamp) -> (received: Result<Received, Error>)
        requires
            old(store).wf(),
        ensures
            final(store).wf(),
            old(store).state().all_consistent() ==> final(store).state().all_consistent(),
            match received {
                Ok(r) => {
                    &&& rejection_refusal(old(store).state(), self) is None
                    &&& rejection_received(old(store).state(), final(store).state(), self, now)
                    &&& r.delivery is None
                    &&& r.fetch is None
                },
                Err(e) => {
                    &&& rejection_refusal(old(store).state(), self) == Some(e)
                    &&& final(store).state() == old(store).state()
                },
            },
    {
        let i = match store.find_article_by_ap_id(self.object.object.as_str()) {
            None => {
                return Err(Error::ArticleNotFound);
            },
            Some(i) => i,
        };
        let c = match store.find_person_by_ap_id(self.object.attributed_to.as_str()) {
            None => {
                return Err(Error::PersonNotFound);
            },
            Some(c) => c,
        };
        let form = DbConflictForm {
            hash: self.object.version,
            diff: self.object.content,
            summary: self.object.summary,
            creator_id: store.persons[c].id,
            article_id: store.rows[i].article.id,
            previous_version_id: self.object.previous_version,
            published: now,
        };
        match DbConflict::create(form, store) {
            Err(e) => Err(e),
            Ok(_) => Ok(Received { delivery: None, fetch: None }),
        }
    }
}

/// Why an activity that was passed on cannot be taken in, if it cannot.
pub open spec fn announced_refusal(s: StoreState, object: AnnouncableActivities) -> Option<Error> {
    match object {
        AnnouncableActivities::CreateArticle(create) => article_refusal(s, create.object),
        AnnouncableActivities::UpdateLocalArticle(update) => article_refusal(s, update.object),
    }
}

/// What the receipt of an activity that was passed on has done: what the
/// receipt of the activity itself does.
pub open spec fn announced_received(
    before: StoreState,
    after: StoreState,
    object: AnnouncableActivities,
    now: Timestamp,
    received: Received,
) -> bool {
    match object {
        AnnouncableActivities::CreateArticle(create) => creation_received(
            before,
            after,
            create,
            now,
            received,
        ),
        AnnouncableActivities::UpdateLocalArticle(update) => {
            &&& article_taken(before, after, update.object, now, received.fetch)
            &&& received.delivery is None
        },
    }
}

impl AnnouncableActivities {
    /// Checks the activity before it is taken in.
    pub fn verify(&self) -> (checked: Result<(), Error>)
        ensures
            checked == Ok::<(), Error>(()),
    {
        match self {
            AnnouncableActivities::CreateArticle(create) => create.verify(),
            AnnouncableActivities::UpdateLocalArticle(update) => update.verify(),
        }
    }

    /// Takes the activity in.
    pub fn receive(self, store: &mut Store, now: Timestamp) -> (received: Result<Received, Error>)
        requires
            old(store).wf(),
        ensures
            final(store).wf(),
            match received {
                Ok(r) => announced_refusal(old(store).state(), self) is None
                    && announced_received(old(store).state(), final(store).state(), self, now, r),
                Err(e) => {
                    &&& announced_refusal(old(store).state(), self) == Some(e)
                    &&& final(store).state() == old(store).state()
                },
            },
    {
        match self {
            AnnouncableActivities::CreateArticle(create) => create.receive(store, now),
            AnnouncableActivities::UpdateLocalArticle(update) => update.receive(store, now),
        }
    }
}

impl AnnounceActivity {
    /// An announcement is as good as the activity that it passes on.
    pub fn verify(&self) -> (checked: Result<(), Error>)
        ensures
            checked == Ok::<(), Error>(()),
    {
        self.object.verify()
    }

    /// Takes an announcement: the activity that it passes on is checked, and
    /// then taken in as if it had come by itself.
    pub fn receive(self, store: &mut Store, now: Timestamp) -> (received: Result<Received, Error>)
        requires
            old(store).wf(),
        ensures
            final(store).wf(),
            match received {
                Ok(r) => announced_refusal(old(store).state(), self.object) is None
                    && announced_received(
                    old(store).state(),
                    final(store).state(),
                    self.object,
                    now,
                    r,
                ),
                Err(e) => {
                    &&& announced_refusal(old(store).state(), self.object) == Some(e)
                    &&& final(store).state() == old(store).state()
                },
            },
    {
        match self.object.verify() {
            Err(e) => Err(e),
            Ok(_) => self.object.receive(store, now),
        }
    }
}

/// Why an activity cannot be taken in, if it cannot.
pub open spec fn inbox_refusal(s: StoreState, activity: InboxActivities) -> Option<Error> {
    match activity {
        InboxActivities::Follow(follow) => follow_refusal(s, follow),
        InboxActivities::Accept(accept) => accept_refusal(s, accept),
        InboxActivities::CreateArticle(create) => article_refusal(s, create.object),
        InboxActivities::UpdateLocalArticle(update) => article_refusal(s, update.object),
        InboxActivities::UpdateRemoteArticle(update) => proposal_unknown(s, update),
        InboxActivities::RejectEdit(reject) => rejection_refusal(s, reject),
        InboxActivities::AnnounceActivity(announce) => announced_refusal(s, announce.object),
    }
}

/// What the receipt of an activity has done, for each kind of activity.
pub open spec fn inbox_received(
    before: StoreState,
    after: StoreState,
    activity: InboxActivities,
    now: Timestamp,
    activity_id: String,
    received: Received,
) -> bool {
    match activity {
        InboxActivities::Follow(follow) => follow_received(
            before,
            after,
            follow,
            activity_id,
            received,
        ),
        InboxActivities::Accept(accept) => {
            &&& accept_received(before, after, accept)
            &&& received.delivery is None
            &&& received.fetch is None
        },
        InboxActivities::CreateArticle(create) => creation_received(
            before,
            after,
            create,
            now,
            received,
        ),
        InboxActivities::UpdateLocalArticle(update) => {
            &&& article_taken(before, after, update.object, now, received.fetch)
            &&& received.delivery is None
        },
        InboxActivities::UpdateRemoteArticle(update) => proposal_received(
            before,
            after,
            update,
            activity_id,
            received,
        ),
        InboxActivities::RejectEdit(reject) => {
            &&& rejection_received(before, after, reject, now)
            &&& received.delivery is None
            &&& received.fetch is None
        },
        InboxActivities::AnnounceActivity(announce) => announced_received(
            before,
            after,
            announce.object,
            now,
            received,
        ),
    }
}

impl InboxActivities {
    /// Checks an activity before anything is changed: the sender of a
    /// request to follow must be known; nothing is asked of the others.
    pub fn verify(&self, store: &Store) -> (checked: Result<(), Error>)
        requires
            store.wf(),
        ensures
            checked == match *self {
                InboxActivities::Follow(follow) => if store.state().person_pos_by_ap_id(
                    follow.actor@,
                ) is Some {
                    Ok::<(), Error>(())
                } else {
                    Err::<(), Error>(Error::PersonNotFound)
                },
                _ => Ok::<(), Error>(()),
            },
    {
        match self {
            InboxActivities::Follow(follow) => follow.verify(store),
            InboxActivities::Accept(accept) => accept.verify(),
            InboxActivities::CreateArticle(create) => create.verify(),
            InboxActivities::UpdateLocalArticle(update) => update.verify(),
            InboxActivities::UpdateRemoteArticle(update) => update.verify(),
            InboxActivities::RejectEdit(reject) => reject.verify(),
            InboxActivities::AnnounceActivity(announce) => announce.verify(),
        }
    }

    /// Takes an activity in, each kind in its own way. `activity_id` is the
    /// identifier for the activity that may go out in answer.
    pub fn receive(self, store: &mut Store, now: Timestamp, activity_id: String) -> (received:
        Result<Received, Error>)
        requires
            old(store).wf(),
        ensures
            final(store).wf(),
            match received {
                Ok(r) => inbox_refusal(old(store).state(), self) is None && inbox_received(
                    old(store).state(),
                    final(store).state(),
                    self,
                    now,
                    activity_id,
                    r,
                ),
                Err(e) => {
                    &&& inbox_refusal(old(store).state(), self) == Some(e)
                    &&& final(store).state() == old(store).state()
                },
            },
    {
        match self {
            InboxActivities::Follow(follow) => follow.receive(store, activity_id),
            InboxActivities::Accept(accept) => accept.receive(store),
            InboxActivities::CreateArticle(create) => create.receive(store, now),
            InboxActivities::UpdateLocalArticle(update) => update.receive(store, now),
            InboxActivities::UpdateRemoteArticle(update) => update.receive(store, activity_id),
            InboxActivities::RejectEdit(reject) => reject.receive(store, now),
            InboxActivities::AnnounceActivity(announce) => announce.receive(store, now),
        }
    }
}

/// Handles an activity that has arrived in the inbox: it is checked first,
/// and only then taken in. An activity that fails the check, or that cannot
/// be taken in, leaves the store as it was.
pub fn receive_activity(
    activity: InboxActivities,
    store: &mut Store,
    now: Timestamp,
    activity_id: String,
) -> (received: Result<Received, Error>)
    requires
        old(store).wf(),
    ensures
        final(store).wf(),
        match received {
            Ok(r) => inbox_refusal(old(store).state(), activity) is None && inbox_received(
                old(store).state(),
                final(store).state(),
                activity,
                now,
                activity_id,
                r,
            ),
            Err(e) => {
                &&& inbox_refusal(old(store).state(), activity) == Some(e)
                &&& final(store).state() == old(store).state()
            },
        },
{
    match activity.verify(store) {
        Err(e) => Err(e),
        Ok(_) => activity.receive(store, now, activity_id),
    }
}

} // verus!
