use crate::activities::{
    distinct, distinct_upto, texts, without_repetitions, Accept, AnnouncableActivities,
    AnnounceActivity, CreateArticle, Follow, InboxActivities, Outbound, RejectEdit,
    UpdateLocalArticle, UpdateRemoteArticle,
};
use crate::address::{parse_url, url_normal_form};
use crate::common::{DbArticle, DbEdit, DbInstance, DbPerson};
use crate::config::{http_protocol_str, protocol, IbisConfig};
use crate::error::Error;
use crate::instance::followers_of;
use crate::objects::{
    article_json, article_json_refusal, edit_json, edit_json_refusal, ApubEdit, PUBLIC,
};
use crate::store::{Store, StoreState};
use crate::text::join;
use vstd::prelude::*;

verus! {

/// The inboxes of a list of persons, in order.
pub open spec fn person_inboxes(persons: Seq<DbPerson>) -> Seq<Seq<char>> {
    Seq::new(persons.len(), |i: int| persons[i].inbox_url@)
}

/// The federation identifiers of a list of persons, in order.
pub open spec fn person_ids(persons: Seq<DbPerson>) -> Seq<Seq<char>> {
    Seq::new(persons.len(), |i: int| persons[i].ap_id@)
}

/// The inboxes of a list of instances, in order.
pub open spec fn instance_inboxes(instances: Seq<DbInstance>) -> Seq<Seq<char>> {
    Seq::new(instances.len(), |i: int| instances[i].inbox_url@)
}

/// The federation identifiers of a list of instances, in order.
pub open spec fn instance_ids(instances: Seq<DbInstance>) -> Seq<Seq<char>> {
    Seq::new(instances.len(), |i: int| instances[i].ap_id@)
}

/// The text from which an activity's identifier is made: scheme, domain,
/// `/objects/` and a token that the caller has drawn for this activity.
pub open spec fn activity_url_text(secure: bool, domain: Seq<char>, token: Seq<char>) -> Seq<char> {
    protocol(secure) + "://"@ + domain + "/objects/"@ + token
}

/// The identifier of a new activity of this instance. `token` makes it
/// unique: the caller draws a fresh one for every activity.
pub fn generate_activity_id(config: &IbisConfig, token: &str) -> (id: Result<String, Error>)
    ensures
        match id {
            Ok(url) => url_normal_form(
                activity_url_text(config.federation.secure, config.federation.domain@, token@),
            ) == Some(url@),
            Err(e) => e == Error::InvalidUrl && url_normal_form(
                activity_url_text(config.federation.secure, config.federation.domain@, token@),
            ) is None,
        },
{
    let scheme = http_protocol_str(config.federation.secure);
    let base = join(join(scheme, "://").as_str(), config.federation.domain.as_str());
    let raw = join(join(base.as_str(), "/objects/").as_str(), token);
    match parse_url(raw.as_str()) {
        Some(url) => Ok(url),
        None => Err(Error::InvalidUrl),
    }
}

/// The federation identifiers of a list of instances, in order.
pub fn instance_ids_of(instances: &Vec<DbInstance>) -> (ids: Vec<String>)
    ensures
        texts(ids@) == instance_ids(instances@),
{
    let mut ids: Vec<String> = Vec::new();
    let mut k: usize = 0;
    while k < instances.len()
        invariant
            k <= instances.len(),
            texts(ids@) == instance_ids(instances@).take(k as int),
        decreases instances.len() - k,
    {
        let ghost before = texts(ids@);
        ids.push(instances[k].ap_id.clone());
        assert(texts(ids@) =~= before.push(instances@[k as int].ap_id@));
        k += 1;
    }
    assert(instance_ids(instances@).take(k as int) =~= instance_ids(instances@));
    ids
}

/// One list of addresses followed by another.
pub fn joined(first: Vec<String>, second: Vec<String>) -> (both: Vec<String>)
    ensures
        texts(both@) == texts(first@) + texts(second@),
{
    let mut both = first;
    let mut second = second;
    let ghost head = texts(both@);
    let ghost tail = texts(second@);
    both.append(&mut second);
    assert(texts(both@) =~= head + tail);
    both
}

/// Makes an activity ready to go out: it is signed with the sender's private
/// key, so the sender must have one, and it goes to each inbox once.
pub fn send_activity(
    actor_id: &str,
    private_key: &Option<String>,
    activity: InboxActivities,
    recipients: Vec<String>,
) -> (sent: Result<Outbound, Error>)
    ensures
        match sent {
            Ok(out) => {
                &&& *private_key == Some(out.private_key)
                &&& out.actor@ == actor_id@
                &&& out.activity == activity
                &&& texts(out.inboxes@) == distinct(texts(recipients@))
            },
            Err(e) => e == Error::NoPrivateKey && private_key is None,
        },
{
    match private_key {
        None => Err(Error::NoPrivateKey),
        Some(key) => Ok(
            Outbound {
                actor: String::from_str(actor_id),
                private_key: key.clone(),
                activity,
                inboxes: without_repetitions(recipients),
            },
        ),
    }
}

impl DbInstance {
    /// The federation identifiers of the persons who follow the instance.
    pub fn follower_ids(&self, store: &Store) -> (ids: Vec<String>)
        requires
            store.wf(),
        ensures
            texts(ids@) == person_ids(followers_of(store.state(), self.id)),
    {
        let followers = DbInstance::read_followers(self.id, store);
        let mut ids: Vec<String> = Vec::new();
        let mut i: usize = 0;
        while i < followers.len()
            invariant
                i <= followers.len(),
                texts(ids@) == person_ids(followers@).take(i as int),
            decreases followers.len() - i,
        {
            let ghost before = texts(ids@);
            ids.push(followers[i].ap_id.clone());
            assert(texts(ids@) =~= before.push(followers@[i as int].ap_id@));
            i += 1;
        }
        assert(person_ids(followers@).take(i as int) =~= person_ids(followers@));
        ids
    }

    /// Addresses an activity of this instance to its followers, that is to
    /// the persons with an established follow edge, and to the instances
    /// named besides. Each inbox is named once.
    pub fn send_to_followers(
        &self,
        activity: InboxActivities,
        extra_recipients: &Vec<DbInstance>,
        store: &Store,
    ) -> (sent: Result<Outbound, Error>)
        requires
            store.wf(),
        ensures
            match sent {
                Ok(out) => {
                    &&& self.private_key == Some(out.private_key)
                    &&& out.actor@ == self.ap_id@
                    &&& out.activity == activity
                    &&& texts(out.inboxes@) == distinct(
                        person_inboxes(followers_of(store.state(), self.id)) + instance_inboxes(
                            extra_recipients@,
                        ),
                    )
                },
                Err(e) => e == Error::NoPrivateKey && self.private_key is None,
            },
    {
        let followers = DbInstance::read_followers(self.id, store);
        let mut inboxes: Vec<String> = Vec::new();
        let mut i: usize = 0;
        while i < followers.len()
            invariant
                i <= followers.len(),
                texts(inboxes@) == person_inboxes(followers@).take(i as int),
            decreases followers.len() - i,
        {
            let ghost before = texts(inboxes@);
            inboxes.push(followers[i].inbox_url.clone());
            assert(texts(inboxes@) =~= before.push(followers@[i as int].inbox_url@));
            i += 1;
        }
        assert(person_inboxes(followers@).take(i as int) =~= person_inboxes(followers@));
        let mut k: usize = 0;
        while k < extra_recipients.len()
            invariant
                k <= extra_recipients.len(),
                texts(inboxes@) == person_inboxes(followers@) + instance_inboxes(
                    extra_recipients@,
                ).take(k as int),
            decreases extra_recipients.len() - k,
        {
            let ghost before = texts(inboxes@);
            inboxes.push(extra_recipients[k].inbox_url.clone());
            assert(texts(inboxes@) =~= before.push(extra_recipients@[k as int].inbox_url@));
            k += 1;
        }
        assert(instance_inboxes(extra_recipients@).take(k as int) =~= instance_inboxes(
            extra_recipients@,
        ));
        send_activity(self.ap_id.as_str(), &self.private_key, activity, inboxes)
    }
}

/// A list that holds one text only has no repetitions to drop.
pub proof fn lemma_distinct_single(text: Seq<char>)
    ensures
        distinct(seq![text]) == seq![text],
{
    reveal(distinct);
    let list = seq![text];
    assert(distinct_upto_zero(list));
    assert(distinct_upto(list, 1) =~= seq![text]);
}

spec fn distinct_upto_zero(list: Seq<Seq<char>>) -> bool {
    distinct_upto(list, 0) == Seq::<Seq<char>>::empty()
}

impl Follow {
    /// A person's request to follow an instance, addressed to that instance.
    pub fn send(actor: DbPerson, to: &DbInstance, activity_id: String) -> (sent: Result<
        Outbound,
        Error,
    >)
        ensures
            match sent {
                Ok(out) => {
                    &&& actor.private_key == Some(out.private_key)
                    &&& out.actor@ == actor.ap_id@
                    &&& out.activity == InboxActivities::Follow(
                        Follow { actor: actor.ap_id, object: to.ap_id, id: activity_id },
                    )
                    &&& texts(out.inboxes@) == seq![to.inbox_url@]
                },
                Err(e) => e == Error::NoPrivateKey && actor.private_key is None,
            },
    {
        let follow =
            Follow { actor: actor.ap_id.clone(), object: to.ap_id.clone(), id: activity_id };
        let mut recipients: Vec<String> = Vec::new();
        recipients.push(to.inbox_url.clone());
        proof {
            assert(texts(recipients@) =~= seq![to.inbox_url@]);
            lemma_distinct_single(to.inbox_url@);
        }
        send_activity(
            actor.ap_id.as_str(),
            &actor.private_key,
            InboxActivities::Follow(follow),
            recipients,
        )
    }
}

/// `out` tells the person who asked to follow the local instance that the
/// request was accepted.
pub open spec fn accept_sent(
    s: StoreState,
    local_instance: DbInstance,
    object: Follow,
    activity_id: String,
    out: Outbound,
) -> bool {
    &&& local_instance.private_key == Some(out.private_key)
    &&& out.actor@ == local_instance.ap_id@
    &&& out.activity == InboxActivities::Accept(
        Accept { actor: local_instance.ap_id, object, id: activity_id },
    )
    &&& texts(out.inboxes@) == seq![s.persons[s.person_pos_by_ap_id(object.actor@)->0].inbox_url@]
}

impl Accept {
    /// The local instance's acceptance of a follow request, addressed to the
    /// person who asked.
    pub fn send(
        local_instance: DbInstance,
        object: Follow,
        store: &Store,
        activity_id: String,
    ) -> (sent: Result<Outbound, Error>)
        requires
            store.wf(),
        ensures
            match sent {
                Ok(out) => store.state().person_pos_by_ap_id(object.actor@) is Some
                    && accept_sent(store.state(), local_instance, object, activity_id, out),
                Err(e) => if store.state().person_pos_by_ap_id(object.actor@) is None {
                    e == Error::PersonNotFound
                } else {
                    e == Error::NoPrivateKey && local_instance.private_key is None
                },
            },
    {
        let follower = match store.find_person_by_ap_id(object.actor.as_str()) {
            None => {
                return Err(Error::PersonNotFound);
            },
            Some(p) => p,
        };
        let accept = Accept { actor: local_instance.ap_id.clone(), object, id: activity_id };
        let mut recipients: Vec<String> = Vec::new();
        recipients.push(store.persons[follower].inbox_url.clone());
        proof {
            assert(texts(recipients@) =~= seq![store.persons@[follower as int].inbox_url@]);
            lemma_distinct_single(store.persons@[follower as int].inbox_url@);
        }
        send_activity(
            local_instance.ap_id.as_str(),
            &local_instance.private_key,
            InboxActivities::Accept(accept),
            recipients,
        )
    }
}

/// Why the local instance cannot tell its followers of an article, if it cannot.
pub open spec fn broadcast_refusal(s: StoreState, article: DbArticle) -> Option<Error> {
    match s.local_instance_pos() {
        None => Some(Error::InstanceNotFound),
        Some(l) => if article_json_refusal(s, article) is Some {
            article_json_refusal(s, article)
        } else if s.instances[l].private_key is None {
            Some(Error::NoPrivateKey)
        } else {
            None
        },
    }
}

/// `out` tells the followers of the local instance of the new `article`.
pub open spec fn creation_sent(
    s: StoreState,
    article: DbArticle,
    activity_id: String,
    out: Outbound,
) -> bool {
    let local = s.instances[s.local_instance_pos()->0];
    &&& local.private_key == Some(out.private_key)
    &&& out.actor@ == local.ap_id@
    &&& out.activity is CreateArticle
    &&& out.activity->CreateArticle_0.actor == local.ap_id
    &&& texts(out.activity->CreateArticle_0.to@) == person_ids(followers_of(s, local.id))
    &&& article_json(s, article, out.activity->CreateArticle_0.object)
    &&& out.activity->CreateArticle_0.id == activity_id
    &&& texts(out.inboxes@) == distinct(person_inboxes(followers_of(s, local.id)))
}

impl CreateArticle {
    /// Tells the followers of the local instance of a new article.
    pub fn send_to_followers(article: DbArticle, store: &Store, activity_id: String) -> (sent:
        Result<Outbound, Error>)
        requires
            store.wf(),
        ensures
            match sent {
                Ok(out) => broadcast_refusal(store.state(), article) is None && creation_sent(
                    store.state(),
                    article,
                    activity_id,
                    out,
                ),
                Err(e) => broadcast_refusal(store.state(), article) == Some(e),
            },
    {
        let l = match store.find_local_instance() {
            None => {
                return Err(Error::InstanceNotFound);
            },
            Some(l) => l,
        };
        let object = match article.into_json(store) {
            Err(e) => {
                return Err(e);
            },
            Ok(j) => j,
        };
        let to = store.instances[l].follower_ids(store);
        let create = CreateArticle {
            actor: store.instances[l].ap_id.clone(),
            to,
            object,
            id: activity_id,
        };
        let none: Vec<DbInstance> = Vec::new();
        proof {
            assert(person_inboxes(followers_of(store.state(), store.instances@[l as int].id))
                + instance_inboxes(none@) =~= person_inboxes(
                followers_of(store.state(), store.instances@[l as int].id),
            ));
        }
        store.instances[l].send_to_followers(InboxActivities::CreateArticle(create), &none, store)
    }
}

/// `out` tells the followers of the local instance, and the instances named
/// besides, of the current state of the local `article`.
pub open spec fn local_update_sent(
    s: StoreState,
    article: DbArticle,
    extra_recipients: Seq<DbInstance>,
    activity_id: String,
    out: Outbound,
) -> bool {
    let local = s.instances[s.local_instance_pos()->0];
    &&& local.private_key == Some(out.private_key)
    &&& out.actor@ == local.ap_id@
    &&& out.activity is UpdateLocalArticle
    &&& out.activity->UpdateLocalArticle_0.actor == local.ap_id
    &&& texts(out.activity->UpdateLocalArticle_0.to@) == person_ids(followers_of(s, local.id))
        + instance_ids(extra_recipients)
    &&& article_json(s, article, out.activity->UpdateLocalArticle_0.object)
    &&& out.activity->UpdateLocalArticle_0.id == activity_id
    &&& texts(out.inboxes@) == distinct(
        person_inboxes(followers_of(s, local.id)) + instance_inboxes(extra_recipients),
    )
}

impl UpdateLocalArticle {
    /// Tells the followers of the local instance, and the instances named
    /// besides, of the current state of a local article.
    pub fn send(
        article: DbArticle,
        extra_recipients: Vec<DbInstance>,
        store: &Store,
        activity_id: String,
    ) -> (sent: Result<Outbound, Error>)
        requires
            store.wf(),
        ensures
            match sent {
                Ok(out) => broadcast_refusal(store.state(), article) is None && local_update_sent(
                    store.state(),
                    article,
                    extra_recipients@,
                    activity_id,
                    out,
                ),
                Err(e) => broadcast_refusal(store.state(), article) == Some(e),
            },
    {
        let l = match store.find_local_instance() {
            None => {
                return Err(Error::InstanceNotFound);
            },
            Some(l) => l,
        };
        let object = match article.into_json(store) {
            Err(e) => {
                return Err(e);
            },
            Ok(j) => j,
        };
        let followers = store.instances[l].follower_ids(store);
        let extras = instance_ids_of(&extra_recipients);
        let to = joined(followers, extras);
        let update = UpdateLocalArticle {
            actor: store.instances[l].ap_id.clone(),
            to,
            object,
            id: activity_id,
        };
        store.instances[l].send_to_followers(
            InboxActivities::UpdateLocalArticle(update),
            &extra_recipients,
            store,
        )
    }
}

/// Why the local instance cannot send an edit to another instance, if it cannot.
pub open spec fn proposal_refusal(s: StoreState, edit: DbEdit) -> Option<Error> {
    match s.local_instance_pos() {
        None => Some(Error::InstanceNotFound),
        Some(l) => if edit_json_refusal(s, edit) is Some {
            edit_json_refusal(s, edit)
        } else if s.instances[l].private_key is None {
            Some(Error::NoPrivateKey)
        } else {
            None
        },
    }
}

/// `out` proposes `edit` to the instance that the edited article lives on.
pub open spec fn remote_update_sent(
    s: StoreState,
    edit: DbEdit,
    article_instance: DbInstance,
    activity_id: String,
    out: Outbound,
) -> bool {
    let local = s.instances[s.local_instance_pos()->0];
    &&& local.private_key == Some(out.private_key)
    &&& out.actor@ == local.ap_id@
    &&& out.activity is UpdateRemoteArticle
    &&& out.activity->UpdateRemoteArticle_0.actor == local.ap_id
    &&& texts(out.activity->UpdateRemoteArticle_0.to@) == seq![article_instance.ap_id@]
    &&& edit_json(s, edit, out.activity->UpdateRemoteArticle_0.object)
    &&& out.activity->UpdateRemoteArticle_0.id == activity_id
    &&& texts(out.inboxes@) == seq![article_instance.inbox_url@]
}

impl UpdateRemoteArticle {
    /// Proposes an edit of a remote article to the instance that the article
    /// lives on.
    pub fn send(
        edit: DbEdit,
        article_instance: DbInstance,
        store: &Store,
        activity_id: String,
    ) -> (sent: Result<Outbound, Error>)
        requires
            store.wf(),
        ensures
            match sent {
                Ok(out) => proposal_refusal(store.state(), edit) is None && remote_update_sent(
                    store.state(),
                    edit,
                    article_instance,
                    activity_id,
                    out,
                ),
                Err(e) => proposal_refusal(store.state(), edit) == Some(e),
            },
    {
        let l = match store.find_local_instance() {
            None => {
                return Err(Error::InstanceNotFound);
            },
            Some(l) => l,
        };
        let object = match edit.into_json(store) {
            Err(e) => {
                return Err(e);
            },
            Ok(j) => j,
        };
        let mut to: Vec<String> = Vec::new();
        to.push(article_instance.ap_id.clone());
        let mut recipients: Vec<String> = Vec::new();
        recipients.push(article_instance.inbox_url.clone());
        proof {
            assert(texts(to@) =~= seq![article_instance.ap_id@]);
            assert(texts(recipients@) =~= seq![article_instance.inbox_url@]);
            lemma_distinct_single(article_instance.inbox_url@);
        }
        let update = UpdateRemoteArticle {
            actor: store.instances[l].ap_id.clone(),
            to,
            object,
            id: activity_id,
        };
        send_activity(
            store.instances[l].ap_id.as_str(),
            &store.instances[l].private_key,
            InboxActivities::UpdateRemoteArticle(update),
            recipients,
        )
    }
}

/// `out` tells the instance that proposed `edit` that the edit was refused.
pub open spec fn rejection_sent(
    s: StoreState,
    edit: ApubEdit,
    user_instance: DbInstance,
    activity_id: String,
    out: Outbound,
) -> bool {
    let local = s.instances[s.local_instance_pos()->0];
    &&& local.private_key == Some(out.private_key)
    &&& out.actor@ == local.ap_id@
    &&& out.activity is RejectEdit
    &&& out.activity->RejectEdit_0.actor == local.ap_id
    &&& texts(out.activity->RejectEdit_0.to@) == seq![user_instance.ap_id@]
    &&& out.activity->RejectEdit_0.object == edit
    &&& out.activity->RejectEdit_0.id == activity_id
    &&& texts(out.inboxes@) == seq![user_instance.inbox_url@]
}

impl RejectEdit {
    /// Tells the instance that proposed an edit that the edit was refused.
    pub fn send(
        edit: ApubEdit,
        user_instance: DbInstance,
        store: &Store,
        activity_id: String,
    ) -> (sent: Result<Outbound, Error>)
        requires
            store.wf(),
        ensures
            match sent {
                Ok(out) => store.state().local_instance_pos() is Some && rejection_sent(
                    store.state(),
                    edit,
                    user_instance,
                    activity_id,
                    out,
                ),
                Err(e) => match store.state().local_instance_pos() {
                    None => e == Error::InstanceNotFound,
                    Some(l) => e == Error::NoPrivateKey && store.state().instances[l].private_key
                        is None,
                },
            },
    {
        let l = match store.find_local_instance() {
            None => {
                return Err(Error::InstanceNotFound);
            },
            Some(l) => l,
        };
        let mut to: Vec<String> = Vec::new();
        to.push(user_instance.ap_id.clone());
        let mut recipients: Vec<String> = Vec::new();
        recipients.push(user_instance.inbox_url.clone());
        proof {
            assert(texts(to@) =~= seq![user_instance.ap_id@]);
            assert(texts(recipients@) =~= seq![user_instance.inbox_url@]);
            lemma_distinct_single(user_instance.inbox_url@);
        }
        let reject = RejectEdit {
            actor: store.instances[l].ap_id.clone(),
            to,
            object: edit,
            id: activity_id,
        };
        send_activity(
            store.instances[l].ap_id.as_str(),
            &store.instances[l].private_key,
            InboxActivities::RejectEdit(reject),
            recipients,
        )
    }
}

impl AnnounceActivity {
    /// Passes an activity on to the followers of the local instance.
    pub fn send(object: AnnouncableActivities, store: &Store, activity_id: String) -> (sent: Result<
        Outbound,
        Error,
    >)
        requires
            store.wf(),
        ensures
            match sent {
                Ok(out) => {
                    let s = store.state();
                    let local = s.instances[s.local_instance_pos()->0];
                    &&& s.local_instance_pos() is Some
                    &&& local.private_key == Some(out.private_key)
                    &&& out.actor@ == local.ap_id@
                    &&& out.activity is AnnounceActivity
                    &&& out.activity->AnnounceActivity_0.actor == local.ap_id
                    &&& texts(out.activity->AnnounceActivity_0.to@) == seq![PUBLIC@]
                    &&& out.activity->AnnounceActivity_0.object == object
                    &&& out.activity->AnnounceActivity_0.id == activity_id
                    &&& texts(out.inboxes@) == distinct(
                        person_inboxes(followers_of(s, local.id)),
                    )
                },
                Err(e) => match store.state().local_instance_pos() {
                    None => e == Error::InstanceNotFound,
                    Some(l) => e == Error::NoPrivateKey && store.state().instances[l].private_key
                        is None,
                },
            },
    {
        let l = match store.find_local_instance() {
            None => {
                return Err(Error::InstanceNotFound);
            },
            Some(l) => l,
        };
        let mut to: Vec<String> = Vec::new();
        to.push(String::from_str(PUBLIC));
        assert(texts(to@) =~= seq![PUBLIC@]);
        let announce = AnnounceActivity {
            actor: store.instances[l].ap_id.clone(),
            to,
            object,
            id: activity_id,
        };
        let none: Vec<DbInstance> = Vec::new();
        proof {
            assert(person_inboxes(followers_of(store.state(), store.instances@[l as int].id))
                + instance_inboxes(none@) =~= person_inboxes(
                followers_of(store.state(), store.instances@[l as int].id),
            ));
        }
        store.instances[l].send_to_followers(
            InboxActivities::AnnounceActivity(announce),
            &none,
            store,
        )
    }
}

} // verus!
