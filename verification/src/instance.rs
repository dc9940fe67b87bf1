use crate::address::{parse_url, url_normal_form};
use crate::common::{DbInstance, DbPerson, InstanceFollow, InstanceView};
use crate::error::Error;
use crate::newtypes::{InstanceId, Timestamp};
use crate::store::{Store, StoreState};
use crate::text::join;
use vstd::prelude::*;

verus! {

/// What is known of an instance before it is stored.
#[derive(Debug, PartialEq)]
pub struct DbInstanceForm {
    pub domain: String,
    pub ap_id: String,
    pub topic: Option<String>,
    pub name: Option<String>,
    pub articles_url: Option<String>,
    pub instances_url: Option<String>,
    pub inbox_url: String,
    pub public_key: String,
    pub private_key: Option<String>,
    pub last_refreshed_at: Timestamp,
    pub local: bool,
}

/// What an admin may change of the local instance. A field that is `None`
/// stays as it is.
#[derive(Debug, PartialEq)]
pub struct DbInstanceUpdateForm {
    pub topic: Option<String>,
    pub name: Option<String>,
}

impl DbInstanceForm {
    /// `instance` holds what the form says.
    pub open spec fn describes(self, instance: DbInstance) -> bool {
        instance == DbInstance {
            id: instance.id,
            domain: self.domain,
            ap_id: self.ap_id,
            topic: self.topic,
            name: self.name,
            articles_url: self.articles_url,
            instances_url: self.instances_url,
            inbox_url: self.inbox_url,
            public_key: self.public_key,
            private_key: self.private_key,
            last_refreshed_at: self.last_refreshed_at,
            local: self.local,
        }
    }
}

/// The persons that follow the instance `id` by one of the first `n` follow
/// edges, in the order of the edges. Only established edges count: one that
/// is pending gives no follower.
pub open spec fn followers_upto(s: StoreState, id: InstanceId, n: int) -> Seq<DbPerson>
    decreases n,
{
    if n <= 0 {
        Seq::empty()
    } else {
        let rest = followers_upto(s, id, n - 1);
        let edge = s.follows[n - 1];
        if edge.instance_id == id && !edge.pending && s.person_pos(edge.follower_id) is Some {
            rest.push(s.persons[s.person_pos(edge.follower_id)->0])
        } else {
            rest
        }
    }
}

/// The persons that follow the instance `id`, in the order of their follow edges.
pub open spec fn followers_of(s: StoreState, id: InstanceId) -> Seq<DbPerson> {
    followers_upto(s, id, s.follows.len() as int)
}

/// The instances that are not local, in the order of the first `n` rows.
pub open spec fn remote_upto(s: StoreState, n: int) -> Seq<DbInstance>
    decreases n,
{
    if n <= 0 {
        Seq::empty()
    } else if s.instances[n - 1].local {
        remote_upto(s, n - 1)
    } else {
        remote_upto(s, n - 1).push(s.instances[n - 1])
    }
}

/// Every follower of an instance has an established edge to it.
pub proof fn lemma_followers_established(s: StoreState, id: InstanceId, n: int, k: int)
    requires
        0 <= n <= s.follows.len(),
        0 <= k < followers_upto(s, id, n).len(),
    ensures
        exists|e: int|
            0 <= e < n && (#[trigger] s.follows[e]).instance_id == id && !s.follows[e].pending
                && s.person_pos(s.follows[e].follower_id) is Some && s.persons[s.person_pos(
                s.follows[e].follower_id,
            )->0] == followers_upto(s, id, n)[k],
    decreases n,
{
    let rest = followers_upto(s, id, n - 1);
    let edge = s.follows[n - 1];
    if edge.instance_id == id && !edge.pending && s.person_pos(edge.follower_id) is Some && k
        == rest.len() {
        assert(s.follows[n - 1].instance_id == id);
    } else {
        lemma_followers_established(s, id, n - 1, k);
    }
}

impl DbInstance {
    /// Stores an instance, or where one with the same federation identifier
    /// is stored already, replaces what is known of it.
    pub fn create(form: DbInstanceForm, store: &mut Store) -> (created: Result<DbInstance, Error>)
        requires
            old(store).wf(),
        ensures
            final(store).wf(),
            match created {
                Ok(instance) => {
                    let before = old(store).state();
                    &&& form.describes(instance)
                    &&& match before.instance_pos_by_ap_id(form.ap_id@) {
                        Some(k) => instance.id == before.instances[k].id && final(store).state()
                            == before.with_instance(k, instance),
                        None => before.next_instance < i32::MAX && instance.id.0
                            == before.next_instance && final(store).state()
                            == before.with_new_instance(instance),
                    }
                },
                Err(e) => {
                    &&& e == Error::IdsExhausted
                    &&& old(store).state().instance_pos_by_ap_id(form.ap_id@) is None
                    &&& old(store).state().next_instance >= i32::MAX
                    &&& final(store).state() == old(store).state()
                },
            },
    {
        match store.find_instance_by_ap_id(form.ap_id.as_str()) {
            Some(k) => {
                let instance = DbInstance {
                    id: store.instances[k].id,
                    domain: form.domain,
                    ap_id: form.ap_id,
                    topic: form.topic,
                    name: form.name,
                    articles_url: form.articles_url,
                    instances_url: form.instances_url,
                    inbox_url: form.inbox_url,
                    public_key: form.public_key,
                    private_key: form.private_key,
                    last_refreshed_at: form.last_refreshed_at,
                    local: form.local,
                };
                let stored = instance.clone();
                store.instances[k] = instance;
                proof {
                    old(store).state().lemma_with_instance(k as int, stored);
                }
                Ok(stored)
            },
            None => {
                if store.next_instance >= i32::MAX {
                    return Err(Error::IdsExhausted);
                }
                let instance = DbInstance {
                    id: InstanceId(store.next_instance),
                    domain: form.domain,
                    ap_id: form.ap_id,
                    topic: form.topic,
                    name: form.name,
                    articles_url: form.articles_url,
                    instances_url: form.instances_url,
                    inbox_url: form.inbox_url,
                    public_key: form.public_key,
                    private_key: form.private_key,
                    last_refreshed_at: form.last_refreshed_at,
                    local: form.local,
                };
                let stored = instance.clone();
                store.instances.push(instance);
                store.next_instance = store.next_instance + 1;
                proof {
                    old(store).state().lemma_with_new_instance(stored);
                }
                Ok(stored)
            },
        }
    }

    /// The instance with the given id.
    pub fn read(id: InstanceId, store: &Store) -> (found: Result<DbInstance, Error>)
        requires
            store.wf(),
        ensures
            match found {
                Ok(instance) => store.state().instance_pos(id) is Some && instance
                    == store.state().instances[store.state().instance_pos(id)->0],
                Err(e) => e == Error::InstanceNotFound && store.state().instance_pos(id) is None,
            },
    {
        match store.find_instance(id) {
            Some(i) => Ok(store.instances[i].clone()),
            None => Err(Error::InstanceNotFound),
        }
    }

    /// The instance with the given federation identifier.
    pub fn read_from_ap_id(ap_id: &str, store: &Store) -> (found: Result<DbInstance, Error>)
        requires
            store.wf(),
        ensures
            match found {
                Ok(instance) => store.state().instance_pos_by_ap_id(ap_id@) is Some && instance
                    == store.state().instances[store.state().instance_pos_by_ap_id(ap_id@)->0],
                Err(e) => e == Error::InstanceNotFound && store.state().instance_pos_by_ap_id(
                    ap_id@,
                ) is None,
            },
    {
        match store.find_instance_by_ap_id(ap_id) {
            Some(i) => Ok(store.instances[i].clone()),
            None => Err(Error::InstanceNotFound),
        }
    }

    /// The local instance: the first stored instance that is local.
    pub fn read_local(store: &Store) -> (found: Result<DbInstance, Error>)
        requires
            store.wf(),
        ensures
            match found {
                Ok(instance) => store.state().local_instance_pos() is Some && instance
                    == store.state().instances[store.state().local_instance_pos()->0],
                Err(e) => e == Error::InstanceNotFound && store.state().local_instance_pos()
                    is None,
            },
    {
        match store.find_local_instance() {
            Some(i) => Ok(store.instances[i].clone()),
            None => Err(Error::InstanceNotFound),
        }
    }

    /// Changes topic and name of the local instance, each where the form holds one.
    pub fn update(form: DbInstanceUpdateForm, store: &mut Store) -> (updated: Result<
        DbInstance,
        Error,
    >)
        requires
            old(store).wf(),
        ensures
            final(store).wf(),
            match updated {
                Ok(instance) => {
                    let before = old(store).state();
                    let k = before.local_instance_pos()->0;
                    &&& before.local_instance_pos() is Some
                    &&& instance == DbInstance {
                        topic: if form.topic is Some {
                            form.topic
                        } else {
                            before.instances[k].topic
                        },
                        name: if form.name is Some {
                            form.name
                        } else {
                            before.instances[k].name
                        },
                        ..before.instances[k]
                    }
                    &&& final(store).state() == before.with_instance(k, instance)
                },
                Err(e) => {
                    &&& e == Error::InstanceNotFound
                    &&& old(store).state().local_instance_pos() is None
                    &&& final(store).state() == old(store).state()
                },
            },
    {
        match store.find_local_instance() {
            None => Err(Error::InstanceNotFound),
            Some(k) => {
                match form.topic {
                    Some(topic) => {
                        store.instances[k].topic = Some(topic);
                    },
                    None => {},
                }
                match form.name {
                    Some(name) => {
                        store.instances[k].name = Some(name);
                    },
                    None => {},
                }
                let instance = store.instances[k].clone();
                proof {
                    assert(store.state().instances =~= old(store).state().instances.update(
                        k as int,
                        instance,
                    ));
                    old(store).state().lemma_with_instance(k as int, instance);
                }
                Ok(instance)
            },
        }
    }

    /// Sets the edge from `follower` to `instance`: it is added, or where the
    /// person follows the instance already, its pending flag is set anew.
    pub fn follow(follower: &DbPerson, instance: &DbInstance, pending: bool, store: &mut Store)
        requires
            old(store).wf(),
        ensures
            final(store).wf(),
            final(store).state() == old(store).state().with_follow(
                InstanceFollow { instance_id: instance.id, follower_id: follower.id, pending },
            ),
    {
        let edge = InstanceFollow { instance_id: instance.id, follower_id: follower.id, pending };
        proof {
            old(store).state().lemma_with_follow(edge);
        }
        match store.find_follow(instance.id, follower.id) {
            Some(k) => {
                store.follows[k] = edge;
            },
            None => {
                store.follows.push(edge);
            },
        }
    }

    /// The persons that follow the instance `id`, in the order of their follow
    /// edges. A pending edge gives no follower.
    pub fn read_followers(id: InstanceId, store: &Store) -> (followers: Vec<DbPerson>)
        requires
            store.wf(),
        ensures
            followers@ == followers_of(store.state(), id),
    {
        let mut out: Vec<DbPerson> = Vec::new();
        let mut n: usize = 0;
        while n < store.follows.len()
            invariant
                n <= store.follows.len(),
                store.wf(),
                out@ == followers_upto(store.state(), id, n as int),
            decreases store.follows.len() - n,
        {
            let edge = store.follows[n];
            if edge.instance_id == id && !edge.pending {
                match store.find_person(edge.follower_id) {
                    Some(p) => {
                        out.push(store.persons[p].clone());
                    },
                    None => {},
                }
            }
            n += 1;
        }
        out
    }

    /// The instance with the given id, or without an id the local instance,
    /// together with its followers.
    pub fn read_view(id: Option<InstanceId>, store: &Store) -> (view: Result<InstanceView, Error>)
        requires
            store.wf(),
        ensures
            match view {
                Ok(v) => {
                    let s = store.state();
                    let pos = match id {
                        Some(i) => s.instance_pos(i),
                        None => s.local_instance_pos(),
                    };
                    &&& pos is Some
                    &&& v.instance == s.instances[pos->0]
                    &&& v.followers@ == followers_of(s, v.instance.id)
                },
                Err(e) => e == Error::InstanceNotFound && match id {
                    Some(i) => store.state().instance_pos(i) is None,
                    None => store.state().local_instance_pos() is None,
                },
            },
    {
        let found = match id {
            Some(i) => DbInstance::read(i, store),
            None => DbInstance::read_local(store),
        };
        match found {
            Err(e) => Err(e),
            Ok(instance) => {
                let followers = DbInstance::read_followers(instance.id, store);
                Ok(InstanceView { instance, followers })
            },
        }
    }

    /// The instances that are not local, in the order in which they were stored.
    pub fn list(store: &Store) -> (instances: Vec<DbInstance>)
        requires
            store.wf(),
        ensures
            instances@ == remote_upto(store.state(), store.state().instances.len() as int),
    {
        let mut out: Vec<DbInstance> = Vec::new();
        let mut n: usize = 0;
        while n < store.instances.len()
            invariant
                n <= store.instances.len(),
                out@ == remote_upto(store.state(), n as int),
            decreases store.instances.len() - n,
        {
            if !store.instances[n].local {
                out.push(store.instances[n].clone());
            }
            n += 1;
        }
        out
    }

    /// The URL of the collection of the instance's followers.
    pub fn followers_url(&self) -> (url: Result<String, Error>)
        ensures
            match url {
                Ok(u) => url_normal_form(self.ap_id@ + "/followers"@) == Some(u@),
                Err(e) => e == Error::InvalidUrl && url_normal_form(self.ap_id@ + "/followers"@)
                    is None,
            },
    {
        let raw = join(self.ap_id.as_str(), "/followers");
        match parse_url(raw.as_str()) {
            Some(u) => Ok(u),
            None => Err(Error::InvalidUrl),
        }
    }

    /// The inbox of the instance, as a URL: `None` where what is stored is none.
    pub fn inbox_url(&self) -> (url: Option<String>)
        ensures
            match url {
                Some(u) => url_normal_form(self.inbox_url@) == Some(u@),
                None => url_normal_form(self.inbox_url@) is None,
            },
    {
        parse_url(self.inbox_url.as_str())
    }
}

} // verus!
