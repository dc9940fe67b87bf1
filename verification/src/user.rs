use crate::address::{parse_url, url_normal_form};
use crate::common::{DbInstance, DbLocalUser, DbPerson, LocalUserView};
use crate::config::{http_protocol_str, protocol, IbisConfig};
use crate::error::Error;
use crate::newtypes::{LocalUserId, PersonId, Timestamp};
use crate::store::{Store, StoreState};
use crate::text::join;
use vstd::prelude::*;

verus! {

/// What is known of a local account before it is stored.
#[derive(Debug, PartialEq)]
pub struct DbLocalUserForm {
    pub password_encrypted: String,
    pub person_id: PersonId,
    pub admin: bool,
}

/// What is known of a person before it is stored.
#[derive(Debug, PartialEq)]
pub struct DbPersonForm {
    pub username: String,
    pub ap_id: String,
    pub inbox_url: String,
    pub public_key: String,
    pub private_key: Option<String>,
    pub last_refreshed_at: Timestamp,
    pub local: bool,
}

impl DbPersonForm {
    /// `person` holds what the form says.
    pub open spec fn describes(self, person: DbPerson) -> bool {
        person == DbPerson {
            id: person.id,
            username: self.username,
            ap_id: self.ap_id,
            inbox_url: self.inbox_url,
            public_key: self.public_key,
            private_key: self.private_key,
            last_refreshed_at: self.last_refreshed_at,
            local: self.local,
        }
    }
}

/// The instances that the person `id` follows by one of the first `n` follow
/// edges, pending or not, in the order of the edges.
pub open spec fn following_upto(s: StoreState, id: PersonId, n: int) -> Seq<DbInstance>
    decreases n,
{
    if n <= 0 {
        Seq::empty()
    } else {
        let rest = following_upto(s, id, n - 1);
        let edge = s.follows[n - 1];
        if edge.follower_id == id && s.instance_pos(edge.instance_id) is Some {
            rest.push(s.instances[s.instance_pos(edge.instance_id)->0])
        } else {
            rest
        }
    }
}

/// The instances that the person `id` follows.
pub open spec fn following_of(s: StoreState, id: PersonId) -> Seq<DbInstance> {
    following_upto(s, id, s.follows.len() as int)
}

/// Position of the first local person with the given name.
pub open spec fn local_person_pos(s: StoreState, username: Seq<char>) -> Option<int> {
    if exists|i: int|
        0 <= i < s.persons.len() && s.persons[i].local && s.persons[i].username@ == username {
        Some(
            choose|i: int|
                0 <= i < s.persons.len() && s.persons[i].local && s.persons[i].username@
                    == username && forall|j: int|
                    0 <= j < i ==> !((#[trigger] s.persons[j]).local && s.persons[j].username@
                        == username),
        )
    } else {
        None
    }
}

/// The federation identifier of the local user with the given name, before
/// it is parsed: scheme, domain, `/user/` and the name.
pub open spec fn user_url_text(secure: bool, domain: Seq<char>, username: Seq<char>) -> Seq<char> {
    protocol(secure) + "://"@ + domain + "/user/"@ + username
}

/// The inbox that all local actors share.
pub open spec fn inbox_url_text(secure: bool, domain: Seq<char>) -> Seq<char> {
    protocol(secure) + "://"@ + domain + "/inbox"@
}

/// Position of the first local person with the given name.
fn find_local_person(store: &Store, username: &str) -> (pos: Option<usize>)
    requires
        store.wf(),
    ensures
        match pos {
            Some(i) => local_person_pos(store.state(), username@) == Some(i as int) && i
                < store.persons.len(),
            None => local_person_pos(store.state(), username@) is None,
        },
{
    let wanted = String::from_str(username);
    let mut i: usize = 0;
    while i < store.persons.len()
        invariant
            i <= store.persons.len(),
            wanted@ == username@,
            forall|k: int|
                0 <= k < i ==> !((#[trigger] store.state().persons[k]).local
                    && store.state().persons[k].username@ == username@),
        decreases store.persons.len() - i,
    {
        if store.persons[i].local && store.persons[i].username == wanted {
            proof {
                let s = store.state();
                let c = choose|c: int|
                    0 <= c < s.persons.len() && s.persons[c].local && s.persons[c].username@
                        == username@ && forall|j: int|
                        0 <= j < c ==> !((#[trigger] s.persons[j]).local && s.persons[j].username@
                            == username@);
                assert(s.persons[i as int].local && s.persons[i as int].username@ == username@);
                if c < i {
                    assert(!(s.persons[c].local && s.persons[c].username@ == username@));
                } else if i < c {
                    assert(!(s.persons[i as int].local && s.persons[i as int].username@
                        == username@));
                }
            }
            return Some(i);
        }
        i += 1;
    }
    None
}

impl DbPerson {
    /// Stores a person, or where one with the same federation identifier is
    /// stored already, replaces what is known of it.
    pub fn create(form: DbPersonForm, store: &mut Store) -> (created: Result<DbPerson, Error>)
        requires
            old(store).wf(),
        ensures
            final(store).wf(),
            match created {
                Ok(person) => {
                    let before = old(store).state();
                    &&& form.describes(person)
                    &&& match before.person_pos_by_ap_id(form.ap_id@) {
                        Some(k) => person.id == before.persons[k].id && final(store).state()
                            == before.with_person(k, person),
                        None => before.next_person < i32::MAX && person.id.0 == before.next_person
                            && final(store).state() == before.with_new_person(person),
                    }
                },
                Err(e) => {
                    &&& e == Error::IdsExhausted
                    &&& old(store).state().person_pos_by_ap_id(form.ap_id@) is None
                    &&& old(store).state().next_person >= i32::MAX
                    &&& final(store).state() == old(store).state()
                },
            },
    {
        match store.find_person_by_ap_id(form.ap_id.as_str()) {
            Some(k) => {
                let person = DbPerson {
                    id: store.persons[k].id,
                    username: form.username,
                    ap_id: form.ap_id,
                    inbox_url: form.inbox_url,
                    public_key: form.public_key,
                    private_key: form.private_key,
                    last_refreshed_at: form.last_refreshed_at,
                    local: form.local,
                };
                let stored = person.clone();
                store.persons[k] = person;
                proof {
                    old(store).state().lemma_with_person(k as int, stored);
                }
                Ok(stored)
            },
            None => {
                if store.next_person >= i32::MAX {
                    return Err(Error::IdsExhausted);
                }
                let person = DbPerson {
                    id: PersonId(store.next_person),
                    username: form.username,
                    ap_id: form.ap_id,
                    inbox_url: form.inbox_url,
                    public_key: form.public_key,
                    private_key: form.private_key,
                    last_refreshed_at: form.last_refreshed_at,
                    local: form.local,
                };
                let stored = person.clone();
                store.persons.push(person);
                store.next_person = store.next_person + 1;
                proof {
                    old(store).state().lemma_with_new_person(stored);
                }
                Ok(stored)
            },
        }
    }

    /// The person with the given id.
    pub fn read(id: PersonId, store: &Store) -> (found: Result<DbPerson, Error>)
        requires
            store.wf(),
        ensures
            match found {
                Ok(person) => store.state().person_pos(id) is Some && person
                    == store.state().persons[store.state().person_pos(id)->0],
                Err(e) => e == Error::PersonNotFound && store.state().person_pos(id) is None,
            },
    {
        match store.find_person(id) {
            Some(i) => Ok(store.persons[i].clone()),
            None => Err(Error::PersonNotFound),
        }
    }

    /// The person with the given federation identifier.
    pub fn read_from_ap_id(ap_id: &str, store: &Store) -> (found: Result<DbPerson, Error>)
        requires
            store.wf(),
        ensures
            match found {
                Ok(person) => store.state().person_pos_by_ap_id(ap_id@) is Some && person
                    == store.state().persons[store.state().person_pos_by_ap_id(ap_id@)->0],
                Err(e) => e == Error::PersonNotFound && store.state().person_pos_by_ap_id(ap_id@)
                    is None,
            },
    {
        match store.find_person_by_ap_id(ap_id) {
            Some(i) => Ok(store.persons[i].clone()),
            None => Err(Error::PersonNotFound),
        }
    }

    /// The instances that the person `id` follows, in the order of the follow edges.
    pub fn read_following(id: PersonId, store: &Store) -> (following: Vec<DbInstance>)
        requires
            store.wf(),
        ensures
            following@ == following_of(store.state(), id),
    {
        let mut out: Vec<DbInstance> = Vec::new();
        let mut n: usize = 0;
        while n < store.follows.len()
            invariant
                n <= store.follows.len(),
                store.wf(),
                out@ == following_upto(store.state(), id, n as int),
            decreases store.follows.len() - n,
        {
            let edge = store.follows[n];
            if edge.follower_id == id {
                match store.find_instance(edge.instance_id) {
                    Some(p) => {
                        out.push(store.instances[p].clone());
                    },
                    None => {},
                }
            }
            n += 1;
        }
        out
    }

    /// The local person with the given name, with the account and with the
    /// instances that the person follows.
    pub fn read_local_from_name(username: &str, store: &Store) -> (view: Result<
        LocalUserView,
        Error,
    >)
        requires
            store.wf(),
        ensures
            match view {
                Ok(v) => {
                    let s = store.state();
                    &&& local_person_pos(s, username@) is Some
                    &&& v.person == s.persons[local_person_pos(s, username@)->0]
                    &&& s.local_user_pos(v.person.id) is Some
                    &&& v.local_user == s.local_users[s.local_user_pos(v.person.id)->0]
                    &&& v.following@ == following_of(s, v.person.id)
                },
                Err(e) => {
                    let s = store.state();
                    &&& e == Error::PersonNotFound
                    &&& local_person_pos(s, username@) is None || s.local_user_pos(
                        s.persons[local_person_pos(s, username@)->0].id,
                    ) is None
                },
            },
    {
        let p = match find_local_person(store, username) {
            None => {
                return Err(Error::PersonNotFound);
            },
            Some(p) => p,
        };
        let u = match store.find_local_user(store.persons[p].id) {
            None => {
                return Err(Error::PersonNotFound);
            },
            Some(u) => u,
        };
        let person = store.persons[p].clone();
        let local_user = store.local_users[u].clone();
        let following = DbPerson::read_following(person.id, store);
        Ok(LocalUserView { person, local_user, following })
    }

    /// Registers a local user: a person on this instance, and the account
    /// that goes with it. The password comes hashed, the key pair made.
    pub fn create_local(
        username: String,
        password_encrypted: String,
        public_key: String,
        private_key: String,
        admin: bool,
        store: &mut Store,
        config: &IbisConfig,
        now: Timestamp,
    ) -> (created: Result<LocalUserView, Error>)
        requires
            old(store).wf(),
        ensures
            final(store).wf(),
            match created {
                Ok(v) => {
                    let before = old(store).state();
                    &&& local_user_refusal(before, config, username@) is None
                    &&& v.person == DbPerson {
                        id: PersonId(before.next_person as i32),
                        username,
                        ap_id: v.person.ap_id,
                        inbox_url: v.person.inbox_url,
                        public_key,
                        private_key: Some(private_key),
                        last_refreshed_at: now,
                        local: true,
                    }
                    &&& url_normal_form(
                        user_url_text(config.federation.secure, config.federation.domain@, username@),
                    ) == Some(v.person.ap_id@)
                    &&& v.person.inbox_url@ == inbox_url_text(
                        config.federation.secure,
                        config.federation.domain@,
                    )
                    &&& v.local_user == DbLocalUser {
                        id: LocalUserId(before.next_local_user as i32),
                        password_encrypted,
                        person_id: v.person.id,
                        admin,
                    }
                    &&& v.following@.len() == 0
                    &&& final(store).state() == before.with_new_person(
                        v.person,
                    ).with_new_local_user(v.local_user)
                },
                Err(e) => {
                    &&& local_user_refusal(old(store).state(), config, username@) == Some(e)
                    &&& final(store).state() == old(store).state()
                },
            },
    {
        let scheme = http_protocol_str(config.federation.secure);
        let base = join(join(scheme, "://").as_str(), config.federation.domain.as_str());
        let raw = join(join(base.as_str(), "/user/").as_str(), username.as_str());
        let ap_id = match parse_url(raw.as_str()) {
            None => {
                return Err(Error::InvalidUrl);
            },
            Some(id) => id,
        };
        let inbox_url = join(base.as_str(), "/inbox");
        if store.find_person_by_ap_id(ap_id.as_str()).is_some() {
            return Err(Error::DuplicateUser);
        }
        if store.next_person >= i32::MAX || store.next_local_user >= i32::MAX {
            return Err(Error::IdsExhausted);
        }
        let person = DbPerson {
            id: PersonId(store.next_person),
            username,
            ap_id,
            inbox_url,
            public_key,
            private_key: Some(private_key),
            last_refreshed_at: now,
            local: true,
        };
        let local_user = DbLocalUser {
            id: LocalUserId(store.next_local_user),
            password_encrypted,
            person_id: person.id,
            admin,
        };
        let stored_person = person.clone();
        let stored_user = local_user.clone();
        store.persons.push(person);
        store.next_person = store.next_person + 1;
        store.local_users.push(local_user);
        store.next_local_user = store.next_local_user + 1;
        proof {
            let before = old(store).state();
            before.lemma_with_new_person(stored_person);
            before.with_new_person(stored_person).lemma_with_new_local_user(stored_user);
        }
        Ok(LocalUserView { person: stored_person, local_user: stored_user, following: Vec::new() })
    }

    /// The inbox of the person, as a URL: `None` where what is stored is none.
    pub fn inbox_url(&self) -> (url: Option<String>)
        ensures
            match url {
                Some(u) => url_normal_form(self.inbox_url@) == Some(u@),
                None => url_normal_form(self.inbox_url@) is None,
            },
    {
        parse_url(self.inbox_url.as_str())
    }
}

/// Why no local user with the given name can be registered, if none can.
pub open spec fn local_user_refusal(
    s: StoreState,
    config: &IbisConfig,
    username: Seq<char>,
) -> Option<Error> {
    let url = url_normal_form(
        user_url_text(config.federation.secure, config.federation.domain@, username),
    );
    if url is None {
        Some(Error::InvalidUrl)
    } else if s.person_pos_by_ap_id(url->0) is Some {
        Some(Error::DuplicateUser)
    } else if s.next_person >= i32::MAX || s.next_local_user >= i32::MAX {
        Some(Error::IdsExhausted)
    } else {
        None
    }
}

} // verus!
