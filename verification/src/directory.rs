use crate::address::{domains_match, extract_domain, host_with_port, url_host, url_port};
use crate::common::{clone_text, DbArticle, DbInstance, DbPerson};
use crate::config::IbisConfig;
use crate::error::Error;
use crate::newtypes::Timestamp;
use crate::objects::{ApubInstance, ApubUser};
use crate::store::{Store, StoreState};
use vstd::prelude::*;

verus! {

/// After how many seconds what is known of a remote actor counts as stale.
pub const REFETCH_INTERVAL_SECONDS: i64 = 86400;

/// A local or remote actor: a person or an instance.
#[derive(Debug, PartialEq)]
pub enum UserOrInstance {
    User(DbPerson),
    Instance(DbInstance),
}

/// What a fetched actor document describes: a person or an instance.
#[derive(Debug, PartialEq)]
pub enum PersonOrInstance {
    Person(ApubUser),
    Instance(ApubInstance),
}

/// The kinds of actor.
#[derive(Clone, Copy, Debug, PartialEq, Eq, Structural)]
pub enum PersonOrInstanceType {
    Person,
    Group,
}

/// How to come by an actor.
#[derive(Debug, PartialEq)]
pub enum Resolution {
    /// What the store holds is good.
    Cached(UserOrInstance),
    /// The actor has to be fetched from where it lives.
    Fetch,
}

/// Whether a URL lies on this instance: its host, with the port where it
/// names one, is the instance's domain.
pub open spec fn local_url(url: Seq<char>, domain: Seq<char>) -> bool {
    url_host(url) is Some && host_with_port(url_host(url)->0, url_port(url)) == domain
}

/// Whether what was last refreshed at `last_refreshed` is stale at `now`:
/// more than the refetch interval has passed.
pub open spec fn stale(last_refreshed: Timestamp, now: Timestamp) -> bool {
    last_refreshed.0 < now.0 - REFETCH_INTERVAL_SECONDS
}

/// The actor that the store holds under a federation identifier: a person
/// where there is one, else an instance.
pub open spec fn cached_actor(s: StoreState, id: Seq<char>) -> Option<UserOrInstance> {
    match s.person_pos_by_ap_id(id) {
        Some(p) => Some(UserOrInstance::User(s.persons[p])),
        None => match s.instance_pos_by_ap_id(id) {
            Some(i) => Some(UserOrInstance::Instance(s.instances[i])),
            None => None,
        },
    }
}

/// How an actor is come by: a local one is in the store or does not exist; a
/// remote one is taken from the store unless it is missing, stale, or to be
/// fetched in any case.
pub open spec fn resolution(
    s: StoreState,
    id: Seq<char>,
    domain: Seq<char>,
    now: Timestamp,
    forced: bool,
) -> Result<Resolution, Error> {
    if local_url(id, domain) {
        match cached_actor(s, id) {
            Some(actor) => Ok(Resolution::Cached(actor)),
            None => Err(Error::ActorNotFound),
        }
    } else if forced {
        Ok(Resolution::Fetch)
    } else {
        match cached_actor(s, id) {
            Some(actor) => if stale(actor.spec_last_refreshed_at(), now) {
                Ok(Resolution::Fetch)
            } else {
                Ok(Resolution::Cached(actor))
            },
            None => Ok(Resolution::Fetch),
        }
    }
}

/// Whether a URL lies on this instance.
pub fn is_local_url(url: &str, config: &IbisConfig) -> (local: bool)
    ensures
        local == local_url(url@, config.federation.domain@),
{
    match extract_domain(url) {
        Ok(domain) => domain == config.federation.domain,
        Err(_) => false,
    }
}

/// Whether what was last refreshed at `last_refreshed` is stale at `now`.
pub fn should_refetch_object(last_refreshed: Timestamp, now: Timestamp) -> (refetch: bool)
    ensures
        refetch == stale(last_refreshed, now),
{
    if now.0 >= i64::MIN + REFETCH_INTERVAL_SECONDS {
        last_refreshed.0 < now.0 - REFETCH_INTERVAL_SECONDS
    } else {
        false
    }
}

/// A remote instance as a document describes it at time `now`.
pub open spec fn instance_from(json: ApubInstance, now: Timestamp, instance: DbInstance) -> bool {
    &&& url_host(json.id@) is Some
    &&& instance.domain@ == host_with_port(url_host(json.id@)->0, url_port(json.id@))
    &&& instance.ap_id == json.id
    &&& instance.topic == json.content
    &&& instance.name == json.name
    &&& instance.articles_url == json.articles
    &&& instance.instances_url == json.instances
    &&& instance.inbox_url == json.inbox
    &&& instance.public_key == json.public_key.public_key_pem
    &&& instance.private_key is None
    &&& instance.last_refreshed_at == now
    &&& !instance.local
}

/// A remote person as a document describes it at time `now`.
pub open spec fn person_from(json: ApubUser, now: Timestamp, person: DbPerson) -> bool {
    &&& person.username == json.preferred_username
    &&& person.ap_id == json.id
    &&& person.inbox_url == json.inbox
    &&& person.public_key == json.public_key.public_key_pem
    &&& person.private_key is None
    &&& person.last_refreshed_at == now
    &&& !person.local
}

impl DbInstance {
    /// Takes a fetched document into the store: a new instance is added, a
    /// remote one that is known is brought up to date, and a local one stays
    /// as it is.
    pub fn from_json(json: ApubInstance, store: &mut Store, now: Timestamp) -> (stored: Result<
        DbInstance,
        Error,
    >)
        requires
            old(store).wf(),
        ensures
            final(store).wf(),
            match stored {
                Ok(instance) => {
                    let before = old(store).state();
                    &&& url_host(json.id@) is Some
                    &&& match before.instance_pos_by_ap_id(json.id@) {
                        Some(k) => if before.instances[k].local {
                            instance == before.instances[k] && final(store).state() == before
                        } else {
                            &&& instance_from(json, now, instance)
                            &&& instance.id == before.instances[k].id
                            &&& final(store).state() == before.with_instance(k, instance)
                        },
                        None => {
                            &&& instance_from(json, now, instance)
                            &&& before.next_instance < i32::MAX
                            &&& instance.id.0 == before.next_instance
                            &&& final(store).state() == before.with_new_instance(instance)
                        },
                    }
                },
                Err(e) => {
                    let before = old(store).state();
                    &&& final(store).state() == before
                    &&& if url_host(json.id@) is None {
                        e == Error::InvalidUrl
                    } else {
                        e == Error::IdsExhausted && before.instance_pos_by_ap_id(json.id@) is None
                            && before.next_instance >= i32::MAX
                    }
                },
            },
    {
        let form = match DbInstance::form_from_json(json, now) {
            Err(e) => {
                return Err(e);
            },
            Ok(f) => f,
        };
        match store.find_instance_by_ap_id(form.ap_id.as_str()) {
            Some(k) => {
                if store.instances[k].local {
                    return Ok(store.instances[k].clone());
                }
            },
            None => {},
        }
        DbInstance::create(form, store)
    }
}

impl DbPerson {
    /// Takes a fetched document into the store: a new person is added, a
    /// remote one that is known is brought up to date, and a local one stays
    /// as it is.
    pub fn from_json(json: ApubUser, store: &mut Store, now: Timestamp) -> (stored: Result<
        DbPerson,
        Error,
    >)
        requires
            old(store).wf(),
        ensures
            final(store).wf(),
            match stored {
                Ok(person) => {
                    let before = old(store).state();
                    match before.person_pos_by_ap_id(json.id@) {
                        Some(k) => if before.persons[k].local {
                            person == before.persons[k] && final(store).state() == before
                        } else {
                            &&& person_from(json, now, person)
                            &&& person.id == before.persons[k].id
                            &&& final(store).state() == before.with_person(k, person)
                        },
                        None => {
                            &&& person_from(json, now, person)
                            &&& before.next_person < i32::MAX
                            &&& person.id.0 == before.next_person
                            &&& final(store).state() == before.with_new_person(person)
                        },
                    }
                },
                Err(e) => {
                    let before = old(store).state();
                    &&& final(store).state() == before
                    &&& e == Error::IdsExhausted
                    &&& before.person_pos_by_ap_id(json.id@) is None
                    &&& before.next_person >= i32::MAX
                },
            },
    {
        let form = DbPerson::form_from_json(json, now);
        match store.find_person_by_ap_id(form.ap_id.as_str()) {
            Some(k) => {
                if store.persons[k].local {
                    return Ok(store.persons[k].clone());
                }
            },
            None => {},
        }
        DbPerson::create(form, store)
    }
}

impl UserOrInstance {
    /// When the actor was last fetched.
    pub open spec fn spec_last_refreshed_at(&self) -> Timestamp {
        match *self {
            UserOrInstance::User(p) => p.last_refreshed_at,
            UserOrInstance::Instance(i) => i.last_refreshed_at,
        }
    }

    /// When the actor was last fetched.
    #[verifier::when_used_as_spec(spec_last_refreshed_at)]
    pub fn last_refreshed_at(&self) -> (time: Timestamp)
        ensures
            time == self.spec_last_refreshed_at(),
    {
        match self {
            UserOrInstance::User(p) => p.last_refreshed_at,
            UserOrInstance::Instance(i) => i.last_refreshed_at,
        }
    }

    /// The actor that the store holds under a federation identifier.
    pub fn read_from_id(object_id: &str, store: &Store) -> (found: Option<UserOrInstance>)
        requires
            store.wf(),
        ensures
            found == cached_actor(store.state(), object_id@),
    {
        match store.find_person_by_ap_id(object_id) {
            Some(p) => Some(UserOrInstance::User(store.persons[p].clone())),
            None => match store.find_instance_by_ap_id(object_id) {
                Some(i) => Some(UserOrInstance::Instance(store.instances[i].clone())),
                None => None,
            },
        }
    }

    /// Checks that a fetched document names itself on the domain that it was
    /// fetched from.
    pub fn verify(apub: &PersonOrInstance, expected_domain: &str) -> (checked: Result<(), Error>)
        ensures
            checked == domains_match(
                match *apub {
                    PersonOrInstance::Person(p) => p.id@,
                    PersonOrInstance::Instance(i) => i.id@,
                },
                expected_domain@,
            ),
    {
        match apub {
            PersonOrInstance::Person(p) => DbPerson::verify(p, expected_domain),
            PersonOrInstance::Instance(i) => DbInstance::verify(i, expected_domain),
        }
    }

    /// The actor's federation identifier.
    pub fn id(&self) -> (ap_id: String)
        ensures
            ap_id == match *self {
                UserOrInstance::User(p) => p.ap_id,
                UserOrInstance::Instance(i) => i.ap_id,
            },
    {
        match self {
            UserOrInstance::User(p) => p.ap_id.clone(),
            UserOrInstance::Instance(i) => i.ap_id.clone(),
        }
    }

    /// The actor's public key.
    pub fn public_key_pem(&self) -> (key: String)
        ensures
            key == match *self {
                UserOrInstance::User(p) => p.public_key,
                UserOrInstance::Instance(i) => i.public_key,
            },
    {
        match self {
            UserOrInstance::User(p) => p.public_key.clone(),
            UserOrInstance::Instance(i) => i.public_key.clone(),
        }
    }

    /// The actor's private key. Only local actors have one.
    pub fn private_key_pem(&self) -> (key: Option<String>)
        ensures
            key == match *self {
                UserOrInstance::User(p) => p.private_key,
                UserOrInstance::Instance(i) => i.private_key,
            },
    {
        match self {
            UserOrInstance::User(p) => clone_text(&p.private_key),
            UserOrInstance::Instance(i) => clone_text(&i.private_key),
        }
    }
}

/// Finds out how to come by the actor with the given federation identifier:
/// from the store, or by fetching it.
pub fn resolve(id: &str, store: &Store, config: &IbisConfig, now: Timestamp) -> (plan: Result<
    Resolution,
    Error,
>)
    requires
        store.wf(),
    ensures
        plan == resolution(store.state(), id@, config.federation.domain@, now, false),
{
    resolve_with(id, store, config, now, false)
}

/// As `resolve`, but a remote actor is fetched in any case.
pub fn resolve_forced(id: &str, store: &Store, config: &IbisConfig, now: Timestamp) -> (plan:
    Result<Resolution, Error>)
    requires
        store.wf(),
    ensures
        plan == resolution(store.state(), id@, config.federation.domain@, now, true),
{
    resolve_with(id, store, config, now, true)
}

fn resolve_with(
    id: &str,
    store: &Store,
    config: &IbisConfig,
    now: Timestamp,
    forced: bool,
) -> (plan: Result<Resolution, Error>)
    requires
        store.wf(),
    ensures
        plan == resolution(store.state(), id@, config.federation.domain@, now, forced),
{
    let cached = UserOrInstance::read_from_id(id, store);
    if is_local_url(id, config) {
        return match cached {
            Some(actor) => Ok(Resolution::Cached(actor)),
            None => Err(Error::ActorNotFound),
        };
    }
    if forced {
        return Ok(Resolution::Fetch);
    }
    match cached {
        Some(actor) => if should_refetch_object(actor.last_refreshed_at(), now) {
            Ok(Resolution::Fetch)
        } else {
            Ok(Resolution::Cached(actor))
        },
        None => Ok(Resolution::Fetch),
    }
}

/// The actor that a fetched document describes, once it is in the store.
pub open spec fn fetched_actor(
    before: StoreState,
    after: StoreState,
    apub: PersonOrInstance,
    now: Timestamp,
    actor: UserOrInstance,
) -> bool {
    match apub {
        PersonOrInstance::Person(json) => actor is User && match before.person_pos_by_ap_id(
            json.id@,
        ) {
            Some(k) => if before.persons[k].local {
                actor->User_0 == before.persons[k] && after == before
            } else {
                &&& person_from(json, now, actor->User_0)
                &&& actor->User_0.id == before.persons[k].id
                &&& after == before.with_person(k, actor->User_0)
            },
            None => {
                &&& person_from(json, now, actor->User_0)
                &&& actor->User_0.id.0 == before.next_person
                &&& after == before.with_new_person(actor->User_0)
            },
        },
        PersonOrInstance::Instance(json) => actor is Instance
            && match before.instance_pos_by_ap_id(json.id@) {
            Some(k) => if before.instances[k].local {
                actor->Instance_0 == before.instances[k] && after == before
            } else {
                &&& instance_from(json, now, actor->Instance_0)
                &&& actor->Instance_0.id == before.instances[k].id
                &&& after == before.with_instance(k, actor->Instance_0)
            },
            None => {
                &&& instance_from(json, now, actor->Instance_0)
                &&& actor->Instance_0.id.0 == before.next_instance
                &&& after == before.with_new_instance(actor->Instance_0)
            },
        },
    }
}

/// The federation identifier that a document claims.
pub open spec fn claimed_id(apub: PersonOrInstance) -> Seq<char> {
    match apub {
        PersonOrInstance::Person(p) => p.id@,
        PersonOrInstance::Instance(i) => i.id@,
    }
}

/// Why a fetched actor document is not taken into the store, if it is not.
pub open spec fn fetched_refusal(
    s: StoreState,
    apub: PersonOrInstance,
    fetched_from: Seq<char>,
) -> Option<Error> {
    match domains_match(claimed_id(apub), fetched_from) {
        Err(e) => Some(e),
        Ok(_) => match apub {
            PersonOrInstance::Person(json) => if s.person_pos_by_ap_id(json.id@) is None
                && s.next_person >= i32::MAX {
                Some(Error::IdsExhausted)
            } else {
                None
            },
            PersonOrInstance::Instance(json) => if url_host(json.id@) is None {
                Some(Error::InvalidUrl)
            } else if s.instance_pos_by_ap_id(json.id@) is None && s.next_instance >= i32::MAX {
                Some(Error::IdsExhausted)
            } else {
                None
            },
        },
    }
}

/// Takes a fetched actor document into the store. The document must name
/// itself on the domain that it was fetched from; where it does not, or
/// where it cannot be stored, the store stays as it is.
pub fn accept_fetched(
    apub: PersonOrInstance,
    fetched_from: &str,
    store: &mut Store,
    now: Timestamp,
) -> (actor: Result<UserOrInstance, Error>)
    requires
        old(store).wf(),
    ensures
        final(store).wf(),
        match actor {
            Ok(a) => {
                &&& fetched_refusal(old(store).state(), apub, fetched_from@) is None
                &&& fetched_actor(old(store).state(), final(store).state(), apub, now, a)
            },
            Err(e) => {
                &&& fetched_refusal(old(store).state(), apub, fetched_from@) == Some(e)
                &&& final(store).state() == old(store).state()
            },
        },
{
    proof {
        old(store).state().lemma_counters();
    }
    match UserOrInstance::verify(&apub, fetched_from) {
        Err(e) => {
            return Err(e);
        },
        Ok(_) => {},
    }
    match apub {
        PersonOrInstance::Person(json) => match DbPerson::from_json(json, store, now) {
            Ok(p) => Ok(UserOrInstance::User(p)),
            Err(e) => Err(e),
        },
        PersonOrInstance::Instance(json) => match DbInstance::from_json(json, store, now) {
            Ok(i) => Ok(UserOrInstance::Instance(i)),
            Err(e) => Err(e),
        },
    }
}

/// How to come by an article.
#[derive(Debug, PartialEq)]
pub enum ArticleResolution {
    /// What the store holds is good.
    Cached(DbArticle),
    /// The article has to be fetched from where it lives.
    Fetch,
}

/// How an article is come by: one that lives on this instance is in the
/// store or does not exist; one that lives elsewhere is taken from the store
/// where the store holds it, unless it is to be fetched in any case.
pub open spec fn article_resolution(
    s: StoreState,
    id: Seq<char>,
    domain: Seq<char>,
    forced: bool,
) -> Result<ArticleResolution, Error> {
    if local_url(id, domain) {
        match s.article_pos_by_ap_id(id) {
            Some(i) => Ok(ArticleResolution::Cached(s.articles[i])),
            None => Err(Error::ArticleNotFound),
        }
    } else if forced {
        Ok(ArticleResolution::Fetch)
    } else {
        match s.article_pos_by_ap_id(id) {
            Some(i) => Ok(ArticleResolution::Cached(s.articles[i])),
            None => Ok(ArticleResolution::Fetch),
        }
    }
}

/// Finds out how to come by the article with the given federation
/// identifier: from the store, or by fetching it. With `forced`, an article
/// that lives elsewhere is fetched in any case, so that the store learns of
/// what has happened to it at its origin.
pub fn resolve_article(id: &str, store: &Store, config: &IbisConfig, forced: bool) -> (plan: Result<
    ArticleResolution,
    Error,
>)
    requires
        store.wf(),
    ensures
        plan == article_resolution(store.state(), id@, config.federation.domain@, forced),
{
    let cached = store.find_article_by_ap_id(id);
    if is_local_url(id, config) {
        return match cached {
            Some(i) => Ok(ArticleResolution::Cached(store.rows[i].article.clone())),
            None => Err(Error::ArticleNotFound),
        };
    }
    if forced {
        return Ok(ArticleResolution::Fetch);
    }
    match cached {
        Some(i) => Ok(ArticleResolution::Cached(store.rows[i].article.clone())),
        None => Ok(ArticleResolution::Fetch),
    }
}

/// The collection of articles that is to be fetched and taken in once an
/// actor was fetched: that of a remote instance, so that the store holds
/// all articles of every instance that it knows.
pub open spec fn sync_after(actor: UserOrInstance) -> Option<String> {
    match actor {
        UserOrInstance::Instance(instance) => if instance.local {
            None
        } else {
            instance.articles_url
        },
        UserOrInstance::User(_) => None,
    }
}

/// The collection of articles that is to be fetched and taken in once an
/// actor was fetched.
pub fn articles_to_sync(actor: &UserOrInstance) -> (url: Option<String>)
    ensures
        url == sync_after(*actor),
{
    match actor {
        UserOrInstance::Instance(instance) => if instance.local {
            None
        } else {
            clone_text(&instance.articles_url)
        },
        UserOrInstance::User(_) => None,
    }
}

} // verus!
