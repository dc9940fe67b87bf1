use ibis::common::{DbInstance, DbPerson, SharedConfig};
use ibis::config::{FederationConfig, IbisConfig};
use ibis::article::DbArticleForm;
use ibis::common::DbArticle;
use ibis::directory::{
    accept_fetched, articles_to_sync, is_local_url, resolve, resolve_article, resolve_forced,
    should_refetch_object, ArticleResolution, PersonOrInstance, Resolution, UserOrInstance,
};
use ibis::newtypes::InstanceId;
use ibis::error::{Error, ErrorKind};
use ibis::instance::DbInstanceForm;
use ibis::newtypes::Timestamp;
use ibis::objects::{ApubInstance, ApubUser, PublicKey};
use ibis::store::Store;

fn config() -> IbisConfig {
    IbisConfig {
        federation: FederationConfig { domain: "local.example:8081".to_string(), secure: false },
        options: SharedConfig::default(),
    }
}

fn remote_user(id: &str) -> ApubUser {
    ApubUser {
        id: id.to_string(),
        preferred_username: "bob".to_string(),
        inbox: "https://remote.example/inbox".to_string(),
        public_key: PublicKey {
            id: format!("{}#main-key", id),
            owner: id.to_string(),
            public_key_pem: "key".to_string(),
        },
    }
}

fn remote_instance() -> ApubInstance {
    ApubInstance {
        id: "https://remote.example:8443/".to_string(),
        name: Some("Remote".to_string()),
        content: Some("About things".to_string()),
        articles: Some("https://remote.example:8443/all_articles".to_string()),
        instances: None,
        inbox: "https://remote.example:8443/inbox".to_string(),
        public_key: PublicKey {
            id: "https://remote.example:8443/#main-key".to_string(),
            owner: "https://remote.example:8443/".to_string(),
            public_key_pem: "instance key".to_string(),
        },
    }
}

#[test]
fn local_urls_are_told_from_remote_ones() {
    let config = config();
    assert!(is_local_url("http://local.example:8081/user/alice", &config));
    assert!(!is_local_url("http://local.example/user/alice", &config));
    assert!(!is_local_url("http://remote.example:8081/user/alice", &config));
    assert!(!is_local_url("no url", &config));
}

#[test]
fn what_is_older_than_a_day_is_stale() {
    let now = Timestamp(1_000_000);
    assert!(!should_refetch_object(Timestamp(1_000_000), now));
    assert!(!should_refetch_object(Timestamp(1_000_000 - 86_400), now));
    assert!(should_refetch_object(Timestamp(1_000_000 - 86_401), now));
    assert!(!should_refetch_object(Timestamp(2_000_000), now));
    assert!(!should_refetch_object(Timestamp(i64::MIN), Timestamp(i64::MIN + 5)));
}

#[test]
fn an_unknown_remote_actor_is_fetched_and_then_taken_from_the_store() {
    let mut store = Store::new();
    let config = config();
    let id = "https://remote.example/user/bob";
    assert_eq!(Ok(Resolution::Fetch), resolve(id, &store, &config, Timestamp(10)));
    let actor = accept_fetched(
        PersonOrInstance::Person(remote_user(id)),
        "https://remote.example/user/bob",
        &mut store,
        Timestamp(10),
    )
    .unwrap();
    let person = match actor {
        UserOrInstance::User(person) => person,
        other => panic!("no person: {:?}", other),
    };
    assert_eq!("bob", person.username);
    assert_eq!(id, person.ap_id);
    assert!(!person.local);
    assert!(person.private_key.is_none());
    assert_eq!(Timestamp(10), person.last_refreshed_at);

    let cached = Ok(Resolution::Cached(UserOrInstance::User(person.clone())));
    assert_eq!(cached, resolve(id, &store, &config, Timestamp(10 + 86_400)));
    assert_eq!(Ok(Resolution::Fetch), resolve(id, &store, &config, Timestamp(11 + 86_400)));
    assert_eq!(Ok(Resolution::Fetch), resolve_forced(id, &store, &config, Timestamp(10)));

    // A refetch brings the same row up to date.
    let mut renamed = remote_user(id);
    renamed.preferred_username = "robert".to_string();
    let again =
        accept_fetched(PersonOrInstance::Person(renamed), id, &mut store, Timestamp(99)).unwrap();
    match again {
        UserOrInstance::User(updated) => {
            assert_eq!(person.id, updated.id);
            assert_eq!("robert", updated.username);
            assert_eq!(Timestamp(99), updated.last_refreshed_at);
        }
        other => panic!("no person: {:?}", other),
    }
    assert_eq!("robert", DbPerson::read(person.id, &store).unwrap().username);
}

#[test]
fn a_document_from_another_domain_is_refused() {
    let mut store = Store::new();
    let refused = accept_fetched(
        PersonOrInstance::Person(remote_user("https://remote.example/user/bob")),
        "https://evil.example/user/bob",
        &mut store,
        Timestamp(10),
    );
    assert_eq!(Some(Error::DomainMismatch), refused.err());
    assert_eq!(ErrorKind::FederationVerifyFailed, Error::DomainMismatch.kind());
    assert!(DbPerson::read_from_ap_id("https://remote.example/user/bob", &store).is_err());
}

#[test]
fn a_fetched_instance_is_stored_with_its_domain() {
    let mut store = Store::new();
    let actor = accept_fetched(
        PersonOrInstance::Instance(remote_instance()),
        "https://remote.example:8443/",
        &mut store,
        Timestamp(10),
    )
    .unwrap();
    match actor {
        UserOrInstance::Instance(instance) => {
            assert_eq!("remote.example:8443", instance.domain);
            assert_eq!(Some("About things".to_string()), instance.topic);
            assert_eq!(Some("Remote".to_string()), instance.name);
            assert_eq!(
                Some("https://remote.example:8443/all_articles".to_string()),
                instance.articles_url
            );
            assert_eq!("instance key", instance.public_key);
            assert!(instance.private_key.is_none());
            assert!(!instance.local);
            assert_eq!(vec![instance.clone()], DbInstance::list(&store));
        }
        other => panic!("no instance: {:?}", other),
    }
}

#[test]
fn a_local_actor_is_never_fetched_and_never_replaced() {
    let mut store = Store::new();
    let config = config();
    let id = "http://local.example:8081/";
    assert_eq!(Err(Error::ActorNotFound), resolve(id, &store, &config, Timestamp(10)));
    assert_eq!(Err(Error::ActorNotFound), resolve_forced(id, &store, &config, Timestamp(10)));
    let form = DbInstanceForm {
        domain: "local.example:8081".to_string(),
        ap_id: id.to_string(),
        topic: None,
        name: None,
        articles_url: None,
        instances_url: None,
        inbox_url: "http://local.example:8081/inbox".to_string(),
        public_key: "public".to_string(),
        private_key: Some("private".to_string()),
        last_refreshed_at: Timestamp(0),
        local: true,
    };
    let local = DbInstance::create(form, &mut store).unwrap();
    let cached = Ok(Resolution::Cached(UserOrInstance::Instance(local.clone())));
    assert_eq!(cached, resolve(id, &store, &config, Timestamp(10_000_000)));
    assert_eq!(cached, resolve_forced(id, &store, &config, Timestamp(10_000_000)));

    let mut forged = remote_instance();
    forged.id = id.to_string();
    forged.public_key.public_key_pem = "forged".to_string();
    let kept = accept_fetched(PersonOrInstance::Instance(forged), id, &mut store, Timestamp(20));
    assert_eq!(Ok(UserOrInstance::Instance(local.clone())), kept);
    assert_eq!(local, DbInstance::read_local(&store).unwrap());
    assert!(DbInstance::list(&store).is_empty());
}

#[test]
fn the_articles_of_a_fetched_remote_instance_are_to_be_synced() {
    let mut store = Store::new();
    let actor = accept_fetched(
        PersonOrInstance::Instance(remote_instance()),
        "https://remote.example:8443/",
        &mut store,
        Timestamp(10),
    )
    .unwrap();
    assert_eq!(
        Some("https://remote.example:8443/all_articles".to_string()),
        articles_to_sync(&actor)
    );
    let person = accept_fetched(
        PersonOrInstance::Person(remote_user("https://remote.example/user/bob")),
        "https://remote.example/",
        &mut store,
        Timestamp(10),
    )
    .unwrap();
    assert_eq!(None, articles_to_sync(&person));
    if let UserOrInstance::Instance(instance) = actor {
        let local = UserOrInstance::Instance(DbInstance { local: true, ..instance });
        assert_eq!(None, articles_to_sync(&local));
    }
}

#[test]
fn an_article_is_fetched_where_the_store_does_not_hold_it() {
    let mut store = Store::new();
    let config = config();
    let remote = "https://remote.example/article/A";
    let local = "http://local.example:8081/article/B";
    assert_eq!(Ok(ArticleResolution::Fetch), resolve_article(remote, &store, &config, false));
    assert_eq!(Err(Error::ArticleNotFound), resolve_article(local, &store, &config, false));
    assert_eq!(Err(Error::ArticleNotFound), resolve_article(local, &store, &config, true));
    let form = |ap_id: &str, local: bool| DbArticleForm {
        title: "T".to_string(),
        text: String::new(),
        ap_id: ap_id.to_string(),
        instance_id: InstanceId(1),
        local,
        protected: false,
        approved: true,
    };
    let a = DbArticle::create(form(remote, false), &mut store, Timestamp(1)).unwrap();
    let b = DbArticle::create(form(local, true), &mut store, Timestamp(1)).unwrap();
    assert_eq!(Ok(ArticleResolution::Cached(a)), resolve_article(remote, &store, &config, false));
    assert_eq!(Ok(ArticleResolution::Fetch), resolve_article(remote, &store, &config, true));
    assert_eq!(
        Ok(ArticleResolution::Cached(b.clone())),
        resolve_article(local, &store, &config, false)
    );
    assert_eq!(Ok(ArticleResolution::Cached(b)), resolve_article(local, &store, &config, true));
}
