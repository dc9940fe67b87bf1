use ibis::activities::{
    without_repetitions, Accept, AnnouncableActivities, AnnounceActivity, CreateArticle, Follow,
    InboxActivities, RejectEdit, UpdateLocalArticle, UpdateRemoteArticle,
};
use ibis::api::follow_instance;
use ibis::common::{
    CreateArticleForm, DbArticle, DbEdit, DbInstance, DbPerson, EditArticleForm, FollowInstance,
    LocalUserView, SharedConfig,
};
use ibis::config::{FederationConfig, IbisConfig};
use ibis::conflict::DbConflict;
use ibis::directory::{PersonOrInstance, UserOrInstance};
use ibis::error::Error;
use ibis::hydrate::{DbArticleCollection, DbEditCollection};
use ibis::inbox::receive_activity;
use ibis::instance::DbInstanceForm;
use ibis::newtypes::Timestamp;
use ibis::objects::{ApubEdit, ApubEditCollection, PUBLIC};
use ibis::outbox::generate_activity_id;
use ibis::resolver::{text_to_format, EditOutcome, LINE_WIDTH};
use ibis::store::Store;
use ibis::user::DbPersonForm;
use ibis::version::EditVersion;

/// What the Markdown formatter makes of a submitted text.
fn formatted(text: &str) -> Option<String> {
    fmtm::format(&text_to_format(text), Some(LINE_WIDTH)).ok()
}

fn create_article(
    user: &LocalUserView,
    store: &mut Store,
    config: &IbisConfig,
    form: CreateArticleForm,
    now: Timestamp,
    update_activity_id: String,
    create_activity_id: String,
) -> Result<ibis::api::CreateReport, Error> {
    let text = formatted(&form.text);
    ibis::api::create_article(
        user,
        store,
        config,
        form,
        text,
        now,
        update_activity_id,
        create_activity_id,
    )
}

fn edit_article(
    user: &LocalUserView,
    store: &mut Store,
    config: &IbisConfig,
    form: EditArticleForm,
    now: Timestamp,
    activity_id: String,
) -> Result<ibis::api::EditReport, Error> {
    let text = formatted(&form.new_text);
    ibis::api::edit_article(user, store, config, form, text, now, activity_id)
}

struct Node {
    store: Store,
    config: IbisConfig,
    user: LocalUserView,
    instance: DbInstance,
}

fn node(domain: &str) -> Node {
    let mut store = Store::new();
    let config = IbisConfig {
        federation: FederationConfig { domain: domain.to_string(), secure: true },
        options: SharedConfig::default(),
    };
    let form = DbInstanceForm {
        domain: domain.to_string(),
        ap_id: format!("https://{}/", domain),
        topic: None,
        name: None,
        articles_url: Some(format!("https://{}/all_articles", domain)),
        instances_url: None,
        inbox_url: format!("https://{}/inbox", domain),
        public_key: format!("public key of {}", domain),
        private_key: Some(format!("private key of {}", domain)),
        last_refreshed_at: Timestamp(0),
        local: true,
    };
    let instance = DbInstance::create(form, &mut store).unwrap();
    let user = DbPerson::create_local(
        "alice".to_string(),
        "hash".to_string(),
        "public".to_string(),
        "private".to_string(),
        false,
        &mut store,
        &config,
        Timestamp(0),
    )
    .unwrap();
    Node { store, config, user, instance }
}

/// Makes `actor` known to `to`, as it would be after fetching it.
fn introduce_instance(to: &mut Node, actor: &DbInstance) -> DbInstance {
    let json = actor.clone().into_json().unwrap();
    DbInstance::from_json(json, &mut to.store, Timestamp(100)).unwrap()
}

fn introduce_person(to: &mut Node, actor: &DbPerson) -> DbPerson {
    let json = actor.clone().into_json().unwrap();
    DbPerson::from_json(json, &mut to.store, Timestamp(100)).unwrap()
}

fn new_article(node: &mut Node, title: &str, text: &str) -> ibis::api::CreateReport {
    let form = CreateArticleForm {
        title: title.to_string(),
        text: text.to_string(),
        summary: "create".to_string(),
    };
    create_article(
        &node.user,
        &mut node.store,
        &node.config,
        form,
        Timestamp(10),
        format!("https://{}/objects/update", node.config.federation.domain),
        format!("https://{}/objects/create", node.config.federation.domain),
    )
    .unwrap()
}

#[test]
fn activity_identifiers_lie_on_the_instance() {
    let a = node("a.example");
    assert_eq!(
        Ok("https://a.example/objects/123e4567".to_string()),
        generate_activity_id(&a.config, "123e4567")
    );
    let bad = IbisConfig {
        federation: FederationConfig { domain: "not a domain".to_string(), secure: false },
        options: SharedConfig::default(),
    };
    assert_eq!(Err(Error::InvalidUrl), generate_activity_id(&bad, "x"));
}

#[test]
fn each_inbox_is_named_once() {
    let list = vec!["a".to_string(), "b".to_string(), "a".to_string(), "c".to_string(), "b".to_string()];
    assert_eq!(vec!["a", "b", "c"], without_repetitions(list));
    let none: Vec<String> = Vec::new();
    assert!(without_repetitions(none).is_empty());
}

#[test]
fn a_follow_is_accepted_at_once_and_established_on_receipt_of_the_acceptance() {
    let mut a = node("a.example");
    let mut x = node("x.example");

    // X's user asks to follow A: the edge on X is pending.
    let a_on_x = introduce_instance(&mut x, &a.instance);
    let out = follow_instance(
        &x.user,
        &mut x.store,
        FollowInstance { id: a_on_x.id },
        "https://x.example/objects/follow".to_string(),
    )
    .unwrap()
    .unwrap();
    assert_eq!(vec!["https://a.example/inbox"], out.inboxes);
    assert_eq!("https://x.example/user/alice", out.actor);
    let following = DbPerson::read_following(x.user.person.id, &x.store);
    assert_eq!(vec![a_on_x.clone()], following);
    assert!(DbInstance::read_followers(a_on_x.id, &x.store).is_empty());

    // Before A has received the request, nothing of A goes to X.
    let report = new_article(&mut a, "Before", "text");
    assert!(report.created.unwrap().inboxes.is_empty());
    assert!(report.updated.unwrap().inboxes.is_empty());

    // A receives the request: the edge on A is established, an acceptance goes out.
    let follower = introduce_person(&mut a, &x.user.person);
    let received = receive_activity(
        out.activity,
        &mut a.store,
        Timestamp(20),
        "https://a.example/objects/accept".to_string(),
    )
    .unwrap();
    assert_eq!(vec![follower.clone()], DbInstance::read_followers(a.instance.id, &a.store));
    let accept = received.delivery.unwrap();
    assert_eq!(vec!["https://x.example/inbox"], accept.inboxes);
    assert_eq!("https://a.example/", accept.actor);
    assert_eq!("private key of a.example", accept.private_key);
    match &accept.activity {
        InboxActivities::Accept(Accept { actor, object, id }) => {
            assert_eq!("https://a.example/", actor);
            assert_eq!("https://a.example/objects/accept", id);
            assert_eq!("https://x.example/user/alice", object.actor);
            assert_eq!("https://a.example/", object.object);
        }
        other => panic!("no acceptance: {:?}", other),
    }

    // From now on what happens on A goes to X.
    let report = new_article(&mut a, "After", "text");
    assert_eq!(vec!["https://x.example/inbox"], report.created.unwrap().inboxes);

    // Until X has received the acceptance, its own edge is pending.
    assert!(DbInstance::read_followers(a_on_x.id, &x.store).is_empty());
    receive_activity(accept.activity, &mut x.store, Timestamp(30), "unused".to_string()).unwrap();
    assert_eq!(vec![x.user.person.clone()], DbInstance::read_followers(a_on_x.id, &x.store));
}

#[test]
fn a_follow_of_another_instance_or_by_a_stranger_is_refused() {
    let mut a = node("a.example");
    let x = node("x.example");
    let follow = Follow {
        actor: x.user.person.ap_id.clone(),
        object: "https://a.example/".to_string(),
        id: "https://x.example/objects/1".to_string(),
    };
    let refused = receive_activity(
        InboxActivities::Follow(follow.clone()),
        &mut a.store,
        Timestamp(1),
        "id".to_string(),
    );
    assert_eq!(Some(Error::PersonNotFound), refused.err());
    introduce_person(&mut a, &x.user.person);
    let elsewhere = Follow { object: "https://b.example/".to_string(), ..follow.clone() };
    let refused = receive_activity(
        InboxActivities::Follow(elsewhere),
        &mut a.store,
        Timestamp(1),
        "id".to_string(),
    );
    assert_eq!(Some(Error::UrlMismatch), refused.err());
    assert!(DbInstance::read_followers(a.instance.id, &a.store).is_empty());
    assert!(receive_activity(
        InboxActivities::Follow(follow),
        &mut a.store,
        Timestamp(1),
        "id".to_string()
    )
    .is_ok());
    assert_eq!(1, DbInstance::read_followers(a.instance.id, &a.store).len());
}

#[test]
fn news_of_an_article_is_taken_in_and_its_edits_are_asked_for() {
    let mut a = node("a.example");
    let mut x = node("x.example");
    let report = new_article(&mut a, "Title", "Hello");
    let created = report.created.unwrap();
    introduce_instance(&mut x, &a.instance);
    let received =
        receive_activity(created.activity, &mut x.store, Timestamp(50), "id".to_string()).unwrap();
    assert_eq!(Some("https://a.example/article/Title/edits".to_string()), received.fetch);
    assert!(received.delivery.is_none());
    let copy = DbArticle::read_from_ap_id("https://a.example/article/Title", &x.store).unwrap();
    assert_eq!("Title", copy.title);
    assert_eq!("Hello\n", copy.text);
    assert!(!copy.local);
    assert!(copy.approved);
    assert_eq!(Timestamp(50), copy.published);

    // The edits come with their collection.
    introduce_person(&mut x, &a.user.person);
    let edits = DbEdit::list_for_article(report.view.article.id, &a.store);
    let items: Vec<ApubEdit> =
        edits.iter().map(|e| e.clone().into_json(&a.store).unwrap()).collect();
    let collection = ApubEditCollection {
        id: "https://a.example/article/Title/edits".to_string(),
        total_items: 1,
        items,
    };
    let stored = DbEditCollection::from_json(collection, &mut x.store).unwrap();
    assert_eq!(1, stored.0.len());
    let history = DbEdit::list_for_article(copy.id, &x.store);
    assert_eq!(1, history.len());
    assert_eq!(edits[0].diff, history[0].diff);
    assert!(history[0].hash == edits[0].hash);
    assert!(copy.latest_edit_version(&x.store) == report.view.latest_version);
    assert_eq!(
        Ok("Hello\n".to_string()),
        ibis::history::generate_article_version(&history, &report.view.latest_version)
    );

    // Taking the same edits in again changes nothing.
    let items: Vec<ApubEdit> =
        edits.iter().map(|e| e.clone().into_json(&a.store).unwrap()).collect();
    let again = ApubEditCollection { id: String::new(), total_items: 1, items };
    DbEditCollection::from_json(again, &mut x.store).unwrap();
    assert_eq!(history, DbEdit::list_for_article(copy.id, &x.store));
}

#[test]
fn an_update_brings_the_copy_up_to_date() {
    let mut a = node("a.example");
    let mut x = node("x.example");
    introduce_instance(&mut x, &a.instance);
    let report = new_article(&mut a, "Title", "Hello");
    receive_activity(report.created.unwrap().activity, &mut x.store, Timestamp(50), "i".to_string())
        .unwrap();
    let form = EditArticleForm {
        article_id: report.view.article.id,
        new_text: "Hello again".to_string(),
        summary: "edit".to_string(),
        previous_version_id: report.view.latest_version,
        resolve_conflict_id: None,
    };
    let edited =
        edit_article(&a.user, &mut a.store, &a.config, form, Timestamp(60), "u".to_string()).unwrap();
    let update = edited.delivery.unwrap();
    assert!(matches!(update.activity, InboxActivities::UpdateLocalArticle(_)));
    let received =
        receive_activity(update.activity, &mut x.store, Timestamp(70), "j".to_string()).unwrap();
    assert!(received.fetch.is_some());
    let copy = DbArticle::read_from_ap_id("https://a.example/article/Title", &x.store).unwrap();
    assert_eq!("Hello again\n", copy.text);
    assert_eq!(Timestamp(50), copy.published);
}

#[test]
fn news_of_an_article_of_an_unknown_instance_is_refused() {
    let mut a = node("a.example");
    let mut x = node("x.example");
    let report = new_article(&mut a, "Title", "Hello");
    let refused = receive_activity(
        report.created.unwrap().activity,
        &mut x.store,
        Timestamp(50),
        "id".to_string(),
    );
    assert_eq!(Some(Error::InstanceNotFound), refused.err());
    assert!(DbArticle::read_from_ap_id("https://a.example/article/Title", &x.store).is_err());
}

#[test]
fn a_document_does_not_replace_a_local_article() {
    let mut a = node("a.example");
    let report = new_article(&mut a, "Title", "Hello");
    let mut json = report.view.article.clone().into_json(&a.store).unwrap();
    assert_eq!(vec![PUBLIC.to_string(), "https://a.example//followers".to_string()], json.to);
    assert!(json.latest_version == report.view.latest_version);
    json.content = "Changed elsewhere".to_string();
    let create = CreateArticle {
        actor: "https://a.example/".to_string(),
        to: Vec::new(),
        object: json,
        id: "https://evil.example/objects/1".to_string(),
    };
    let received = receive_activity(
        InboxActivities::CreateArticle(create),
        &mut a.store,
        Timestamp(50),
        "id".to_string(),
    )
    .unwrap();
    assert!(received.fetch.is_none());
    assert!(received.delivery.is_some());
    assert_eq!("Hello\n", DbArticle::read(report.view.article.id, &a.store).unwrap().text);
}

/// X holds a copy of A's article and A knows X and its user.
fn shared_article() -> (Node, Node, DbArticle, DbArticle) {
    let mut a = node("a.example");
    let mut x = node("x.example");
    let a_on_x = introduce_instance(&mut x, &a.instance);
    introduce_person(&mut x, &a.user.person);
    introduce_instance(&mut a, &x.instance);
    introduce_person(&mut a, &x.user.person);
    let report = new_article(&mut a, "Title", "One\n\nTwo\n");
    receive_activity(report.created.unwrap().activity, &mut x.store, Timestamp(50), "i".to_string())
        .unwrap();
    let items: Vec<ApubEdit> = DbEdit::list_for_article(report.view.article.id, &a.store)
        .into_iter()
        .map(|e| e.into_json(&a.store).unwrap())
        .collect();
    DbEditCollection::from_json(
        ApubEditCollection { id: String::new(), total_items: 1, items },
        &mut x.store,
    )
    .unwrap();
    let copy = DbArticle::read_from_ap_id("https://a.example/article/Title", &x.store).unwrap();
    assert_eq!(a_on_x.id, copy.instance_id);
    (a, x, report.view.article, copy)
}

#[test]
fn an_edit_of_a_remote_article_is_proposed_to_its_origin_and_taken() {
    let (mut a, mut x, original, copy) = shared_article();
    let form = EditArticleForm {
        article_id: copy.id,
        new_text: "One\n\nTwo\n\nThree\n".to_string(),
        summary: "from x".to_string(),
        previous_version_id: copy.latest_edit_version(&x.store),
        resolve_conflict_id: None,
    };
    let report =
        edit_article(&x.user, &mut x.store, &x.config, form, Timestamp(60), "p".to_string()).unwrap();
    assert!(matches!(report.outcome, EditOutcome::Proposed { .. }));
    assert_eq!(1, DbEdit::list_for_article(copy.id, &x.store).len());
    assert_eq!("One\n\nTwo\n", DbArticle::read(copy.id, &x.store).unwrap().text);
    let proposal = report.delivery.unwrap();
    assert_eq!(vec!["https://a.example/inbox"], proposal.inboxes);
    assert!(matches!(proposal.activity, InboxActivities::UpdateRemoteArticle(_)));

    let received =
        receive_activity(proposal.activity, &mut a.store, Timestamp(70), "u".to_string()).unwrap();
    let now = DbArticle::read(original.id, &a.store).unwrap();
    assert_eq!("One\n\nTwo\n\nThree\n", now.text);
    let history = DbEdit::list_for_article(original.id, &a.store);
    assert_eq!(2, history.len());
    assert_eq!("from x", history[1].summary);
    assert_eq!(Timestamp(60), history[1].published);
    let creator = DbPerson::read(history[1].creator_id, &a.store).unwrap();
    assert_eq!("https://x.example/user/alice", creator.ap_id);
    let update = received.delivery.unwrap();
    assert_eq!(vec!["https://x.example/inbox"], update.inboxes);
    match &update.activity {
        InboxActivities::UpdateLocalArticle(UpdateLocalArticle { object, to, .. }) => {
            assert_eq!("One\n\nTwo\n\nThree\n", object.content);
            assert_eq!(vec!["https://x.example/"], *to);
        }
        other => panic!("no update: {:?}", other),
    }
    receive_activity(update.activity, &mut x.store, Timestamp(80), "v".to_string()).unwrap();
    assert_eq!("One\n\nTwo\n\nThree\n", DbArticle::read(copy.id, &x.store).unwrap().text);
}

#[test]
fn a_stale_proposal_is_rejected_and_comes_back_as_a_conflict() {
    let (mut a, mut x, original, copy) = shared_article();
    let stale = copy.latest_edit_version(&x.store);
    let form = EditArticleForm {
        article_id: original.id,
        new_text: "Uno\n\nTwo\n".to_string(),
        summary: "on a".to_string(),
        previous_version_id: stale,
        resolve_conflict_id: None,
    };
    edit_article(&a.user, &mut a.store, &a.config, form, Timestamp(55), "e".to_string()).unwrap();

    let form = EditArticleForm {
        article_id: copy.id,
        new_text: "Eins\n\nTwo\n".to_string(),
        summary: "on x".to_string(),
        previous_version_id: stale,
        resolve_conflict_id: None,
    };
    let report =
        edit_article(&x.user, &mut x.store, &x.config, form, Timestamp(60), "p".to_string()).unwrap();
    let proposal = report.delivery.unwrap();
    let received =
        receive_activity(proposal.activity, &mut a.store, Timestamp(70), "r".to_string()).unwrap();
    assert_eq!("Uno\n\nTwo\n", DbArticle::read(original.id, &a.store).unwrap().text);
    assert_eq!(2, DbEdit::list_for_article(original.id, &a.store).len());
    let rejection = received.delivery.unwrap();
    assert_eq!(vec!["https://x.example/inbox"], rejection.inboxes);
    assert!(matches!(rejection.activity, InboxActivities::RejectEdit(_)));

    receive_activity(rejection.activity, &mut x.store, Timestamp(80), "c".to_string()).unwrap();
    let conflicts = DbConflict::list(&x.user.local_user, &x.store);
    assert_eq!(1, conflicts.len());
    assert_eq!("on x", conflicts[0].summary);
    assert_eq!(copy.id, conflicts[0].article_id);
    assert!(conflicts[0].previous_version_id == stale);
    assert_eq!(Timestamp(80), conflicts[0].published);
}

#[test]
fn a_proposal_for_a_protected_article_is_rejected() {
    let (mut a, x, original, _) = shared_article();
    DbArticle::update_protected(original.id, true, &mut a.store).unwrap();
    let diff = diffy::create_patch("One\n\nTwo\n", "One\n\nTwo\n\nThree\n").to_string();
    let edit = ApubEdit {
        id: "https://x.example/edit/1".to_string(),
        version: EditVersion::new(&diff),
        content: diff,
        summary: "from x".to_string(),
        previous_version: original.latest_edit_version(&a.store),
        object: original.ap_id.clone(),
        attributed_to: x.user.person.ap_id.clone(),
        published: Timestamp(60),
    };
    let update = UpdateRemoteArticle {
        actor: x.instance.ap_id.clone(),
        to: vec![a.instance.ap_id.clone()],
        object: edit.clone(),
        id: "https://x.example/objects/9".to_string(),
    };
    let received = receive_activity(
        InboxActivities::UpdateRemoteArticle(update),
        &mut a.store,
        Timestamp(70),
        "r".to_string(),
    )
    .unwrap();
    assert_eq!(1, DbEdit::list_for_article(original.id, &a.store).len());
    match received.delivery.unwrap().activity {
        InboxActivities::RejectEdit(RejectEdit { object, to, .. }) => {
            assert_eq!(edit, object);
            assert_eq!(vec!["https://x.example/"], to);
        }
        other => panic!("no rejection: {:?}", other),
    }
}

#[test]
fn an_announcement_is_taken_as_the_activity_that_it_passes_on() {
    let mut a = node("a.example");
    let mut x = node("x.example");
    introduce_instance(&mut x, &a.instance);
    let report = new_article(&mut a, "Title", "Hello");
    let create = match report.created.unwrap().activity {
        InboxActivities::CreateArticle(create) => create,
        other => panic!("no creation: {:?}", other),
    };
    let announce = AnnounceActivity::send(
        AnnouncableActivities::CreateArticle(create),
        &a.store,
        "https://a.example/objects/announce".to_string(),
    )
    .unwrap();
    assert!(announce.inboxes.is_empty());
    match &announce.activity {
        InboxActivities::AnnounceActivity(inner) => assert_eq!(vec![PUBLIC], inner.to),
        other => panic!("no announcement: {:?}", other),
    }
    let received =
        receive_activity(announce.activity, &mut x.store, Timestamp(50), "i".to_string()).unwrap();
    assert!(received.fetch.is_some());
    assert!(DbArticle::read_from_ap_id("https://a.example/article/Title", &x.store).is_ok());
}

#[test]
fn a_remote_actor_cannot_send() {
    let mut a = node("a.example");
    let x = node("x.example");
    let stranger = introduce_person(&mut a, &x.user.person);
    assert!(stranger.private_key.is_none());
    assert!(!stranger.local);
    let refused = Follow::send(stranger, &a.instance, "id".to_string());
    assert_eq!(Some(Error::NoPrivateKey), refused.err());
}

#[test]
fn a_collection_of_articles_is_shown_and_taken_in() {
    let mut a = node("a.example");
    let mut x = node("x.example");
    new_article(&mut a, "First", "one");
    new_article(&mut a, "Second", "two");
    let collection = DbArticleCollection::read_local(&a.instance, &a.store).unwrap();
    assert_eq!("https://a.example/all_articles", collection.id);
    assert_eq!(2, collection.total_items);
    assert_eq!(2, collection.items.len());
    assert_eq!(Ok(()), DbArticleCollection::verify(&collection, "https://a.example/"));
    assert_eq!(
        Err(Error::DomainMismatch),
        DbArticleCollection::verify(&collection, "https://x.example/")
    );
    let (stored, stopped) = DbArticleCollection::from_json(collection, &mut x.store, Timestamp(5));
    assert_eq!(Some(Error::InstanceNotFound), stopped);
    assert!(stored.0.is_empty());
    introduce_instance(&mut x, &a.instance);
    let collection = DbArticleCollection::read_local(&a.instance, &a.store).unwrap();
    let (stored, stopped) = DbArticleCollection::from_json(collection, &mut x.store, Timestamp(5));
    assert_eq!(None, stopped);
    assert_eq!(2, stored.0.len());
    assert!(DbArticle::read_from_ap_id("https://a.example/article/First", &x.store).is_ok());
    assert!(DbArticle::read_from_ap_id("https://a.example/article/Second", &x.store).is_ok());
}

#[test]
fn actors_show_their_keys() {
    let a = node("a.example");
    let json = a.instance.clone().into_json().unwrap();
    assert_eq!("https://a.example/", json.id);
    assert_eq!("https://a.example/inbox", json.inbox);
    assert_eq!("https://a.example/#main-key", json.public_key.id);
    assert_eq!("https://a.example/", json.public_key.owner);
    assert_eq!("public key of a.example", json.public_key.public_key_pem);
    let person = a.user.person.clone().into_json().unwrap();
    assert_eq!("https://a.example/user/alice", person.id);
    assert_eq!("alice", person.preferred_username);
    assert_eq!("https://a.example/inbox", person.inbox);
    let actor = UserOrInstance::User(a.user.person.clone());
    assert_eq!("https://a.example/user/alice", actor.id());
    assert_eq!("public", actor.public_key_pem());
    assert_eq!(Some("private".to_string()), actor.private_key_pem());
    assert_eq!(Timestamp(0), actor.last_refreshed_at());
    assert_eq!(Ok(()), UserOrInstance::verify(&PersonOrInstance::Person(person), "https://a.example/"));
    assert_eq!(Some("https://a.example/inbox".to_string()), a.instance.inbox_url());
    assert_eq!(Some("https://a.example/inbox".to_string()), a.user.person.inbox_url());
    assert_eq!(Ok("https://a.example//followers".to_string()), a.instance.followers_url());
    let odd = DbPersonForm {
        username: "odd".to_string(),
        ap_id: "https://a.example/user/odd".to_string(),
        inbox_url: "no url".to_string(),
        public_key: String::new(),
        private_key: None,
        last_refreshed_at: Timestamp(0),
        local: false,
    };
    let mut store = Store::new();
    let odd = DbPerson::create(odd, &mut store).unwrap();
    assert_eq!(None, odd.inbox_url());
    assert_eq!(Some(Error::InvalidUrl), odd.into_json().err());
}
