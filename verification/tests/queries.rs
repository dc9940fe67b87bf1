use ibis::api::{approve_article, get_user, list_articles, register_user, search_article};
use ibis::article::DbArticleForm;
use ibis::common::{
    ApiConflict, ApproveArticleForm, ArticleView, CreateArticleForm, DbArticle, DbEdit,
    DbInstance, DbPerson, EditArticleForm, GetUserForm, ListArticlesForm, LocalUserView,
    Notification, RegisterUserForm, SearchArticleForm, SharedConfig, SiteView, MAIN_PAGE_NAME,
};
use ibis::hydrate::DbEditCollection;
use ibis::newtypes::ConflictId;
use ibis::config::{http_protocol_str, FederationConfig, IbisConfig};
use ibis::conflict::{DbConflict, DbConflictForm};
use ibis::error::Error;
use ibis::instance::{DbInstanceForm, DbInstanceUpdateForm};
use ibis::markdown::{scan_article_link, ArticleLink};
use ibis::newtypes::{ArticleId, InstanceId, Timestamp};
use ibis::resolver::{text_to_format, LINE_WIDTH};
use ibis::search::matches_query;
use ibis::store::Store;
use ibis::user::DbPersonForm;
use ibis::version::EditVersion;

/// What the Markdown formatter makes of a submitted text.
fn formatted(text: &str) -> Option<String> {
    fmtm::format(&text_to_format(text), Some(LINE_WIDTH)).ok()
}

fn create_article(
    user: &LocalUserView,
    store: &mut Store,
    config: &IbisConfig,
    form: CreateArticleForm,
    now: Timestamp,
    update_activity_id: String,
    create_activity_id: String,
) -> Result<ibis::api::CreateReport, Error> {
    let text = formatted(&form.text);
    ibis::api::create_article(
        user,
        store,
        config,
        form,
        text,
        now,
        update_activity_id,
        create_activity_id,
    )
}

fn edit_article(
    user: &LocalUserView,
    store: &mut Store,
    config: &IbisConfig,
    form: EditArticleForm,
    now: Timestamp,
    activity_id: String,
) -> Result<ibis::api::EditReport, Error> {
    let text = formatted(&form.new_text);
    ibis::api::edit_article(user, store, config, form, text, now, activity_id)
}

fn setup() -> (Store, IbisConfig, LocalUserView) {
    let mut store = Store::new();
    let config = IbisConfig {
        federation: FederationConfig { domain: "example.com".to_string(), secure: true },
        options: SharedConfig { registration_open: true, article_approval: true },
    };
    let form = DbInstanceForm {
        domain: "example.com".to_string(),
        ap_id: "https://example.com/".to_string(),
        topic: None,
        name: None,
        articles_url: None,
        instances_url: None,
        inbox_url: "https://example.com/inbox".to_string(),
        public_key: "public".to_string(),
        private_key: Some("private".to_string()),
        last_refreshed_at: Timestamp(0),
        local: true,
    };
    DbInstance::create(form, &mut store).unwrap();
    let admin = DbPerson::create_local(
        "root".to_string(),
        "hash".to_string(),
        "public".to_string(),
        "private".to_string(),
        true,
        &mut store,
        &config,
        Timestamp(0),
    )
    .unwrap();
    (store, config, admin)
}

fn article(store: &mut Store, config: &IbisConfig, user: &LocalUserView, title: &str, text: &str, at: i64) -> DbArticle {
    let form = CreateArticleForm {
        title: title.to_string(),
        text: text.to_string(),
        summary: "create".to_string(),
    };
    create_article(user, store, config, form, Timestamp(at), "a".to_string(), "b".to_string())
        .unwrap()
        .view
        .article
}

#[test]
fn articles_are_listed_most_recently_edited_first() {
    let (mut store, config, user) = setup();
    let first = article(&mut store, &config, &user, "First", "one", 10);
    let second = article(&mut store, &config, &user, "Second", "two", 20);
    let third = article(&mut store, &config, &user, "Third", "three", 20);
    let all = ListArticlesForm { only_local: None, instance_id: None };
    let titles = |list: Vec<DbArticle>| list.into_iter().map(|a| a.title).collect::<Vec<_>>();
    assert_eq!(vec!["Second", "Third", "First"], titles(list_articles(all.clone(), &store)));

    let form = EditArticleForm {
        article_id: first.id,
        new_text: "one and more".to_string(),
        summary: "edit".to_string(),
        previous_version_id: first.latest_edit_version(&store),
        resolve_conflict_id: None,
    };
    edit_article(&user, &mut store, &config, form, Timestamp(30), "c".to_string()).unwrap();
    assert_eq!(vec!["First", "Second", "Third"], titles(list_articles(all.clone(), &store)));

    // An article without edits is not listed; remote ones are left out on request.
    let remote = DbArticleForm {
        title: "Remote".to_string(),
        text: String::new(),
        ap_id: "https://remote.example/article/Remote".to_string(),
        instance_id: InstanceId(7),
        local: false,
        protected: false,
        approved: true,
    };
    let remote = DbArticle::create(remote, &mut store, Timestamp(40)).unwrap();
    assert_eq!(3, list_articles(all.clone(), &store).len());
    let diff = diffy::create_patch("", "far away\n").to_string();
    store
        .append_edit(remote.id, diff, "s".to_string(), user.person.id, EditVersion::default(), Timestamp(50))
        .unwrap();
    assert_eq!(
        vec!["Remote", "First", "Second", "Third"],
        titles(list_articles(all, &store))
    );
    let local = ListArticlesForm { only_local: Some(true), instance_id: None };
    assert_eq!(vec!["First", "Second", "Third"], titles(list_articles(local, &store)));
    let of_remote = ListArticlesForm { only_local: Some(false), instance_id: Some(InstanceId(7)) };
    assert_eq!(vec!["Remote"], titles(list_articles(of_remote, &store)));
    let _ = (second, third);
}

#[test]
fn a_text_answers_a_query_whose_words_it_holds_in_order() {
    assert!(matches_query("The quick brown fox", "quick fox"));
    assert!(matches_query("The quick brown fox", "QUICK   Fox"));
    assert!(matches_query("The quick brown fox", "he ick"));
    assert!(!matches_query("The quick brown fox", "fox quick"));
    assert!(!matches_query("The quick brown fox", "quack"));
    assert!(matches_query("abab", "ab ab"));
    assert!(!matches_query("aba", "ab ab"));
    assert!(matches_query("anything", ""));
    assert!(matches_query("", ""));
    assert!(!matches_query("", "a"));
    assert!(matches_query("100% sure_thing", "100% sure_"));
    assert!(!matches_query("100 percent", "100%"));
}

#[test]
fn articles_are_searched_by_title_and_text() {
    let (mut store, config, user) = setup();
    article(&mut store, &config, &user, "Rust", "A language", 10);
    article(&mut store, &config, &user, "Crab", "Verified rust code", 20);
    article(&mut store, &config, &user, "Other", "Nothing here", 30);
    let titles = |query: &str| {
        search_article(SearchArticleForm { query: query.to_string() }, &store)
            .map(|list| list.into_iter().map(|a| a.title).collect::<Vec<_>>())
    };
    assert_eq!(Ok(vec!["Rust".to_string(), "Crab".to_string()]), titles("rust"));
    assert_eq!(Ok(vec!["Crab".to_string()]), titles("verified code"));
    assert_eq!(Ok(Vec::new()), titles("missing"));
    assert_eq!(Err(Error::EmptyQuery), titles(""));
}

#[test]
fn an_admin_decides_on_articles_that_wait_for_approval() {
    let (mut store, config, admin) = setup();
    let user = DbPerson::create_local(
        "alice".to_string(),
        "hash".to_string(),
        "public".to_string(),
        "private".to_string(),
        false,
        &mut store,
        &config,
        Timestamp(0),
    )
    .unwrap();
    let wanted = article(&mut store, &config, &user, "Wanted", "text", 10);
    let unwanted = article(&mut store, &config, &user, "Unwanted", "text", 20);
    assert!(!wanted.approved);
    let conflict = DbConflict::create(
        DbConflictForm {
            hash: EditVersion::new("d"),
            diff: "d".to_string(),
            summary: "s".to_string(),
            creator_id: user.person.id,
            article_id: unwanted.id,
            previous_version_id: EditVersion::default(),
            published: Timestamp(0),
        },
        &mut store,
    )
    .unwrap();
    let other = DbConflict::create(
        DbConflictForm {
            hash: EditVersion::new("d"),
            diff: "d".to_string(),
            summary: "kept".to_string(),
            creator_id: user.person.id,
            article_id: wanted.id,
            previous_version_id: EditVersion::default(),
            published: Timestamp(0),
        },
        &mut store,
    )
    .unwrap();
    let approve = ApproveArticleForm { article_id: wanted.id, approve: true };
    assert_eq!(Err(Error::NotAdmin), approve_article(&user, &mut store, approve));
    assert_eq!(Ok(()), approve_article(&admin, &mut store, approve));
    assert!(DbArticle::read(wanted.id, &store).unwrap().approved);
    let refuse = ApproveArticleForm { article_id: unwanted.id, approve: false };
    assert_eq!(Ok(()), approve_article(&admin, &mut store, refuse));
    assert_eq!(Some(Error::ArticleNotFound), DbArticle::read(unwanted.id, &store).err());
    assert!(DbEdit::list_for_article(unwanted.id, &store).is_empty());
    assert_eq!(vec![other], DbConflict::list(&user.local_user, &store));
    assert_eq!(Err(Error::ArticleNotFound), approve_article(&admin, &mut store, refuse));
    assert_eq!(1, DbEdit::list_for_article(wanted.id, &store).len());
    let missing = ApproveArticleForm { article_id: ArticleId(99), approve: true };
    assert_eq!(Err(Error::ArticleNotFound), approve_article(&admin, &mut store, missing));
    let _ = conflict;
}

#[test]
fn links_to_articles_are_found_and_resolved() {
    let (link, length) = scan_article_link("[[Title@127.0.0.1:8081]] and more").unwrap();
    assert_eq!(ArticleLink { title: "Title".to_string(), domain: "127.0.0.1:8081".to_string() }, link);
    assert_eq!(24, length);
    assert_eq!("/article/Title", link.href("127.0.0.1:8081"));
    assert_eq!("/article/Title@127.0.0.1:8081", link.href("example.com"));

    let (remote, length) = scan_article_link("[[Title@example.com]]").unwrap();
    assert_eq!("/article/Title@example.com", remote.href("127.0.0.1:8081"));
    assert_eq!(21, length);

    let (odd, length) = scan_article_link("[[Ünï@a@b]]]]").unwrap();
    assert_eq!(ArticleLink { title: "Ünï".to_string(), domain: "a@b".to_string() }, odd);
    assert_eq!(11, length);
}

#[test]
fn what_is_no_link_is_not_taken_for_one() {
    assert_eq!(None, scan_article_link("[Title@example.com]]"));
    assert_eq!(None, scan_article_link(" [[Title@example.com]]"));
    assert_eq!(None, scan_article_link("[[Title@example.com]"));
    assert_eq!(None, scan_article_link("[[Title example.com]]"));
    assert_eq!(None, scan_article_link("[[Title]] and then @ and ]]"));
    assert_eq!(None, scan_article_link(""));
    assert_eq!(None, scan_article_link("[["));
    let (empty, length) = scan_article_link("[[@]]").unwrap();
    assert_eq!(ArticleLink { title: String::new(), domain: String::new() }, empty);
    assert_eq!(5, length);
}

#[test]
fn persons_are_found_by_name() {
    let (mut store, _, admin) = setup();
    let remote = DbPersonForm {
        username: "root".to_string(),
        ap_id: "https://Remote.example/user/root".to_string(),
        inbox_url: "https://remote.example/inbox".to_string(),
        public_key: String::new(),
        private_key: None,
        last_refreshed_at: Timestamp(0),
        local: false,
    };
    let remote = DbPerson::create(remote, &mut store).unwrap();
    assert_eq!(Ok(admin.person.clone()), DbPerson::read_from_name("root", &None, true, &store));
    let there = Some("remote.example".to_string());
    assert_eq!(Ok(remote), DbPerson::read_from_name("root", &there, true, &store));
    assert_eq!(Err(Error::PersonNotFound), DbPerson::read_from_name("root", &there, false, &store));
    let here = Some("example.com".to_string());
    assert_eq!(Err(Error::PersonNotFound), DbPerson::read_from_name("root", &here, true, &store));
    assert_eq!(Err(Error::PersonNotFound), DbPerson::read_from_name("nobody", &None, true, &store));
    let view = DbPerson::read_local_from_name("root", &store).unwrap();
    assert_eq!(admin, view);
    assert_eq!(Some(Error::PersonNotFound), DbPerson::read_local_from_name("nobody", &store).err());
}

#[test]
fn the_local_instance_is_described() {
    let (mut store, _, _) = setup();
    let form = DbInstanceUpdateForm { topic: Some("Birds".to_string()), name: None };
    let updated = DbInstance::update(form, &mut store).unwrap();
    assert_eq!(Some("Birds".to_string()), updated.topic);
    assert_eq!(None, updated.name);
    let form = DbInstanceUpdateForm { topic: None, name: Some("Ibis".to_string()) };
    let updated = DbInstance::update(form, &mut store).unwrap();
    assert_eq!(Some("Birds".to_string()), updated.topic);
    assert_eq!(Some("Ibis".to_string()), updated.name);
    let view = DbInstance::read_view(None, &store).unwrap();
    assert_eq!(Ok(view), ibis::api::get_instance(ibis::common::GetInstance { id: None }, &store));
    let view = DbInstance::read_view(None, &store).unwrap();
    assert_eq!(updated, view.instance);
    assert!(view.followers.is_empty());
    assert_eq!(Some(Error::InstanceNotFound), DbInstance::read_view(Some(InstanceId(4)), &store).err());
    let mut empty = Store::new();
    let form = DbInstanceUpdateForm { topic: None, name: None };
    assert_eq!(Some(Error::InstanceNotFound), DbInstance::update(form, &mut empty).err());
}

#[test]
fn defaults_and_constants() {
    assert_eq!("Main_Page", MAIN_PAGE_NAME);
    let config = SharedConfig::default();
    assert!(config.registration_open);
    assert!(!config.article_approval);
    let site = SiteView::default();
    assert!(site.my_profile.is_none());
    assert_eq!(config, site.config);
    assert_eq!("https", http_protocol_str(true));
    assert_eq!("http", http_protocol_str(false));
}

#[test]
fn a_notification_is_as_old_as_what_it_is_about() {
    let (mut store, config, user) = setup();
    let waiting = article(&mut store, &config, &user, "Waiting", "text", 42);
    assert_eq!(Timestamp(42), Notification::ArticleApprovalRequired(waiting).published());
}

#[test]
fn new_users_are_registered_while_registration_is_open() {
    let (mut store, mut config, _) = setup();
    let form = |name: &str| RegisterUserForm { username: name.to_string(), password: "hashed".to_string() };
    let view = register_user(
        &config,
        &mut store,
        form("carol"),
        "public".to_string(),
        "private".to_string(),
        Timestamp(7),
    )
    .unwrap();
    assert_eq!("carol", view.person.username);
    assert_eq!("https://example.com/user/carol", view.person.ap_id);
    assert_eq!("https://example.com/inbox", view.person.inbox_url);
    assert_eq!(Some("private".to_string()), view.person.private_key);
    assert_eq!(Timestamp(7), view.person.last_refreshed_at);
    assert!(view.person.local);
    assert!(!view.local_user.admin);
    assert_eq!("hashed", view.local_user.password_encrypted);
    assert_eq!(view.person.id, view.local_user.person_id);
    assert!(view.following.is_empty());
    let again = register_user(
        &config,
        &mut store,
        form("carol"),
        "public".to_string(),
        "private".to_string(),
        Timestamp(8),
    );
    assert_eq!(Some(Error::DuplicateUser), again.err());
    config.options.registration_open = false;
    let closed = register_user(
        &config,
        &mut store,
        form("dave"),
        "public".to_string(),
        "private".to_string(),
        Timestamp(9),
    );
    assert_eq!(Some(Error::RegistrationClosed), closed.err());
    let found = get_user(GetUserForm { name: "carol".to_string(), domain: None }, &config, &store);
    assert_eq!(Ok(view.person), found);
    let missing = get_user(GetUserForm { name: "dave".to_string(), domain: None }, &config, &store);
    assert_eq!(Err(Error::PersonNotFound), missing);
}

#[test]
fn a_submission_is_based_on_what_the_user_has_before_them() {
    let (mut store, config, user) = setup();
    let created = article(&mut store, &config, &user, "Title", "text", 10);
    let view = DbArticle::read_view(created.id, &store).unwrap();
    let view = ArticleView { article: view.article, latest_version: view.latest_version, edits: view.edits };
    let plain = EditArticleForm::for_submission(&view, None, "new".to_string(), "why".to_string());
    assert_eq!(created.id, plain.article_id);
    assert_eq!("new", plain.new_text);
    assert_eq!("why", plain.summary);
    assert!(plain.previous_version_id == view.latest_version);
    assert_eq!(None, plain.resolve_conflict_id);
    let conflict = ApiConflict {
        id: ConflictId(3),
        hash: EditVersion::new("x"),
        three_way_merge: String::new(),
        summary: "mine".to_string(),
        article: created.clone(),
        previous_version_id: EditVersion::new("newer"),
        published: Timestamp(0),
    };
    let resolving =
        EditArticleForm::for_submission(&view, Some(&conflict), "new".to_string(), "why".to_string());
    assert!(resolving.previous_version_id == EditVersion::new("newer"));
    assert_eq!(Some(ConflictId(3)), resolving.resolve_conflict_id);
}

#[test]
fn the_edits_of_an_article_are_shown_as_a_collection() {
    let (mut store, config, user) = setup();
    let created = article(&mut store, &config, &user, "Title", "text", 10);
    let collection = DbEditCollection::read_local(&created, &store).unwrap();
    assert_eq!("https://example.com/article/Title/edits", collection.id);
    assert_eq!(1, collection.total_items);
    assert_eq!(1, collection.items.len());
    let item = &collection.items[0];
    assert_eq!("https://example.com/article/Title", item.object);
    assert_eq!("https://example.com/user/root", item.attributed_to);
    assert_eq!("create", item.summary);
    assert!(item.previous_version == EditVersion::default());
    assert!(item.version == created.latest_edit_version(&store));
    assert_eq!(Timestamp(10), item.published);
    let stranger = DbArticle { id: ArticleId(99), ..created };
    assert_eq!(0, DbEditCollection::read_local(&stranger, &store).unwrap().items.len());
}

#[test]
fn instances_are_shown_with_their_latest_articles() {
    let (mut store, config, user) = setup();
    for (i, title) in ["A", "B", "C", "D", "E", "F", "G"].iter().enumerate() {
        article(&mut store, &config, &user, title, "text", 10 + i as i64);
    }
    let remote = DbInstanceForm {
        domain: "remote.example".to_string(),
        ap_id: "https://remote.example/".to_string(),
        topic: None,
        name: None,
        articles_url: None,
        instances_url: None,
        inbox_url: "https://remote.example/inbox".to_string(),
        public_key: String::new(),
        private_key: None,
        last_refreshed_at: Timestamp(0),
        local: false,
    };
    DbInstance::create(remote, &mut store).unwrap();
    let views = DbInstance::list_views(&store);
    assert_eq!(2, views.len());
    assert_eq!("example.com", views[0].instance.domain);
    let titles: Vec<&str> = views[0].articles.iter().map(|a| a.title.as_str()).collect();
    assert_eq!(vec!["G", "F", "E", "D", "C"], titles);
    assert_eq!("remote.example", views[1].instance.domain);
    assert!(views[1].articles.is_empty());
}
