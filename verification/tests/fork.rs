use ibis::api::fork_article;
use ibis::common::{
    CreateArticleForm, DbArticle, DbEdit, DbInstance, DbPerson, EditArticleForm, ForkArticleForm,
    LocalUserView, SharedConfig,
};
use ibis::config::{FederationConfig, IbisConfig};
use ibis::error::Error;
use ibis::history::generate_article_version;
use ibis::instance::DbInstanceForm;
use ibis::newtypes::{ArticleId, Timestamp};
use ibis::resolver::{text_to_format, LINE_WIDTH};
use ibis::store::Store;

/// What the Markdown formatter makes of a submitted text.
fn formatted(text: &str) -> Option<String> {
    fmtm::format(&text_to_format(text), Some(LINE_WIDTH)).ok()
}

fn create_article(
    user: &LocalUserView,
    store: &mut Store,
    config: &IbisConfig,
    form: CreateArticleForm,
    now: Timestamp,
    update_activity_id: String,
    create_activity_id: String,
) -> Result<ibis::api::CreateReport, Error> {
    let text = formatted(&form.text);
    ibis::api::create_article(
        user,
        store,
        config,
        form,
        text,
        now,
        update_activity_id,
        create_activity_id,
    )
}

fn edit_article(
    user: &LocalUserView,
    store: &mut Store,
    config: &IbisConfig,
    form: EditArticleForm,
    now: Timestamp,
    activity_id: String,
) -> Result<ibis::api::EditReport, Error> {
    let text = formatted(&form.new_text);
    ibis::api::edit_article(user, store, config, form, text, now, activity_id)
}

fn setup() -> (Store, IbisConfig, LocalUserView, DbArticle) {
    let mut store = Store::new();
    let config = IbisConfig {
        federation: FederationConfig { domain: "example.com".to_string(), secure: true },
        options: SharedConfig::default(),
    };
    let form = DbInstanceForm {
        domain: "example.com".to_string(),
        ap_id: "https://example.com/".to_string(),
        topic: None,
        name: None,
        articles_url: None,
        instances_url: None,
        inbox_url: "https://example.com/inbox".to_string(),
        public_key: "public".to_string(),
        private_key: Some("private".to_string()),
        last_refreshed_at: Timestamp(0),
        local: true,
    };
    DbInstance::create(form, &mut store).unwrap();
    let user = DbPerson::create_local(
        "alice".to_string(),
        "hash".to_string(),
        "public".to_string(),
        "private".to_string(),
        false,
        &mut store,
        &config,
        Timestamp(0),
    )
    .unwrap();
    let form = CreateArticleForm {
        title: "Source".to_string(),
        text: "One".to_string(),
        summary: "create".to_string(),
    };
    let article =
        create_article(&user, &mut store, &config, form, Timestamp(1), "a".to_string(), "b".to_string())
            .unwrap()
            .view
            .article;
    for (i, text) in ["One\n\nTwo\n", "One\n\nTwo\n\nThree\n"].iter().enumerate() {
        let current = DbArticle::read(article.id, &store).unwrap();
        let form = EditArticleForm {
            article_id: article.id,
            new_text: text.to_string(),
            summary: format!("edit {}", i),
            previous_version_id: current.latest_edit_version(&store),
            resolve_conflict_id: None,
        };
        edit_article(&user, &mut store, &config, form, Timestamp(2), "c".to_string()).unwrap();
    }
    let article = DbArticle::read(article.id, &store).unwrap();
    (store, config, user, article)
}

#[test]
fn a_fork_copies_text_and_history() {
    let (mut store, config, _, source) = setup();
    let before = DbEdit::list_for_article(source.id, &store);
    let form = ForkArticleForm { article_id: source.id, new_title: "My fork".to_string() };
    let report = fork_article(&mut store, &config, form, Timestamp(9), "id".to_string()).unwrap();
    let fork = &report.view.article;
    assert!(fork.id != source.id);
    assert_eq!("My_fork", fork.title);
    assert_eq!("https://example.com/article/My_fork", fork.ap_id);
    assert_eq!(source.text, fork.text);
    assert!(fork.local);
    assert!(report.delivery.is_some());

    let copies = DbEdit::list_for_article(fork.id, &store);
    assert_eq!(before.len(), copies.len());
    assert_eq!(3, copies.len());
    for (original, copy) in before.iter().zip(copies.iter()) {
        assert!(copy.hash == original.hash);
        assert_eq!(original.diff, copy.diff);
        assert_eq!(original.summary, copy.summary);
        assert_eq!(original.creator_id, copy.creator_id);
        assert!(copy.previous_version_id == original.previous_version_id);
        assert_eq!(fork.id, copy.article_id);
        assert!(copy.id != original.id);
        assert_eq!(format!("{}/{}", fork.ap_id, copy.hash.hash()), copy.ap_id);
        assert_eq!(Timestamp(9), copy.published);
    }
    assert!(report.view.latest_version == source.latest_edit_version(&store));
    let latest = fork.latest_edit_version(&store);
    assert_eq!(Ok(fork.text.clone()), generate_article_version(&copies, &latest));
    assert_eq!(before, DbEdit::list_for_article(source.id, &store));
    assert_eq!(source, DbArticle::read(source.id, &store).unwrap());
}

#[test]
fn fork_and_source_go_their_own_ways() {
    let (mut store, config, user, source) = setup();
    let form = ForkArticleForm { article_id: source.id, new_title: "Fork".to_string() };
    let fork = fork_article(&mut store, &config, form, Timestamp(9), "id".to_string())
        .unwrap()
        .view
        .article;
    let shared = source.latest_edit_version(&store);

    let on_fork = EditArticleForm {
        article_id: fork.id,
        new_text: "Forked\n".to_string(),
        summary: "on fork".to_string(),
        previous_version_id: shared,
        resolve_conflict_id: None,
    };
    edit_article(&user, &mut store, &config, on_fork, Timestamp(10), "x".to_string()).unwrap();
    assert_eq!(source, DbArticle::read(source.id, &store).unwrap());
    assert_eq!(3, DbEdit::list_for_article(source.id, &store).len());
    assert_eq!(4, DbEdit::list_for_article(fork.id, &store).len());

    let on_source = EditArticleForm {
        article_id: source.id,
        new_text: "Original\n".to_string(),
        summary: "on source".to_string(),
        previous_version_id: shared,
        resolve_conflict_id: None,
    };
    edit_article(&user, &mut store, &config, on_source, Timestamp(11), "y".to_string()).unwrap();
    assert_eq!("Forked\n", DbArticle::read(fork.id, &store).unwrap().text);
    assert_eq!("Original\n", DbArticle::read(source.id, &store).unwrap().text);
    assert_eq!(4, DbEdit::list_for_article(fork.id, &store).len());
    assert_eq!(4, DbEdit::list_for_article(source.id, &store).len());
}

#[test]
fn a_fork_that_is_refused_changes_nothing() {
    let (mut store, config, _, source) = setup();
    let missing = ForkArticleForm { article_id: ArticleId(9), new_title: "Fork".to_string() };
    assert_eq!(
        Some(Error::ArticleNotFound),
        fork_article(&mut store, &config, missing, Timestamp(9), "id".to_string()).err()
    );
    let same = ForkArticleForm { article_id: source.id, new_title: "Source".to_string() };
    assert_eq!(
        Some(Error::DuplicateArticle),
        fork_article(&mut store, &config, same, Timestamp(9), "id".to_string()).err()
    );
    let untitled = ForkArticleForm { article_id: source.id, new_title: String::new() };
    assert_eq!(
        Some(Error::EmptyTitle),
        fork_article(&mut store, &config, untitled, Timestamp(9), "id".to_string()).err()
    );
    assert!(DbArticle::read(ArticleId(2), &store).is_err());
    assert_eq!(3, DbEdit::list_for_article(source.id, &store).len());
}

#[test]
fn a_fork_cannot_take_the_title_of_an_article_in_another_spelling() {
    let (mut store, config, user, source) = setup();
    let form = CreateArticleForm {
        title: "Two words".to_string(),
        text: "Text".to_string(),
        summary: "create".to_string(),
    };
    let created =
        create_article(&user, &mut store, &config, form, Timestamp(3), "a".to_string(), "b".to_string())
            .unwrap()
            .view
            .article;
    assert_eq!("Two_words", created.title);
    assert_eq!("https://example.com/article/Two_words", created.ap_id);
    for title in ["Two words", "Two_words"] {
        let form = ForkArticleForm { article_id: source.id, new_title: title.to_string() };
        assert_eq!(
            Some(Error::DuplicateArticle),
            fork_article(&mut store, &config, form, Timestamp(9), "id".to_string()).err()
        );
    }
    let form = ForkArticleForm { article_id: source.id, new_title: "Three words now".to_string() };
    let fork = fork_article(&mut store, &config, form, Timestamp(9), "id".to_string())
        .unwrap()
        .view
        .article;
    assert_eq!("Three_words_now", fork.title);
    assert_eq!("https://example.com/article/Three_words_now", fork.ap_id);
}
