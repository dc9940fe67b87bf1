use ibis::api::{get_article, protect_article};
use ibis::article::{can_edit_article, validate_title, DbArticleForm};
use ibis::common::{
    CreateArticleForm, DbArticle, DbEdit, DbInstance, DbPerson, EditArticleForm, GetArticleForm,
    LocalUserView, ProtectArticleForm, SharedConfig,
};
use ibis::config::{FederationConfig, IbisConfig};
use ibis::error::{Error, ErrorKind};
use ibis::history::generate_article_version;
use ibis::instance::DbInstanceForm;
use ibis::newtypes::{ArticleId, InstanceId, Timestamp};
use ibis::resolver::{text_to_format, EditOutcome, LINE_WIDTH};
use ibis::store::Store;
use ibis::version::EditVersion;

/// What the Markdown formatter makes of a submitted text.
fn formatted(text: &str) -> Option<String> {
    fmtm::format(&text_to_format(text), Some(LINE_WIDTH)).ok()
}

fn create_article(
    user: &LocalUserView,
    store: &mut Store,
    config: &IbisConfig,
    form: CreateArticleForm,
    now: Timestamp,
    update_activity_id: String,
    create_activity_id: String,
) -> Result<ibis::api::CreateReport, Error> {
    let text = formatted(&form.text);
    ibis::api::create_article(
        user,
        store,
        config,
        form,
        text,
        now,
        update_activity_id,
        create_activity_id,
    )
}

fn edit_article(
    user: &LocalUserView,
    store: &mut Store,
    config: &IbisConfig,
    form: EditArticleForm,
    now: Timestamp,
    activity_id: String,
) -> Result<ibis::api::EditReport, Error> {
    let text = formatted(&form.new_text);
    ibis::api::edit_article(user, store, config, form, text, now, activity_id)
}

fn config() -> IbisConfig {
    IbisConfig {
        federation: FederationConfig { domain: "example.com".to_string(), secure: true },
        options: SharedConfig::default(),
    }
}

fn setup() -> (Store, IbisConfig, LocalUserView) {
    let mut store = Store::new();
    let config = config();
    let form = DbInstanceForm {
        domain: "example.com".to_string(),
        ap_id: "https://example.com/".to_string(),
        topic: None,
        name: None,
        articles_url: Some("https://example.com/all_articles".to_string()),
        instances_url: None,
        inbox_url: "https://example.com/inbox".to_string(),
        public_key: "public".to_string(),
        private_key: Some("private".to_string()),
        last_refreshed_at: Timestamp(0),
        local: true,
    };
    DbInstance::create(form, &mut store).unwrap();
    let user = DbPerson::create_local(
        "alice".to_string(),
        "hash".to_string(),
        "public".to_string(),
        "private".to_string(),
        false,
        &mut store,
        &config,
        Timestamp(0),
    )
    .unwrap();
    (store, config, user)
}

fn new_article(
    store: &mut Store,
    config: &IbisConfig,
    user: &LocalUserView,
    title: &str,
    text: &str,
) -> Result<DbArticle, Error> {
    let form = CreateArticleForm {
        title: title.to_string(),
        text: text.to_string(),
        summary: "create".to_string(),
    };
    create_article(
        user,
        store,
        config,
        form,
        Timestamp(10),
        "https://example.com/objects/1".to_string(),
        "https://example.com/objects/2".to_string(),
    )
    .map(|report| report.view.article)
}

fn edit(
    store: &mut Store,
    config: &IbisConfig,
    user: &LocalUserView,
    article: ArticleId,
    text: &str,
    previous: EditVersion,
) -> Result<ibis::api::EditReport, Error> {
    let form = EditArticleForm {
        article_id: article,
        new_text: text.to_string(),
        summary: "edit".to_string(),
        previous_version_id: previous,
        resolve_conflict_id: None,
    };
    edit_article(user, store, config, form, Timestamp(20), "https://example.com/objects/3".to_string())
}

#[test]
fn titles_are_checked() {
    assert_eq!(Err(Error::EmptyTitle), validate_title(""));
    assert_eq!(Err(Error::InvalidTitle), validate_title("a/b"));
    assert_eq!(Ok(()), validate_title("A title"));
}

#[test]
fn an_article_is_created_with_its_first_edit() {
    let (mut store, config, user) = setup();
    let form = CreateArticleForm {
        title: "My first article".to_string(),
        text: "Hello world".to_string(),
        summary: "create".to_string(),
    };
    let report = create_article(
        &user,
        &mut store,
        &config,
        form,
        Timestamp(10),
        "https://example.com/objects/1".to_string(),
        "https://example.com/objects/2".to_string(),
    )
    .unwrap();
    let article = &report.view.article;
    assert_eq!("My_first_article", article.title);
    assert_eq!("Hello world\n", article.text);
    assert_eq!("https://example.com/article/My_first_article", article.ap_id);
    assert!(article.local);
    assert!(!article.protected);
    assert!(article.approved);
    assert_eq!(Timestamp(10), article.published);
    assert_eq!(1, report.view.edits.len());
    let first = &report.view.edits[0].edit;
    assert!(first.previous_version_id == EditVersion::default());
    assert!(first.hash == report.view.latest_version);
    assert_eq!("--- original\n+++ modified\n@@ -0,0 +1 @@\n+Hello world\n", first.diff);
    assert!(first.hash == EditVersion::new(&first.diff));
    assert_eq!(
        format!("https://example.com/article/My_first_article/{}", first.hash.hash()),
        first.ap_id
    );
    assert_eq!("create", first.summary);
    assert_eq!(user.person.id, first.creator_id);
    assert_eq!(user.person.id, report.view.edits[0].creator.id);
    assert!(report.updated.is_some());
    assert!(report.created.is_some());
}

#[test]
fn approval_can_be_required() {
    let (mut store, mut config, user) = setup();
    config.options.article_approval = true;
    let article = new_article(&mut store, &config, &user, "Waiting", "text").unwrap();
    assert!(!article.approved);
}

#[test]
fn a_refused_article_leaves_no_trace() {
    let (mut store, config, user) = setup();
    assert_eq!(Err(Error::EmptyTitle), new_article(&mut store, &config, &user, "", "text"));
    assert_eq!(Err(Error::InvalidTitle), new_article(&mut store, &config, &user, "a/b", "text"));
    assert_eq!(Err(Error::NoChanges), new_article(&mut store, &config, &user, "Empty", ""));
    assert_eq!(
        Err(Error::LocalLink),
        new_article(&mut store, &config, &user, "Link", "[a](https://example.com/article/A)")
    );
    let form = CreateArticleForm {
        title: "No summary".to_string(),
        text: "text".to_string(),
        summary: String::new(),
    };
    let refused = create_article(
        &user,
        &mut store,
        &config,
        form,
        Timestamp(10),
        "https://example.com/objects/1".to_string(),
        "https://example.com/objects/2".to_string(),
    );
    assert_eq!(Some(Error::EmptySummary), refused.err());
    assert!(DbArticle::read(ArticleId(1), &store).is_err());
    let article = new_article(&mut store, &config, &user, "Empty", "now with text").unwrap();
    assert_eq!(ArticleId(1), article.id);
}

#[test]
fn no_two_articles_share_a_federation_identifier() {
    let (mut store, config, user) = setup();
    new_article(&mut store, &config, &user, "Same title", "one").unwrap();
    assert_eq!(
        Err(Error::DuplicateArticle),
        new_article(&mut store, &config, &user, "Same_title", "two")
    );
    assert_eq!(ErrorKind::Validation, Error::DuplicateArticle.kind());
}

#[test]
fn without_a_local_instance_no_article_is_created() {
    let mut store = Store::new();
    let config = config();
    let user = DbPerson::create_local(
        "alice".to_string(),
        "hash".to_string(),
        "public".to_string(),
        "private".to_string(),
        false,
        &mut store,
        &config,
        Timestamp(0),
    )
    .unwrap();
    assert_eq!(
        Err(Error::InstanceNotFound),
        new_article(&mut store, &config, &user, "Title", "text")
    );
}

#[test]
fn an_edit_on_the_latest_version_is_committed() {
    let (mut store, config, user) = setup();
    let article = new_article(&mut store, &config, &user, "Title", "First line").unwrap();
    let latest = article.latest_edit_version(&store);
    let report = edit(&mut store, &config, &user, article.id, "First line\n\nSecond line\n", latest)
        .unwrap();
    assert!(report.conflict().is_none());
    assert!(report.resolution.is_none());
    match &report.outcome {
        EditOutcome::Committed { edit, article: updated } => {
            assert_eq!("First line\n\nSecond line\n", updated.text);
            assert!(edit.previous_version_id == latest);
            assert!(edit.hash == EditVersion::new(&edit.diff));
            assert_eq!(
                "--- original\n+++ modified\n@@ -1 +1,3 @@\n First line\n+\n+Second line\n",
                edit.diff
            );
        }
        other => panic!("not committed: {:?}", other),
    }
    let stored = DbArticle::read(article.id, &store).unwrap();
    assert_eq!("First line\n\nSecond line\n", stored.text);
    assert!(stored.latest_edit_version(&store) != latest);
    assert!(report.delivery.is_some());
}

#[test]
fn the_text_is_stored_in_canonical_form() {
    let (mut store, config, user) = setup();
    let long = "Some text that is quite long and should probably be wrapped somewhere because it exceeds eighty characters in width, does it not?";
    let article = new_article(&mut store, &config, &user, "Long", long).unwrap();
    assert_eq!(
        "Some text that is quite long and should probably be wrapped somewhere because\nit exceeds eighty characters in width, does it not?\n",
        article.text
    );
}

#[test]
fn submissions_are_checked() {
    let (mut store, config, user) = setup();
    let article = new_article(&mut store, &config, &user, "Title", "Text").unwrap();
    let latest = article.latest_edit_version(&store);
    assert_eq!(
        Some(Error::NoChanges),
        edit(&mut store, &config, &user, article.id, "Text\n", latest).err()
    );
    assert_eq!(
        Some(Error::LocalLink),
        edit(&mut store, &config, &user, article.id, "[a](https://example.com/b)", latest).err()
    );
    assert_eq!(
        Some(Error::ArticleNotFound),
        edit(&mut store, &config, &user, ArticleId(99), "Other", latest).err()
    );
    let form = EditArticleForm {
        article_id: article.id,
        new_text: "Other".to_string(),
        summary: String::new(),
        previous_version_id: latest,
        resolve_conflict_id: None,
    };
    let refused = edit_article(&user, &mut store, &config, form, Timestamp(20), "id".to_string());
    assert_eq!(Some(Error::EmptySummary), refused.err());
    let form = EditArticleForm {
        article_id: article.id,
        new_text: "Other".to_string(),
        summary: "resolve".to_string(),
        previous_version_id: latest,
        resolve_conflict_id: Some(ibis::newtypes::ConflictId(5)),
    };
    let refused = edit_article(&user, &mut store, &config, form, Timestamp(20), "id".to_string());
    assert_eq!(Some(Error::ConflictNotFound), refused.err());
    assert_eq!("Text\n", DbArticle::read(article.id, &store).unwrap().text);
    assert_eq!(1, DbEdit::list_for_article(article.id, &store).len());
}

#[test]
fn the_same_text_is_refused_whatever_the_previous_version() {
    let (mut store, config, user) = setup();
    let article = new_article(&mut store, &config, &user, "Title", "Text").unwrap();
    let latest = article.latest_edit_version(&store);
    for previous in [latest, EditVersion::default(), EditVersion::new("anything")] {
        let refused = edit(&mut store, &config, &user, article.id, "Text\n", previous);
        assert_eq!(Some(Error::NoChanges), refused.err());
        assert_eq!(ErrorKind::Validation, Error::NoChanges.kind());
    }
}

#[test]
fn every_version_of_the_chain_can_be_reconstructed() {
    let (mut store, config, user) = setup();
    let article = new_article(&mut store, &config, &user, "Title", "One").unwrap();
    let texts = ["One\n\nTwo\n", "One\n\nTwo\n\nThree\n", "Zero\n\nTwo\n\nThree\n"];
    let mut versions = vec![(EditVersion::default(), String::new())];
    versions.push((article.latest_edit_version(&store), "One\n".to_string()));
    for text in texts {
        let latest = DbArticle::read(article.id, &store).unwrap().latest_edit_version(&store);
        edit(&mut store, &config, &user, article.id, text, latest).unwrap();
        let now = DbArticle::read(article.id, &store).unwrap();
        versions.push((now.latest_edit_version(&store), text.to_string()));
    }
    let edits = DbEdit::list_for_article(article.id, &store);
    assert_eq!(4, edits.len());
    for (version, text) in &versions {
        assert_eq!(Ok(text.clone()), generate_article_version(&edits, version));
    }
    let current = DbArticle::read(article.id, &store).unwrap();
    let latest = current.latest_edit_version(&store);
    assert_eq!(Ok(current.text), generate_article_version(&edits, &latest));
}

#[test]
fn a_version_that_is_not_on_the_chain_is_not_found() {
    let (mut store, config, user) = setup();
    let first = new_article(&mut store, &config, &user, "First", "One").unwrap();
    let second = new_article(&mut store, &config, &user, "Second", "Other").unwrap();
    let edits = DbEdit::list_for_article(first.id, &store);
    let foreign = second.latest_edit_version(&store);
    assert_eq!(Err(Error::VersionNotFound), generate_article_version(&edits, &foreign));
    assert_eq!(ErrorKind::NotFound, Error::VersionNotFound.kind());
    let none: Vec<DbEdit> = Vec::new();
    assert_eq!(Ok(String::new()), generate_article_version(&none, &EditVersion::default()));
    assert_eq!(Err(Error::VersionNotFound), generate_article_version(&none, &foreign));
}

#[test]
fn a_broken_chain_is_not_walked_forever() {
    let looped = |hash: &str, previous: &str| DbEdit {
        id: ibis::newtypes::EditId(1),
        creator_id: ibis::newtypes::PersonId(1),
        hash: EditVersion::new(hash),
        ap_id: String::new(),
        diff: "--- original\n+++ modified\n".to_string(),
        summary: String::new(),
        article_id: ArticleId(1),
        previous_version_id: EditVersion::new(previous),
        published: Timestamp(0),
    };
    let edits = vec![looped("a", ""), looped("", "a")];
    assert_eq!(
        Err(Error::VersionNotFound),
        generate_article_version(&edits, &EditVersion::new("b"))
    );
    assert_eq!(Ok(String::new()), generate_article_version(&edits, &EditVersion::new("a")));
}

#[test]
fn a_diff_that_does_not_apply_breaks_the_chain() {
    let edit = DbEdit {
        id: ibis::newtypes::EditId(1),
        creator_id: ibis::newtypes::PersonId(1),
        hash: EditVersion::new("x"),
        ap_id: String::new(),
        diff: "--- original\n+++ modified\n@@ -1 +1 @@\n-missing\n+new\n".to_string(),
        summary: String::new(),
        article_id: ArticleId(1),
        previous_version_id: EditVersion::default(),
        published: Timestamp(0),
    };
    let garbage = DbEdit { diff: "@@ garbage".to_string(), ..edit.clone() };
    assert_eq!(
        Err(Error::VersionNotFound),
        generate_article_version(&vec![edit], &EditVersion::new("x"))
    );
    assert_eq!(
        Err(Error::VersionNotFound),
        generate_article_version(&vec![garbage], &EditVersion::new("x"))
    );
}

#[test]
fn protected_articles_are_edited_by_admins_only() {
    let (mut store, config, user) = setup();
    let admin = DbPerson::create_local(
        "root".to_string(),
        "hash".to_string(),
        "public".to_string(),
        "private".to_string(),
        true,
        &mut store,
        &config,
        Timestamp(0),
    )
    .unwrap();
    let article = new_article(&mut store, &config, &user, "Title", "Text").unwrap();
    let params = ProtectArticleForm { article_id: article.id, protected: true };
    assert_eq!(Some(Error::NotAdmin), protect_article(&user, &mut store, params).err());
    assert_eq!(ErrorKind::Authorization, Error::NotAdmin.kind());
    let protected = protect_article(&admin, &mut store, params).unwrap();
    assert!(protected.protected);
    let latest = protected.latest_edit_version(&store);
    assert_eq!(
        Some(Error::ArticleProtected),
        edit(&mut store, &config, &user, article.id, "Changed", latest).err()
    );
    assert!(edit(&mut store, &config, &admin, article.id, "Changed", latest).is_ok());
    assert_eq!(Err(Error::ArticleProtected), can_edit_article(&protected, false));
    assert_eq!(Ok(()), can_edit_article(&protected, true));
    let remote = DbArticle { local: false, ..protected.clone() };
    assert_eq!(Err(Error::ArticleProtected), can_edit_article(&remote, true));
    let open = DbArticle { protected: false, ..remote };
    assert_eq!(Ok(()), can_edit_article(&open, false));
}

#[test]
fn articles_are_looked_up_by_title_or_id() {
    let (mut store, config, user) = setup();
    let article = new_article(&mut store, &config, &user, "Some title", "Text").unwrap();
    let by_title = get_article(
        GetArticleForm { title: Some("Some_title".to_string()), domain: None, id: None },
        &store,
    )
    .unwrap();
    assert_eq!(article.id, by_title.article.id);
    let by_id =
        get_article(GetArticleForm { title: None, domain: None, id: Some(article.id) }, &store)
            .unwrap();
    assert_eq!("Some_title", by_id.article.title);
    assert_eq!(1, by_id.edits.len());
    let both = GetArticleForm {
        title: Some("Some_title".to_string()),
        domain: None,
        id: Some(article.id),
    };
    assert_eq!(Some(Error::InvalidQuery), get_article(both, &store).err());
    let neither = GetArticleForm { title: None, domain: None, id: None };
    assert_eq!(Some(Error::InvalidQuery), get_article(neither, &store).err());
    let with_domain = GetArticleForm {
        title: None,
        domain: Some("example.com".to_string()),
        id: Some(article.id),
    };
    assert_eq!(Some(Error::InvalidQuery), get_article(with_domain, &store).err());
    let remote = GetArticleForm {
        title: Some("Some_title".to_string()),
        domain: Some("other.org".to_string()),
        id: None,
    };
    assert_eq!(Some(Error::ArticleNotFound), get_article(remote, &store).err());
    let missing = GetArticleForm { title: None, domain: None, id: Some(ArticleId(7)) };
    assert_eq!(Some(Error::ArticleNotFound), get_article(missing, &store).err());
}

#[test]
fn a_stored_article_keeps_what_its_form_said() {
    let mut store = Store::new();
    let form = DbArticleForm {
        title: "A b".to_string(),
        text: "text".to_string(),
        ap_id: "https://example.com/article/A_b".to_string(),
        instance_id: InstanceId(3),
        local: false,
        protected: true,
        approved: false,
    };
    let article = DbArticle::create(form, &mut store, Timestamp(5)).unwrap();
    assert_eq!(ArticleId(1), article.id);
    assert_eq!("A_b", article.title);
    assert_eq!("text", article.text);
    assert_eq!(InstanceId(3), article.instance_id);
    assert!(!article.local && article.protected && !article.approved);
    let read = DbArticle::read_from_ap_id("https://example.com/article/A_b", &store).unwrap();
    assert_eq!(article.id, read.id);
    assert!(article.latest_edit_version(&store) == EditVersion::default());
    let updated = DbArticle::update_text(article.id, "new", &mut store).unwrap();
    assert_eq!("new", updated.text);
    assert_eq!(Some(Error::ArticleNotFound), DbArticle::read(ArticleId(2), &store).err());
}

#[test]
fn a_version_that_occurs_twice_is_reconstructed_where_it_occurs_first() {
    let mut store = Store::new();
    let form = DbArticleForm {
        title: "Title".to_string(),
        text: String::new(),
        ap_id: "https://example.com/article/Title".to_string(),
        instance_id: InstanceId(1),
        local: true,
        protected: false,
        approved: true,
    };
    let article = DbArticle::create(form, &mut store, Timestamp(0)).unwrap();
    let lines = |first: &str, last: &str| format!("{}\n2\n3\n4\n5\n6\n7\n8\n9\n{}\n", first, last);
    let texts = [lines("a", "x"), lines("b", "x"), lines("b", "y"), lines("a", "y"), lines("b", "y")];
    let mut current = String::new();
    let mut latest = EditVersion::default();
    for text in &texts {
        let diff = diffy::create_patch(&current, text).to_string();
        let (edit, updated) = store
            .append_edit(article.id, diff, "s".to_string(), ibis::newtypes::PersonId(1), latest, Timestamp(0))
            .unwrap();
        assert_eq!(*text, updated.text);
        current = updated.text;
        latest = edit.hash;
    }
    let edits = DbEdit::list_for_article(article.id, &store);
    assert_eq!(5, edits.len());
    // The second and the fifth edit are the same change, and so have the same version.
    assert_eq!(edits[1].diff, edits[4].diff);
    assert!(edits[1].hash == edits[4].hash);
    assert_eq!(Ok(lines("b", "x")), generate_article_version(&edits, &latest));
    assert_eq!(lines("b", "y"), DbArticle::read(article.id, &store).unwrap().text);
}

#[test]
fn an_edit_is_appended_on_the_latest_version_only() {
    let (mut store, config, user) = setup();
    let article = new_article(&mut store, &config, &user, "Title", "One").unwrap();
    let first = article.latest_edit_version(&store);
    let diff = diffy::create_patch("One\n", "Two\n").to_string();
    let (edit, updated) = store
        .append_edit(article.id, diff.clone(), "s".to_string(), user.person.id, first, Timestamp(3))
        .unwrap();
    assert_eq!("Two\n", updated.text);
    assert!(edit.hash == EditVersion::new(&diff));
    assert!(updated.latest_edit_version(&store) == edit.hash);
    let stale = diffy::create_patch("One\n", "Three\n").to_string();
    let refused =
        store.append_edit(article.id, stale, "s".to_string(), user.person.id, first, Timestamp(4));
    assert_eq!(Some(Error::StaleVersion), refused.err());
    let unfit = diffy::create_patch("One\n", "Three\n").to_string();
    let refused = store.append_edit(
        article.id,
        unfit,
        "s".to_string(),
        user.person.id,
        edit.hash,
        Timestamp(4),
    );
    assert_eq!(Some(Error::PatchFailed), refused.err());
    let nowhere = store.append_edit(
        ArticleId(9),
        diff,
        "s".to_string(),
        user.person.id,
        first,
        Timestamp(4),
    );
    assert_eq!(Some(Error::ArticleNotFound), nowhere.err());
    assert_eq!("Two\n", DbArticle::read(article.id, &store).unwrap().text);
    assert_eq!(2, DbEdit::list_for_article(article.id, &store).len());
}

#[test]
fn the_text_for_the_formatter_ends_in_a_newline() {
    assert_eq!("Text\n", text_to_format("Text"));
    assert_eq!("Text\n", text_to_format("Text\n"));
    assert_eq!("\n", text_to_format(""));
    assert_eq!(80, LINE_WIDTH);
}

#[test]
fn a_text_that_the_formatter_gave_up_on_is_refused() {
    let (mut store, config, user) = setup();
    let article = new_article(&mut store, &config, &user, "Title", "Text").unwrap();
    let latest = article.latest_edit_version(&store);
    let form = |text: &str| EditArticleForm {
        article_id: article.id,
        new_text: text.to_string(),
        summary: "edit".to_string(),
        previous_version_id: latest,
        resolve_conflict_id: None,
    };
    let refused = ibis::api::edit_article(
        &user,
        &mut store,
        &config,
        form("Other"),
        None,
        Timestamp(20),
        "id".to_string(),
    );
    assert_eq!(Some(Error::FormatFailed), refused.err());
    assert_eq!(ErrorKind::Validation, Error::FormatFailed.kind());
    let refused = ibis::api::edit_article(
        &user,
        &mut store,
        &config,
        form("[a](https://example.com/b)"),
        None,
        Timestamp(20),
        "id".to_string(),
    );
    assert_eq!(Some(Error::LocalLink), refused.err());
    assert_eq!("Text\n", DbArticle::read(article.id, &store).unwrap().text);
    assert_eq!(1, DbEdit::list_for_article(article.id, &store).len());

    let create = CreateArticleForm {
        title: "Second".to_string(),
        text: "Text".to_string(),
        summary: "create".to_string(),
    };
    let refused = ibis::api::create_article(
        &user,
        &mut store,
        &config,
        create,
        None,
        Timestamp(21),
        "a".to_string(),
        "b".to_string(),
    );
    assert_eq!(Some(Error::FormatFailed), refused.err());
    assert_eq!(1, DbArticle::read_all(None, None, &store).len());
}

#[test]
fn the_stored_text_is_the_text_that_the_formatter_handed_in() {
    let (mut store, config, user) = setup();
    let create = CreateArticleForm {
        title: "Title".to_string(),
        text: "as   written".to_string(),
        summary: "create".to_string(),
    };
    let report = ibis::api::create_article(
        &user,
        &mut store,
        &config,
        create,
        Some("as formatted\n".to_string()),
        Timestamp(10),
        "a".to_string(),
        "b".to_string(),
    )
    .unwrap();
    assert_eq!("as formatted\n", report.view.article.text);
    let edits = DbEdit::list_for_article(report.view.article.id, &store);
    assert_eq!(
        Ok("as formatted\n".to_string()),
        generate_article_version(&edits, &report.view.article.latest_edit_version(&store))
    );
}
