use ibis::api::delete_conflict;
use ibis::common::{
    CreateArticleForm, DbArticle, DbEdit, DbInstance, DbPerson, DeleteConflictForm,
    EditArticleForm, LocalUserView, SharedConfig,
};
use ibis::config::{FederationConfig, IbisConfig};
use ibis::conflict::{DbConflict, DbConflictForm};
use ibis::error::{Error, ErrorKind};
use ibis::instance::DbInstanceForm;
use ibis::newtypes::{ArticleId, ConflictId, Timestamp};
use ibis::resolver::{text_to_format, EditOutcome, MergeOutcome, LINE_WIDTH};
use ibis::store::Store;
use ibis::version::EditVersion;

/// What the Markdown formatter makes of a submitted text.
fn formatted(text: &str) -> Option<String> {
    fmtm::format(&text_to_format(text), Some(LINE_WIDTH)).ok()
}

fn create_article(
    user: &LocalUserView,
    store: &mut Store,
    config: &IbisConfig,
    form: CreateArticleForm,
    now: Timestamp,
    update_activity_id: String,
    create_activity_id: String,
) -> Result<ibis::api::CreateReport, Error> {
    let text = formatted(&form.text);
    ibis::api::create_article(
        user,
        store,
        config,
        form,
        text,
        now,
        update_activity_id,
        create_activity_id,
    )
}

fn edit_article(
    user: &LocalUserView,
    store: &mut Store,
    config: &IbisConfig,
    form: EditArticleForm,
    now: Timestamp,
    activity_id: String,
) -> Result<ibis::api::EditReport, Error> {
    let text = formatted(&form.new_text);
    ibis::api::edit_article(user, store, config, form, text, now, activity_id)
}

fn submit_edit(
    user: &LocalUserView,
    store: &mut Store,
    config: &IbisConfig,
    form: EditArticleForm,
    now: Timestamp,
) -> Result<EditOutcome, Error> {
    let text = formatted(&form.new_text);
    ibis::resolver::submit_edit(user, store, config, form, text, now)
}

fn setup() -> (Store, IbisConfig, LocalUserView) {
    let mut store = Store::new();
    let config = IbisConfig {
        federation: FederationConfig { domain: "example.com".to_string(), secure: true },
        options: SharedConfig::default(),
    };
    let form = DbInstanceForm {
        domain: "example.com".to_string(),
        ap_id: "https://example.com/".to_string(),
        topic: None,
        name: None,
        articles_url: None,
        instances_url: None,
        inbox_url: "https://example.com/inbox".to_string(),
        public_key: "public".to_string(),
        private_key: Some("private".to_string()),
        last_refreshed_at: Timestamp(0),
        local: true,
    };
    DbInstance::create(form, &mut store).unwrap();
    let user = DbPerson::create_local(
        "alice".to_string(),
        "hash".to_string(),
        "public".to_string(),
        "private".to_string(),
        false,
        &mut store,
        &config,
        Timestamp(0),
    )
    .unwrap();
    (store, config, user)
}

fn article_with(store: &mut Store, config: &IbisConfig, user: &LocalUserView, text: &str) -> DbArticle {
    let form = CreateArticleForm {
        title: "Title".to_string(),
        text: text.to_string(),
        summary: "create".to_string(),
    };
    create_article(user, store, config, form, Timestamp(1), "a".to_string(), "b".to_string())
        .unwrap()
        .view
        .article
}

fn form(article: ArticleId, text: &str, previous: EditVersion) -> EditArticleForm {
    EditArticleForm {
        article_id: article,
        new_text: text.to_string(),
        summary: "edit".to_string(),
        previous_version_id: previous,
        resolve_conflict_id: None,
    }
}

/// An article whose text is `ancestor` and then `theirs`, with a conflict of
/// `user` that leads from `ancestor` to `ours`.
fn diverged(ancestor: &str, ours: &str, theirs: &str) -> (Store, LocalUserView, DbArticle, DbConflict) {
    let (mut store, _, user) = setup();
    let article_form = ibis::article::DbArticleForm {
        title: "Title".to_string(),
        text: String::new(),
        ap_id: "https://example.com/article/Title".to_string(),
        instance_id: ibis::newtypes::InstanceId(1),
        local: true,
        protected: false,
        approved: true,
    };
    let article = DbArticle::create(article_form, &mut store, Timestamp(1)).unwrap();
    let first = diffy::create_patch("", ancestor).to_string();
    let (base, _) = store
        .append_edit(
            article.id,
            first,
            "first".to_string(),
            user.person.id,
            EditVersion::default(),
            Timestamp(2),
        )
        .unwrap();
    let second = diffy::create_patch(ancestor, theirs).to_string();
    store
        .append_edit(article.id, second, "theirs".to_string(), user.person.id, base.hash, Timestamp(3))
        .unwrap();
    let diff = diffy::create_patch(ancestor, ours).to_string();
    let conflict = DbConflict::create(
        DbConflictForm {
            hash: EditVersion::new(&diff),
            diff,
            summary: "ours".to_string(),
            creator_id: user.person.id,
            article_id: article.id,
            previous_version_id: base.hash,
            published: Timestamp(4),
        },
        &mut store,
    )
    .unwrap();
    let article = DbArticle::read(article.id, &store).unwrap();
    (store, user, article, conflict)
}

#[test]
fn changes_to_different_lines_merge_cleanly() {
    let (mut store, user, article, conflict) =
        diverged("A\nB\nC\n", "A2\nB\nC\n", "A\nB\nC2\n");
    assert_eq!("A\nB\nC2\n", article.text);
    let latest = article.latest_edit_version(&store);
    let outcome = conflict.to_api_conflict(&mut store, Timestamp(5)).unwrap();
    match outcome {
        MergeOutcome::Merged(EditOutcome::Committed { edit, article: merged }) => {
            assert_eq!("A2\nB\nC2\n", merged.text);
            assert!(edit.previous_version_id == latest);
            assert_eq!("ours", edit.summary);
            assert_eq!(user.person.id, edit.creator_id);
            assert_eq!(diffy::create_patch("A\nB\nC2\n", "A2\nB\nC2\n").to_string(), edit.diff);
        }
        other => panic!("not merged: {:?}", other),
    }
    assert_eq!("A2\nB\nC2\n", DbArticle::read(article.id, &store).unwrap().text);
    assert!(DbConflict::list(&user.local_user, &store).is_empty());
    assert_eq!(3, DbEdit::list_for_article(article.id, &store).len());
    assert_eq!(
        Some(Error::ConflictNotFound),
        conflict.to_api_conflict(&mut store, Timestamp(6)).err()
    );
}

#[test]
fn changes_to_the_same_line_stay_a_conflict() {
    let (mut store, user, article, conflict) =
        diverged("A\nB\nC\n", "A2\nB\nC\n", "A3\nB\nC\n");
    let latest = article.latest_edit_version(&store);
    let outcome = conflict.to_api_conflict(&mut store, Timestamp(5)).unwrap();
    match outcome {
        MergeOutcome::Unresolved(api) => {
            assert_eq!(conflict.id, api.id);
            assert!(api.hash == conflict.hash);
            assert_eq!("ours", api.summary);
            assert!(api.previous_version_id == latest);
            assert!(api.three_way_merge.contains("<<<<<<< ours"));
            assert!(api.three_way_merge.contains("A2"));
            assert!(api.three_way_merge.contains("======="));
            assert!(api.three_way_merge.contains("A3"));
            assert!(api.three_way_merge.contains(">>>>>>> theirs"));
            assert_eq!("A3\nB\nC\n", api.article.text);
        }
        other => panic!("not a conflict: {:?}", other),
    }
    assert_eq!("A3\nB\nC\n", DbArticle::read(article.id, &store).unwrap().text);
    assert_eq!(vec![conflict.clone()], DbConflict::list(&user.local_user, &store));
    assert_eq!(2, DbEdit::list_for_article(article.id, &store).len());
    let again = conflict.to_api_conflict(&mut store, Timestamp(6)).unwrap();
    assert!(matches!(again, MergeOutcome::Unresolved(_)));
}

#[test]
fn a_conflict_whose_diff_does_not_apply_cannot_be_resolved() {
    let (mut store, _, _, conflict) = diverged("A\nB\nC\n", "A2\nB\nC\n", "A\nB\nC2\n");
    let broken = DbConflict {
        diff: "--- original\n+++ modified\n@@ -1 +1 @@\n-missing\n+new\n".to_string(),
        ..conflict.clone()
    };
    assert_eq!(Some(Error::PatchFailed), broken.to_api_conflict(&mut store, Timestamp(5)).err());
    assert_eq!(ErrorKind::Integrity, Error::PatchFailed.kind());
    let lost = DbConflict { previous_version_id: EditVersion::new("unknown"), ..conflict.clone() };
    assert_eq!(Some(Error::VersionNotFound), lost.to_api_conflict(&mut store, Timestamp(5)).err());
    let homeless = DbConflict { article_id: ArticleId(9), ..conflict };
    assert_eq!(
        Some(Error::ArticleNotFound),
        homeless.to_api_conflict(&mut store, Timestamp(5)).err()
    );
}

#[test]
fn an_edit_on_the_latest_version_adds_no_conflict() {
    let (mut store, config, user) = setup();
    let article = article_with(&mut store, &config, &user, "One");
    let latest = article.latest_edit_version(&store);
    let outcome =
        submit_edit(&user, &mut store, &config, form(article.id, "Two", latest), Timestamp(2))
            .unwrap();
    assert!(matches!(outcome, EditOutcome::Committed { .. }));
    assert!(DbConflict::list(&user.local_user, &store).is_empty());
    assert_eq!(2, DbEdit::list_for_article(article.id, &store).len());
}

#[test]
fn an_edit_on_an_older_version_is_queued_as_one_conflict() {
    let (mut store, config, user) = setup();
    let article = article_with(&mut store, &config, &user, "One\n\nTwo\n\nThree\n");
    let first = article.latest_edit_version(&store);
    submit_edit(
        &user,
        &mut store,
        &config,
        form(article.id, "One\n\nTwo\n\nFour\n", first),
        Timestamp(2),
    )
    .unwrap();
    let outcome = submit_edit(
        &user,
        &mut store,
        &config,
        form(article.id, "Zero\n\nTwo\n\nThree\n", first),
        Timestamp(3),
    )
    .unwrap();
    let conflict = match outcome {
        EditOutcome::Conflict(conflict) => conflict,
        other => panic!("no conflict: {:?}", other),
    };
    assert_eq!(ConflictId(1), conflict.id);
    assert!(conflict.previous_version_id == first);
    assert_eq!(
        diffy::create_patch("One\n\nTwo\n\nThree\n", "Zero\n\nTwo\n\nThree\n").to_string(),
        conflict.diff
    );
    assert!(conflict.hash == EditVersion::new(&conflict.diff));
    assert_eq!("edit", conflict.summary);
    assert_eq!(user.person.id, conflict.creator_id);
    assert_eq!(article.id, conflict.article_id);
    assert_eq!(Timestamp(3), conflict.published);
    assert_eq!(vec![conflict], DbConflict::list(&user.local_user, &store));
    assert_eq!(2, DbEdit::list_for_article(article.id, &store).len());
    assert_eq!("One\n\nTwo\n\nFour\n", DbArticle::read(article.id, &store).unwrap().text);
}

#[test]
fn an_edit_on_an_unknown_version_is_neither_committed_nor_queued() {
    let (mut store, config, user) = setup();
    let article = article_with(&mut store, &config, &user, "One");
    let unknown = EditVersion::new("unknown");
    let refused =
        submit_edit(&user, &mut store, &config, form(article.id, "Two", unknown), Timestamp(2));
    assert_eq!(Some(Error::VersionNotFound), refused.err());
    assert!(DbConflict::list(&user.local_user, &store).is_empty());
    assert_eq!(1, DbEdit::list_for_article(article.id, &store).len());
}

#[test]
fn a_stale_edit_that_merges_cleanly_is_committed_at_once() {
    let (mut store, config, user) = setup();
    let article = article_with(&mut store, &config, &user, "One\n\nTwo\n\nThree\n");
    let first = article.latest_edit_version(&store);
    edit_article(
        &user,
        &mut store,
        &config,
        form(article.id, "One\n\nTwo\n\nFour\n", first),
        Timestamp(2),
        "x".to_string(),
    )
    .unwrap();
    let report = edit_article(
        &user,
        &mut store,
        &config,
        form(article.id, "Zero\n\nTwo\n\nThree\n", first),
        Timestamp(3),
        "y".to_string(),
    )
    .unwrap();
    assert!(matches!(report.outcome, EditOutcome::Conflict(_)));
    assert!(matches!(report.resolution, Some(Ok(MergeOutcome::Merged(_)))));
    assert!(report.conflict().is_none());
    assert!(report.delivery.is_some());
    assert_eq!("Zero\n\nTwo\n\nFour\n", DbArticle::read(article.id, &store).unwrap().text);
    assert!(DbConflict::list(&user.local_user, &store).is_empty());
    assert_eq!(3, DbEdit::list_for_article(article.id, &store).len());
}

#[test]
fn a_stale_edit_that_overlaps_is_handed_to_the_user_and_resolved_by_resubmission() {
    let (mut store, config, user) = setup();
    let article = article_with(&mut store, &config, &user, "One\n\nTwo\n\nThree\n");
    let first = article.latest_edit_version(&store);
    edit_article(
        &user,
        &mut store,
        &config,
        form(article.id, "Uno\n\nTwo\n\nThree\n", first),
        Timestamp(2),
        "x".to_string(),
    )
    .unwrap();
    let report = edit_article(
        &user,
        &mut store,
        &config,
        form(article.id, "Eins\n\nTwo\n\nThree\n", first),
        Timestamp(3),
        "y".to_string(),
    )
    .unwrap();
    let conflict = report.conflict().expect("a conflict").clone();
    assert!(conflict.three_way_merge.contains("<<<<<<< ours"));
    assert!(report.delivery.is_none());
    let latest = DbArticle::read(article.id, &store).unwrap().latest_edit_version(&store);
    assert!(conflict.previous_version_id == latest);
    assert_eq!(1, DbConflict::list(&user.local_user, &store).len());

    let resolving = EditArticleForm {
        article_id: article.id,
        new_text: "Uno, eins\n\nTwo\n\nThree\n".to_string(),
        summary: "resolved".to_string(),
        previous_version_id: conflict.previous_version_id,
        resolve_conflict_id: Some(conflict.id),
    };
    let report =
        edit_article(&user, &mut store, &config, resolving, Timestamp(4), "z".to_string()).unwrap();
    assert!(matches!(report.outcome, EditOutcome::Committed { .. }));
    assert!(DbConflict::list(&user.local_user, &store).is_empty());
    assert_eq!("Uno, eins\n\nTwo\n\nThree\n", DbArticle::read(article.id, &store).unwrap().text);
}

#[test]
fn a_refused_resolution_keeps_the_conflict() {
    let (mut store, user, article, conflict) =
        diverged("A\nB\nC\n", "A2\nB\nC\n", "A3\nB\nC\n");
    let config = IbisConfig {
        federation: FederationConfig { domain: "example.com".to_string(), secure: true },
        options: SharedConfig::default(),
    };
    let resolving = EditArticleForm {
        article_id: article.id,
        new_text: article.text.clone(),
        summary: "resolved".to_string(),
        previous_version_id: article.latest_edit_version(&store),
        resolve_conflict_id: Some(conflict.id),
    };
    let refused = edit_article(&user, &mut store, &config, resolving, Timestamp(4), "z".to_string());
    assert_eq!(Some(Error::NoChanges), refused.err());
    assert_eq!(vec![conflict], DbConflict::list(&user.local_user, &store));
}

#[test]
fn only_the_creator_discards_a_conflict() {
    let (mut store, user, _, conflict) = diverged("A\nB\nC\n", "A2\nB\nC\n", "A3\nB\nC\n");
    let config = IbisConfig {
        federation: FederationConfig { domain: "example.com".to_string(), secure: true },
        options: SharedConfig::default(),
    };
    let other = DbPerson::create_local(
        "bob".to_string(),
        "hash".to_string(),
        "public".to_string(),
        "private".to_string(),
        true,
        &mut store,
        &config,
        Timestamp(0),
    )
    .unwrap();
    let params = DeleteConflictForm { conflict_id: conflict.id };
    assert_eq!(Err(Error::NotCreator), delete_conflict(&other, &mut store, params));
    assert_eq!(ErrorKind::Authorization, Error::NotCreator.kind());
    assert_eq!(1, DbConflict::list(&user.local_user, &store).len());
    assert!(DbConflict::list(&other.local_user, &store).is_empty());
    assert_eq!(Ok(()), delete_conflict(&user, &mut store, params));
    assert!(DbConflict::list(&user.local_user, &store).is_empty());
    assert_eq!(Err(Error::ConflictNotFound), delete_conflict(&user, &mut store, params));
}

#[test]
fn after_a_clean_merge_every_version_replays_as_before() {
    let (mut store, _, article, conflict) = diverged("A\nB\nC\n", "A2\nB\nC\n", "A\nB\nC2\n");
    let before = DbEdit::list_for_article(article.id, &store);
    let earlier: Vec<(EditVersion, String)> = before
        .iter()
        .map(|e| (e.hash, ibis::history::generate_article_version(&before, &e.hash).unwrap()))
        .collect();
    assert_eq!(2, earlier.len());
    assert_eq!("A\nB\nC\n", earlier[0].1);
    assert_eq!("A\nB\nC2\n", earlier[1].1);
    conflict.to_api_conflict(&mut store, Timestamp(5)).unwrap();
    let after = DbEdit::list_for_article(article.id, &store);
    let now = DbArticle::read(article.id, &store).unwrap();
    assert_eq!(
        Ok(now.text.clone()),
        ibis::history::generate_article_version(&after, &now.latest_edit_version(&store))
    );
    assert_eq!("A2\nB\nC2\n", now.text);
    for (version, text) in earlier {
        assert_eq!(Ok(text), ibis::history::generate_article_version(&after, &version));
    }
    assert_eq!(
        Ok(String::new()),
        ibis::history::generate_article_version(&after, &EditVersion::default())
    );
}
