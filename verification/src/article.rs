use crate::common::{ArticleView, DbArticle, DbEdit, EditView};
use crate::conflict::DbConflict;
use crate::edit::latest_of;
use crate::error::Error;
use crate::history::latest_version;
use crate::newtypes::{ArticleId, InstanceId, Timestamp};
use crate::store::{conflicts_kept, ArticleRow, Store, StoreState};
use crate::text::{contains_char, optional_text, replace_char, replaced};
use crate::version::EditVersion;
use vstd::prelude::*;

verus! {

/// What is known of an article before it is stored.
#[derive(Debug, PartialEq)]
pub struct DbArticleForm {
    pub title: String,
    pub text: String,
    pub ap_id: String,
    pub instance_id: InstanceId,
    pub local: bool,
    pub protected: bool,
    pub approved: bool,
}

/// Why a title is refused: it is empty, or it contains `/`.
pub open spec fn title_refusal(title: Seq<char>) -> Option<Error> {
    if title.len() == 0 {
        Some(Error::EmptyTitle)
    } else if title.contains('/') {
        Some(Error::InvalidTitle)
    } else {
        None
    }
}

/// The form in which a title is stored: with `_` for every space.
pub open spec fn normal_title(title: Seq<char>) -> Seq<char> {
    replaced(title, ' ', '_')
}

impl DbArticleForm {
    /// `article` holds what the form says, the title in its stored form.
    pub open spec fn describes(self, article: DbArticle) -> bool {
        &&& article.title@ == normal_title(self.title@)
        &&& article.text@ == self.text@
        &&& article.ap_id@ == self.ap_id@
        &&& article.instance_id == self.instance_id
        &&& article.local == self.local
        &&& article.protected == self.protected
        &&& article.approved == self.approved
    }

    /// Why the form cannot become a new article in state `s`, if it cannot.
    pub open spec fn create_refusal(self, s: StoreState) -> Option<Error> {
        if title_refusal(self.title@) is Some {
            title_refusal(self.title@)
        } else if s.article_pos_by_ap_id(self.ap_id@) is Some {
            Some(Error::DuplicateArticle)
        } else if s.next_article >= i32::MAX {
            Some(Error::IdsExhausted)
        } else {
            None
        }
    }
}

/// Checks a title: it must not be empty and must not contain `/`.
pub fn validate_title(title: &str) -> (checked: Result<(), Error>)
    ensures
        match checked {
            Ok(_) => title_refusal(title@) is None,
            Err(e) => title_refusal(title@) == Some(e),
        },
{
    if title.is_empty() {
        return Err(Error::EmptyTitle);
    }
    if contains_char(title, '/') {
        return Err(Error::InvalidTitle);
    }
    Ok(())
}

/// Whether an article may not be edited: a protected article is edited only
/// where it is local, and only by an admin.
pub open spec fn edit_forbidden(article: DbArticle, is_admin: bool) -> bool {
    article.protected && (!article.local || !is_admin)
}

/// Checks that an article may be edited by a user who is or is not an admin.
pub fn can_edit_article(article: &DbArticle, is_admin: bool) -> (checked: Result<(), Error>)
    ensures
        checked == if edit_forbidden(*article, is_admin) {
            Err::<(), Error>(Error::ArticleProtected)
        } else {
            Ok::<(), Error>(())
        },
{
    if article.protected {
        if !article.local {
            return Err(Error::ArticleProtected);
        }
        if !is_admin {
            return Err(Error::ArticleProtected);
        }
    }
    Ok(())
}

/// The first `n` of `edits`, each with the person who made it, in order. An
/// edit whose creator the store does not know is left out.
pub open spec fn edit_views_upto(s: StoreState, edits: Seq<DbEdit>, n: int) -> Seq<EditView>
    decreases n,
{
    if n <= 0 {
        Seq::empty()
    } else {
        let rest = edit_views_upto(s, edits, n - 1);
        match s.person_pos(edits[n - 1].creator_id) {
            Some(p) => rest.push(EditView { edit: edits[n - 1], creator: s.persons[p] }),
            None => rest,
        }
    }
}

/// `edits`, each with the person who made it.
pub open spec fn edit_views(s: StoreState, edits: Seq<DbEdit>) -> Seq<EditView> {
    edit_views_upto(s, edits, edits.len() as int)
}

/// Whether the article at position `i` goes by `title`: without a domain it
/// must be local, with a domain it must live on the remote instance with
/// that domain.
pub open spec fn titled(
    s: StoreState,
    i: int,
    title: Seq<char>,
    domain: Option<Seq<char>>,
) -> bool {
    &&& s.articles[i].title@ == title
    &&& match domain {
        None => s.articles[i].local,
        Some(d) => {
            &&& s.instance_pos(s.articles[i].instance_id) is Some
            &&& s.instances[s.instance_pos(s.articles[i].instance_id)->0].domain@ == d
            &&& !s.instances[s.instance_pos(s.articles[i].instance_id)->0].local
        },
    }
}

/// Position of the first article that goes by `title`.
pub open spec fn titled_pos(s: StoreState, title: Seq<char>, domain: Option<Seq<char>>) -> Option<
    int,
> {
    if exists|i: int| 0 <= i < s.articles.len() && titled(s, i, title, domain) {
        Some(
            choose|i: int|
                0 <= i < s.articles.len() && titled(s, i, title, domain) && forall|j: int|
                    0 <= j < i ==> !titled(s, j, title, domain),
        )
    } else {
        None
    }
}

/// The view of the article at position `i`.
pub open spec fn article_view(s: StoreState, i: int, view: ArticleView) -> bool {
    &&& view.article == s.articles[i]
    &&& view.latest_version@ == latest_version(s.histories[i])
    &&& view.edits@ == edit_views(s, s.histories[i])
}

/// Position of the first article that goes by `title`.
fn find_titled(store: &Store, title: &str, domain: &Option<String>) -> (pos: Option<usize>)
    requires
        store.wf(),
    ensures
        match pos {
            Some(i) => i < store.rows.len() && titled_pos(
                store.state(),
                title@,
                optional_text(*domain),
            ) == Some(i as int),
            None => titled_pos(
                store.state(),
                title@,
                optional_text(*domain),
            ) is None,
        },
{
    let ghost wanted: Option<Seq<char>> = optional_text(*domain);
    let name = String::from_str(title);
    let mut i: usize = 0;
    while i < store.rows.len()
        invariant
            i <= store.rows.len(),
            store.wf(),
            name@ == title@,
            wanted == optional_text(*domain),
            forall|k: int| 0 <= k < i ==> !titled(store.state(), k, title@, wanted),
        decreases store.rows.len() - i,
    {
        let article = &store.rows[i].article;
        let mut hit = false;
        if article.title == name {
            match domain {
                None => {
                    hit = article.local;
                },
                Some(d) => match store.find_instance(article.instance_id) {
                    Some(k) => {
                        hit = store.instances[k].domain == *d && !store.instances[k].local;
                    },
                    None => {},
                },
            }
        }
        assert(hit == titled(store.state(), i as int, title@, wanted));
        if hit {
            proof {
                let s = store.state();
                let c = choose|c: int|
                    0 <= c < s.articles.len() && titled(s, c, title@, wanted) && forall|j: int|
                        0 <= j < c ==> !titled(s, j, title@, wanted);
                assert(titled(s, i as int, title@, wanted));
                if c < i {
                    assert(!titled(s, c, title@, wanted));
                } else if i < c {
                    assert(!titled(s, i as int, title@, wanted));
                }
            }
            return Some(i);
        }
        i += 1;
    }
    None
}

/// The edits of a history, each with the person who made it.
fn views_of(store: &Store, edits: &Vec<DbEdit>) -> (views: Vec<EditView>)
    requires
        store.wf(),
    ensures
        views@ == edit_views(store.state(), edits@),
{
    let mut views: Vec<EditView> = Vec::new();
    let mut n: usize = 0;
    while n < edits.len()
        invariant
            n <= edits.len(),
            store.wf(),
            views@ == edit_views_upto(store.state(), edits@, n as int),
        decreases edits.len() - n,
    {
        match store.find_person(edits[n].creator_id) {
            Some(p) => {
                views.push(EditView { edit: edits[n].clone(), creator: store.persons[p].clone() });
            },
            None => {},
        }
        n += 1;
    }
    views
}

/// The view of the article at position `i`.
pub(crate) fn view_at(store: &Store, i: usize) -> (view: ArticleView)
    requires
        store.wf(),
        i < store.state().articles.len(),
    ensures
        article_view(store.state(), i as int, view),
{
    ArticleView {
        article: store.rows[i].article.clone(),
        latest_version: latest_of(&store.rows[i].edits),
        edits: views_of(store, &store.rows[i].edits),
    }
}

impl DbArticle {
    /// Stores a new article without edits. The title is checked and stored with
    /// `_` for every space. An article with the same federation identifier must
    /// not exist yet.
    pub fn create(form: DbArticleForm, store: &mut Store, now: Timestamp) -> (created: Result<
        DbArticle,
        Error,
    >)
        requires
            old(store).wf(),
        ensures
            final(store).wf(),
            match created {
                Ok(article) => {
                    &&& form.create_refusal(old(store).state()) is None
                    &&& form.describes(article)
                    &&& article.id.0 == old(store).state().next_article
                    &&& article.published == now
                    &&& final(store).state() == old(store).state().with_new_article(article)
                },
                Err(e) => {
                    &&& form.create_refusal(old(store).state()) == Some(e)
                    &&& final(store).state() == old(store).state()
                },
            },
    {
        match validate_title(form.title.as_str()) {
            Err(e) => {
                return Err(e);
            },
            Ok(_) => {},
        }
        if store.find_article_by_ap_id(form.ap_id.as_str()).is_some() {
            return Err(Error::DuplicateArticle);
        }
        if store.next_article >= i32::MAX {
            return Err(Error::IdsExhausted);
        }
        let article = DbArticle {
            id: ArticleId(store.next_article),
            title: replace_char(form.title.as_str(), ' ', '_'),
            text: form.text,
            ap_id: form.ap_id,
            instance_id: form.instance_id,
            local: form.local,
            protected: form.protected,
            approved: form.approved,
            published: now,
        };
        let copy = article.clone();
        store.rows.push(ArticleRow { article, edits: Vec::new() });
        store.next_article = store.next_article + 1;
        proof {
            let before = old(store).state();
            let after = store.state();
            assert(after.articles =~= before.articles.push(copy));
            assert(after.histories =~= before.histories.push(Seq::empty()));
            before.lemma_with_new_article(copy);
        }
        Ok(copy)
    }

    /// The article with the given id.
    pub fn read(id: ArticleId, store: &Store) -> (found: Result<DbArticle, Error>)
        requires
            store.wf(),
        ensures
            match found {
                Ok(article) => store.state().article_pos(id) is Some && article
                    == store.state().articles[store.state().article_pos(id)->0],
                Err(e) => e == Error::ArticleNotFound && store.state().article_pos(id) is None,
            },
    {
        match store.find_article(id) {
            Some(i) => Ok(store.rows[i].article.clone()),
            None => Err(Error::ArticleNotFound),
        }
    }

    /// The article with the given federation identifier.
    pub fn read_from_ap_id(ap_id: &str, store: &Store) -> (found: Result<DbArticle, Error>)
        requires
            store.wf(),
        ensures
            match found {
                Ok(article) => store.state().article_pos_by_ap_id(ap_id@) is Some && article
                    == store.state().articles[store.state().article_pos_by_ap_id(ap_id@)->0],
                Err(e) => e == Error::ArticleNotFound && store.state().article_pos_by_ap_id(ap_id@)
                    is None,
            },
    {
        match store.find_article_by_ap_id(ap_id) {
            Some(i) => Ok(store.rows[i].article.clone()),
            None => Err(Error::ArticleNotFound),
        }
    }

    /// The version of the article's most recent edit, or the sentinel where
    /// the article has no edits or is not in the store.
    pub fn latest_edit_version(&self, store: &Store) -> (version: EditVersion)
        requires
            store.wf(),
        ensures
            version@ == store.state().latest_version_of(self.id),
    {
        match store.find_article(self.id) {
            Some(i) => latest_of(&store.rows[i].edits),
            None => EditVersion::default(),
        }
    }

    /// Sets the text of an article. The article's edits stay as they are.
    pub fn update_text(id: ArticleId, text: &str, store: &mut Store) -> (updated: Result<
        DbArticle,
        Error,
    >)
        requires
            old(store).wf(),
        ensures
            final(store).wf(),
            match updated {
                Ok(article) => {
                    let before = old(store).state();
                    let i = before.article_pos(id)->0;
                    &&& before.article_pos(id) is Some
                    &&& article.text@ == text@
                    &&& article == DbArticle { text: article.text, ..before.articles[i] }
                    &&& final(store).state() == before.with_article(i, article)
                },
                Err(e) => {
                    &&& e == Error::ArticleNotFound
                    &&& old(store).state().article_pos(id) is None
                    &&& final(store).state() == old(store).state()
                },
            },
    {
        match store.find_article(id) {
            None => Err(Error::ArticleNotFound),
            Some(i) => {
                store.rows[i].article.text = String::from_str(text);
                let article = store.rows[i].article.clone();
                proof {
                    let before = old(store).state();
                    assert(store.state().articles =~= before.articles.update(i as int, article));
                    assert(store.state().histories =~= before.histories);
                    before.lemma_with_article(i as int, article);
                }
                Ok(article)
            },
        }
    }

    /// Protects an article against edits by anyone but admins, or lifts the protection.
    pub fn update_protected(id: ArticleId, locked: bool, store: &mut Store) -> (updated: Result<
        DbArticle,
        Error,
    >)
        requires
            old(store).wf(),
        ensures
            final(store).wf(),
            old(store).state().all_consistent() ==> final(store).state().all_consistent(),
            match updated {
                Ok(article) => {
                    let before = old(store).state();
                    let i = before.article_pos(id)->0;
                    &&& before.article_pos(id) is Some
                    &&& article == DbArticle { protected: locked, ..before.articles[i] }
                    &&& final(store).state() == before.with_article(i, article)
                },
                Err(e) => {
                    &&& e == Error::ArticleNotFound
                    &&& old(store).state().article_pos(id) is None
                    &&& final(store).state() == old(store).state()
                },
            },
    {
        match store.find_article(id) {
            None => Err(Error::ArticleNotFound),
            Some(i) => {
                store.rows[i].article.protected = locked;
                let article = store.rows[i].article.clone();
                proof {
                    let before = old(store).state();
                    assert(store.state().articles =~= before.articles.update(i as int, article));
                    assert(store.state().histories =~= before.histories);
                    before.lemma_with_article(i as int, article);
                    if before.all_consistent() {
                        before.lemma_with_article_consistent(i as int, article);
                    }
                }
                Ok(article)
            },
        }
    }

    /// Makes an article visible to everyone, or hides it from all but admins.
    pub fn update_approved(id: ArticleId, approved: bool, store: &mut Store) -> (updated: Result<
        DbArticle,
        Error,
    >)
        requires
            old(store).wf(),
        ensures
            final(store).wf(),
            old(store).state().all_consistent() ==> final(store).state().all_consistent(),
            match updated {
                Ok(article) => {
                    let before = old(store).state();
                    let i = before.article_pos(id)->0;
                    &&& before.article_pos(id) is Some
                    &&& article == DbArticle { approved, ..before.articles[i] }
                    &&& final(store).state() == before.with_article(i, article)
                },
                Err(e) => {
                    &&& e == Error::ArticleNotFound
                    &&& old(store).state().article_pos(id) is None
                    &&& final(store).state() == old(store).state()
                },
            },
    {
        match store.find_article(id) {
            None => Err(Error::ArticleNotFound),
            Some(i) => {
                store.rows[i].article.approved = approved;
                let article = store.rows[i].article.clone();
                proof {
                    let before = old(store).state();
                    assert(store.state().articles =~= before.articles.update(i as int, article));
                    assert(store.state().histories =~= before.histories);
                    before.lemma_with_article(i as int, article);
                    if before.all_consistent() {
                        before.lemma_with_article_consistent(i as int, article);
                    }
                }
                Ok(article)
            },
        }
    }

    /// The article with the given id, with its latest version and its edits.
    pub fn read_view(id: ArticleId, store: &Store) -> (found: Result<ArticleView, Error>)
        requires
            store.wf(),
        ensures
            match found {
                Ok(view) => store.state().article_pos(id) is Some && article_view(
                    store.state(),
                    store.state().article_pos(id)->0,
                    view,
                ),
                Err(e) => e == Error::ArticleNotFound && store.state().article_pos(id) is None,
            },
    {
        match store.find_article(id) {
            Some(i) => Ok(view_at(store, i)),
            None => Err(Error::ArticleNotFound),
        }
    }

    /// The first article that goes by `title`, with its latest version and
    /// its edits: a local article where no domain is given, else an article
    /// of the remote instance with that domain.
    pub fn read_view_title(title: &str, domain: Option<String>, store: &Store) -> (found: Result<
        ArticleView,
        Error,
    >)
        requires
            store.wf(),
        ensures
            ({
                let wanted = optional_text(domain);
                match found {
                    Ok(view) => titled_pos(store.state(), title@, wanted) is Some && article_view(
                        store.state(),
                        titled_pos(store.state(), title@, wanted)->0,
                        view,
                    ),
                    Err(e) => e == Error::ArticleNotFound && titled_pos(
                        store.state(),
                        title@,
                        wanted,
                    ) is None,
                }
            }),
    {
        match find_titled(store, title, &domain) {
            Some(i) => Ok(view_at(store, i)),
            None => Err(Error::ArticleNotFound),
        }
    }

    /// The first local article that goes by `title`.
    pub fn read_local_title(title: &str, store: &Store) -> (found: Result<DbArticle, Error>)
        requires
            store.wf(),
        ensures
            match found {
                Ok(article) => titled_pos(store.state(), title@, None) is Some && article
                    == store.state().articles[titled_pos(store.state(), title@, None)->0],
                Err(e) => e == Error::ArticleNotFound && titled_pos(store.state(), title@, None)
                    is None,
            },
    {
        match find_titled(store, title, &None) {
            Some(i) => Ok(store.rows[i].article.clone()),
            None => Err(Error::ArticleNotFound),
        }
    }

    /// Stores an article, or where one with the same federation identifier
    /// is stored already, brings it up to date: title, text, owner and the
    /// flags are taken from the form, identity and time of creation stay. The
    /// edits stay as they are.
    pub fn create_or_update(form: DbArticleForm, store: &mut Store, now: Timestamp) -> (stored:
        Result<DbArticle, Error>)
        requires
            old(store).wf(),
        ensures
            final(store).wf(),
            match stored {
                Ok(article) => {
                    let before = old(store).state();
                    &&& title_refusal(form.title@) is None
                    &&& form.describes(article)
                    &&& match before.article_pos_by_ap_id(form.ap_id@) {
                        Some(k) => {
                            &&& article.id == before.articles[k].id
                            &&& article.published == before.articles[k].published
                            &&& final(store).state() == before.with_article(k, article)
                        },
                        None => {
                            &&& before.next_article < i32::MAX
                            &&& article.id.0 == before.next_article
                            &&& article.published == now
                            &&& final(store).state() == before.with_new_article(article)
                        },
                    }
                },
                Err(e) => {
                    &&& final(store).state() == old(store).state()
                    &&& if title_refusal(form.title@) is Some {
                        title_refusal(form.title@) == Some(e)
                    } else {
                        &&& e == Error::IdsExhausted
                        &&& old(store).state().article_pos_by_ap_id(form.ap_id@) is None
                        &&& old(store).state().next_article >= i32::MAX
                    }
                },
            },
    {
        match validate_title(form.title.as_str()) {
            Err(e) => {
                return Err(e);
            },
            Ok(_) => {},
        }
        match store.find_article_by_ap_id(form.ap_id.as_str()) {
            None => DbArticle::create(form, store, now),
            Some(k) => {
                let article = DbArticle {
                    id: store.rows[k].article.id,
                    title: replace_char(form.title.as_str(), ' ', '_'),
                    text: form.text,
                    ap_id: form.ap_id,
                    instance_id: form.instance_id,
                    local: form.local,
                    protected: form.protected,
                    approved: form.approved,
                    published: store.rows[k].article.published,
                };
                let copy = article.clone();
                store.rows[k].article = article;
                proof {
                    let before = old(store).state();
                    assert(store.state().articles =~= before.articles.update(k as int, copy));
                    assert(store.state().histories =~= before.histories);
                    before.lemma_with_article(k as int, copy);
                }
                Ok(copy)
            },
        }
    }

    /// Removes an article with its edits, and with the conflicts that were
    /// queued for it.
    pub fn delete(id: ArticleId, store: &mut Store) -> (deleted: Result<DbArticle, Error>)
        requires
            old(store).wf(),
        ensures
            final(store).wf(),
            old(store).state().all_consistent() ==> final(store).state().all_consistent(),
            match deleted {
                Ok(article) => {
                    let before = old(store).state();
                    let i = before.article_pos(id)->0;
                    &&& before.article_pos(id) is Some
                    &&& article == before.articles[i]
                    &&& final(store).state() == before.with_article_deleted(i)
                },
                Err(e) => {
                    &&& e == Error::ArticleNotFound
                    &&& old(store).state().article_pos(id) is None
                    &&& final(store).state() == old(store).state()
                },
            },
    {
        let i = match store.find_article(id) {
            None => {
                return Err(Error::ArticleNotFound);
            },
            Some(i) => i,
        };
        let ghost before = store.state();
        let mut kept: Vec<DbConflict> = Vec::new();
        let mut n: usize = 0;
        while n < store.conflicts.len()
            invariant
                n <= store.conflicts.len(),
                store.state() == before,
                kept@ == conflicts_kept(before.conflicts, id, n as int),
            decreases store.conflicts.len() - n,
        {
            if store.conflicts[n].article_id != id {
                kept.push(store.conflicts[n].clone());
            }
            n += 1;
        }
        let row = store.rows.remove(i);
        store.conflicts = kept;
        proof {
            let after = store.state();
            assert(after.articles =~= before.articles.remove(i as int));
            assert(after.histories =~= before.histories.remove(i as int));
            before.lemma_with_article_deleted(i as int);
            if before.all_consistent() {
                before.lemma_counters();
                before.lemma_with_article_deleted_consistent(i as int);
            }
        }
        Ok(row.article)
    }
}

} // verus!
