use crate::address::{domains_match, url_normal_form, verify_domains_match};
use crate::article::{normal_title, title_refusal, DbArticleForm};
use crate::common::{DbArticle, DbEdit, DbInstance};
use crate::edit::DbEditForm;
use crate::error::Error;
use crate::listing::listing;
use crate::newtypes::{EditId, Timestamp};
use crate::objects::{
    article_json, article_json_refusal, edit_json, edit_json_refusal, published_count,
    total_items_of, ApubArticle, ApubEdit, ApubEditCollection, ArticleCollection,
};
use crate::store::{edit_pos, Store, StoreState};
use vstd::prelude::*;

verus! {

/// The articles that were taken from a collection.
#[derive(Debug, PartialEq)]
pub struct DbArticleCollection(pub Vec<DbArticle>);

/// The edits that were taken from a collection.
#[derive(Debug, PartialEq)]
pub struct DbEditCollection(pub Vec<DbEdit>);

/// Why a received article is not taken into the store, if it is not.
pub open spec fn article_refusal(s: StoreState, json: ApubArticle) -> Option<Error> {
    if s.instance_pos_by_ap_id(json.attributed_to@) is None {
        Some(Error::InstanceNotFound)
    } else {
        match s.article_pos_by_ap_id(json.id@) {
            Some(k) => if s.articles[k].local {
                None
            } else {
                title_refusal(json.name@)
            },
            None => if title_refusal(json.name@) is Some {
                title_refusal(json.name@)
            } else if s.next_article >= i32::MAX {
                Some(Error::IdsExhausted)
            } else {
                None
            },
        }
    }
}

/// `article` is a remote article as a document describes it.
pub open spec fn article_from(s: StoreState, json: ApubArticle, article: DbArticle) -> bool {
    &&& article.title@ == normal_title(json.name@)
    &&& article.text@ == json.content@
    &&& article.ap_id@ == json.id@
    &&& article.instance_id == s.instances[s.instance_pos_by_ap_id(json.attributed_to@)->0].id
    &&& !article.local
    &&& article.protected == json.protected
    &&& article.approved
}

/// What taking a received article into the store has done: a new article was
/// added, a remote one that was known was brought up to date, and a local
/// one has stayed as it was.
pub open spec fn article_received(
    before: StoreState,
    after: StoreState,
    json: ApubArticle,
    now: Timestamp,
    article: DbArticle,
) -> bool {
    match before.article_pos_by_ap_id(json.id@) {
        Some(k) => if before.articles[k].local {
            article == before.articles[k] && after == before
        } else {
            &&& article_from(before, json, article)
            &&& article.id == before.articles[k].id
            &&& article.published == before.articles[k].published
            &&& after == before.with_article(k, article)
        },
        None => {
            &&& article_from(before, json, article)
            &&& article.id.0 == before.next_article
            &&& article.published == now
            &&& after == before.with_new_article(article)
        },
    }
}

impl DbArticle {
    /// Takes a received article into the store. The instance that it is
    /// attributed to must be known. The edits of the article are not part
    /// of the document: they are taken in from their collection.
    pub fn from_json(json: ApubArticle, store: &mut Store, now: Timestamp) -> (stored: Result<
        DbArticle,
        Error,
    >)
        requires
            old(store).wf(),
        ensures
            final(store).wf(),
            match stored {
                Ok(article) => {
                    &&& article_refusal(old(store).state(), json) is None
                    &&& article_received(
                        old(store).state(),
                        final(store).state(),
                        json,
                        now,
                        article,
                    )
                },
                Err(e) => {
                    &&& article_refusal(old(store).state(), json) == Some(e)
                    &&& final(store).state() == old(store).state()
                },
            },
    {
        let owner = match store.find_instance_by_ap_id(json.attributed_to.as_str()) {
            None => {
                return Err(Error::InstanceNotFound);
            },
            Some(o) => o,
        };
        match store.find_article_by_ap_id(json.id.as_str()) {
            Some(k) => {
                if store.rows[k].article.local {
                    return Ok(store.rows[k].article.clone());
                }
            },
            None => {},
        }
        let form = DbArticleForm {
            title: json.name,
            text: json.content,
            ap_id: json.id,
            instance_id: store.instances[owner].id,
            local: false,
            protected: json.protected,
            approved: true,
        };
        DbArticle::create_or_update(form, store, now)
    }
}

/// Where a received edit goes, and what it is in the store: the position of
/// its article, and the edit with the identity that it takes.
pub open spec fn received_edit(s: StoreState, json: ApubEdit) -> Result<(int, DbEdit), Error> {
    match s.article_pos_by_ap_id(json.object@) {
        None => Err(Error::ArticleNotFound),
        Some(i) => match s.person_pos_by_ap_id(json.attributed_to@) {
            None => Err(Error::PersonNotFound),
            Some(p) => {
                let id = match edit_pos(s.histories[i], json.id@) {
                    Some(k) => s.histories[i][k].id,
                    None => EditId(s.next_edit as i32),
                };
                if edit_pos(s.histories[i], json.id@) is None && s.next_edit >= i32::MAX {
                    Err(Error::IdsExhausted)
                } else {
                    Ok(
                        (
                            i,
                            DbEdit {
                                id,
                                creator_id: s.persons[p].id,
                                hash: json.version,
                                ap_id: json.id,
                                diff: json.content,
                                summary: json.summary,
                                article_id: s.articles[i].id,
                                previous_version_id: json.previous_version,
                                published: json.published,
                            },
                        ),
                    )
                }
            },
        },
    }
}

/// The state after a received edit was taken in, or why it is not taken in.
pub open spec fn with_received_edit(s: StoreState, json: ApubEdit) -> Result<StoreState, Error> {
    match received_edit(s, json) {
        Err(e) => Err(e),
        Ok((i, edit)) => Ok(s.with_upserted_edit(i, edit)),
    }
}

/// The state after the first `n` edits of a collection were taken in, one
/// after the other, and the error at which this stopped, if it did.
pub open spec fn with_received_edits(s: StoreState, items: Seq<ApubEdit>, n: int) -> (
    StoreState,
    Option<Error>,
)
    decreases n,
{
    if n <= 0 {
        (s, None)
    } else {
        let (state, stopped) = with_received_edits(s, items, n - 1);
        if stopped is Some {
            (state, stopped)
        } else {
            match with_received_edit(state, items[n - 1]) {
                Ok(next) => (next, None),
                Err(e) => (state, Some(e)),
            }
        }
    }
}

impl DbEdit {
    /// Takes a received edit into the store, as it is: the article that it
    /// belongs to and the person who made it must be known.
    pub fn from_json(json: ApubEdit, store: &mut Store) -> (stored: Result<DbEdit, Error>)
        requires
            old(store).wf(),
        ensures
            final(store).wf(),
            match stored {
                Ok(edit) => {
                    &&& received_edit(old(store).state(), json) is Ok
                    &&& edit == received_edit(old(store).state(), json)->Ok_0.1
                    &&& with_received_edit(old(store).state(), json) == Ok::<StoreState, Error>(
                        final(store).state(),
                    )
                },
                Err(e) => {
                    &&& with_received_edit(old(store).state(), json) == Err::<StoreState, Error>(e)
                    &&& final(store).state() == old(store).state()
                },
            },
    {
        let i = match store.find_article_by_ap_id(json.object.as_str()) {
            None => {
                return Err(Error::ArticleNotFound);
            },
            Some(i) => i,
        };
        let p = match store.find_person_by_ap_id(json.attributed_to.as_str()) {
            None => {
                return Err(Error::PersonNotFound);
            },
            Some(p) => p,
        };
        proof {
            store.state().lemma_article_pos(i as int);
        }
        let form = DbEditForm {
            creator_id: store.persons[p].id,
            hash: json.version,
            ap_id: json.id,
            diff: json.content,
            summary: json.summary,
            article_id: store.rows[i].article.id,
            previous_version_id: json.previous_version,
            published: json.published,
        };
        DbEdit::create(form, store)
    }
}

impl DbEditCollection {
    /// Takes the edits of a collection into the store, one after the other.
    /// Where one of them cannot be taken in, those before it stay and those
    /// after it are left out.
    pub fn from_json(apub: ApubEditCollection, store: &mut Store) -> (stored: Result<
        DbEditCollection,
        Error,
    >)
        requires
            old(store).wf(),
        ensures
            final(store).wf(),
            with_received_edits(old(store).state(), apub.items@, apub.items@.len() as int) == (
                final(store).state(),
                match stored {
                    Ok(_) => None::<Error>,
                    Err(e) => Some(e),
                },
            ),
            stored is Ok ==> stored->Ok_0.0.len() == apub.items.len(),
    {
        let ghost before = store.state();
        let mut edits: Vec<DbEdit> = Vec::new();
        let mut n: usize = 0;
        while n < apub.items.len()
            invariant
                n <= apub.items.len(),
                store.wf(),
                before == old(store).state(),
                edits.len() == n,
                with_received_edits(before, apub.items@, n as int) == (
                    store.state(),
                    None::<Error>,
                ),
            decreases apub.items.len() - n,
        {
            match DbEdit::from_json(apub.items[n].clone(), store) {
                Err(e) => {
                    proof {
                        assert(with_received_edits(before, apub.items@, n as int + 1) == (
                            store.state(),
                            Some(e),
                        ));
                        lemma_stopped(before, apub.items@, n as int + 1, apub.items@.len() as int);
                    }
                    return Err(e);
                },
                Ok(edit) => {
                    edits.push(edit);
                },
            }
            n += 1;
        }
        Ok(DbEditCollection(edits))
    }
}

impl DbEditCollection {
    /// The edits of an article, oldest first, as other instances see them.
    /// Fails where the collection has no URL, or where the creator of one of
    /// the edits is not known.
    pub fn read_local(owner: &DbArticle, store: &Store) -> (collection: Result<
        ApubEditCollection,
        Error,
    >)
        requires
            store.wf(),
        ensures
            match collection {
                Ok(c) => {
                    let edits = store.state().history_of(owner.id);
                    &&& url_normal_form(owner.ap_id@ + "/edits"@) == Some(c.id@)
                    &&& c.total_items == published_count(edits.len())
                    &&& c.items.len() == edits.len()
                    &&& forall|k: int|
                        0 <= k < edits.len() ==> edit_json(
                            store.state(),
                            edits[k],
                            #[trigger] c.items@[k],
                        )
                    &&& forall|k: int|
                        0 <= k < edits.len() ==> edit_json_refusal(
                            store.state(),
                            #[trigger] edits[k],
                        ) is None
                },
                Err(e) => {
                    let edits = store.state().history_of(owner.id);
                    if url_normal_form(owner.ap_id@ + "/edits"@) is None {
                        e == Error::InvalidUrl
                    } else {
                        exists|k: int|
                            0 <= k < edits.len() && edit_json_refusal(
                                store.state(),
                                #[trigger] edits[k],
                            ) == Some(e)
                    }
                },
            },
    {
        let id = match owner.edits_id() {
            Err(e) => {
                return Err(e);
            },
            Ok(url) => url,
        };
        let mut edits = DbEdit::list_for_article(owner.id, store);
        let ghost all = edits@;
        let count = edits.len();
        let mut items: Vec<ApubEdit> = Vec::new();
        let mut k: usize = 0;
        while k < count
            invariant
                k <= count,
                store.wf(),
                count == all.len(),
                all == store.state().history_of(owner.id),
                url_normal_form(owner.ap_id@ + "/edits"@) == Some(id@),
                edits@.len() == count - k,
                forall|j: int| 0 <= j < count - k ==> edits@[j] == all[k + j],
                items.len() == k,
                forall|j: int|
                    0 <= j < k ==> edit_json(store.state(), all[j], #[trigger] items@[j]),
                forall|j: int|
                    0 <= j < k ==> edit_json_refusal(store.state(), #[trigger] all[j]) is None,
            decreases count - k,
        {
            let edit = edits.remove(0);
            assert(edit == all[k as int]);
            match edit.into_json(store) {
                Err(e) => {
                    assert(edit_json_refusal(store.state(), all[k as int]) == Some(e));
                    return Err(e);
                },
                Ok(json) => {
                    items.push(json);
                },
            }
            k += 1;
        }
        Ok(ApubEditCollection { id, total_items: total_items_of(count), items })
    }
}

/// Once taking in a collection has stopped, it goes no further.
pub proof fn lemma_stopped(s: StoreState, items: Seq<ApubEdit>, n: int, m: int)
    requires
        0 <= n <= m,
        with_received_edits(s, items, n).1 is Some,
    ensures
        with_received_edits(s, items, m) == with_received_edits(s, items, n),
    decreases m - n,
{
    if n < m {
        lemma_stopped(s, items, n, m - 1);
    }
}

/// `states` are the states that a store goes through while the first
/// `states.len() - 1` articles of a collection are taken in, one after the
/// other, and `articles` are the articles as they stand in the store then.
pub open spec fn articles_received(
    states: Seq<StoreState>,
    items: Seq<ApubArticle>,
    now: Timestamp,
    articles: Seq<DbArticle>,
) -> bool {
    &&& states.len() == articles.len() + 1
    &&& articles.len() <= items.len()
    &&& forall|k: int|
        0 <= k < articles.len() ==> article_refusal(#[trigger] states[k], items[k]) is None
            && article_received(states[k], states[k + 1], items[k], now, articles[k])
}

/// Why the local articles cannot be shown as a collection, if they cannot.
pub open spec fn collection_refusal(s: StoreState, owner: DbInstance) -> Option<Error> {
    if owner.articles_url is None {
        Some(Error::InvalidUrl)
    } else if exists|k: int|
        0 <= k < listing(s, Some(true), None).len() && article_json_refusal(
            s,
            #[trigger] listing(s, Some(true), None)[k],
        ) is Some {
        Some(
            article_json_refusal(
                s,
                listing(s, Some(true), None)[choose|k: int|
                    0 <= k < listing(s, Some(true), None).len() && article_json_refusal(
                        s,
                        #[trigger] listing(s, Some(true), None)[k],
                    ) is Some && forall|j: int|
                        0 <= j < k ==> article_json_refusal(
                            s,
                            #[trigger] listing(s, Some(true), None)[j],
                        ) is None],
            )->0,
        )
    } else {
        None
    }
}

impl DbArticleCollection {
    /// The local articles that have been edited, most recently edited first,
    /// as other instances see them.
    pub fn read_local(owner: &DbInstance, store: &Store) -> (collection: Result<
        ArticleCollection,
        Error,
    >)
        requires
            store.wf(),
        ensures
            match collection {
                Ok(c) => {
                    let local = listing(store.state(), Some(true), None);
                    &&& collection_refusal(store.state(), *owner) is None
                    &&& Some(c.id) == owner.articles_url
                    &&& c.total_items == published_count(local.len())
                    &&& c.items.len() == local.len()
                    &&& forall|k: int|
                        0 <= k < local.len() ==> article_json(
                            store.state(),
                            local[k],
                            #[trigger] c.items@[k],
                        )
                },
                Err(e) => collection_refusal(store.state(), *owner) == Some(e),
            },
    {
        let id = match &owner.articles_url {
            None => {
                return Err(Error::InvalidUrl);
            },
            Some(url) => url.clone(),
        };
        let mut local_articles = DbArticle::read_all(Some(true), None, store);
        let ghost local = local_articles@;
        let mut items: Vec<ApubArticle> = Vec::new();
        let count = local_articles.len();
        let mut k: usize = 0;
        while k < count
            invariant
                k <= count,
                store.wf(),
                count == local.len(),
                local == listing(store.state(), Some(true), None),
                local_articles@.len() == count - k,
                forall|j: int| 0 <= j < count - k ==> local_articles@[j] == local[k + j],
                items.len() == k,
                forall|j: int|
                    0 <= j < k ==> article_json(store.state(), local[j], #[trigger] items@[j]),
                forall|j: int|
                    0 <= j < k ==> article_json_refusal(store.state(), #[trigger] local[j])
                        is None,
                owner.articles_url is Some,
            decreases count - k,
        {
            let article = local_articles.remove(0);
            assert(article == local[k as int]);
            match article.into_json(store) {
                Err(e) => {
                    proof {
                        let s = store.state();
                        let c = choose|c: int|
                            0 <= c < listing(s, Some(true), None).len() && article_json_refusal(
                                s,
                                #[trigger] listing(s, Some(true), None)[c],
                            ) is Some && forall|j: int|
                                0 <= j < c ==> article_json_refusal(
                                    s,
                                    #[trigger] listing(s, Some(true), None)[j],
                                ) is None;
                        assert(article_json_refusal(s, local[k as int]) is Some);
                        if c < k {
                            assert(article_json_refusal(s, local[c]) is None);
                        } else if k < c {
                            assert(article_json_refusal(s, local[k as int]) is None);
                        }
                    }
                    return Err(e);
                },
                Ok(json) => {
                    items.push(json);
                },
            }
            k += 1;
        }
        Ok(ArticleCollection { id, total_items: total_items_of(count), items })
    }

    /// Checks that a fetched collection names itself on the domain that it
    /// was fetched from.
    pub fn verify(json: &ArticleCollection, expected_domain: &str) -> (checked: Result<(), Error>)
        ensures
            checked == domains_match(json.id@, expected_domain@),
    {
        verify_domains_match(json.id.as_str(), expected_domain)
    }

    /// Takes the articles of a collection into the store, one after the
    /// other. Where one of them cannot be taken in, those before it stay and
    /// those after it are left out.
    pub fn from_json(apub: ArticleCollection, store: &mut Store, now: Timestamp) -> (stored: (
        DbArticleCollection,
        Option<Error>,
    ))
        requires
            old(store).wf(),
        ensures
            final(store).wf(),
            exists|states: Seq<StoreState>|
                {
                    &&& #[trigger] articles_received(states, apub.items@, now, stored.0.0@)
                    &&& states[0] == old(store).state()
                    &&& states.last() == final(store).state()
                },
            match stored.1 {
                None => stored.0.0.len() == apub.items.len(),
                Some(e) => stored.0.0.len() < apub.items.len() && article_refusal(
                    final(store).state(),
                    apub.items@[stored.0.0.len() as int],
                ) == Some(e),
            },
    {
        let ghost mut states: Seq<StoreState> = seq![store.state()];
        let mut articles: Vec<DbArticle> = Vec::new();
        let mut n: usize = 0;
        while n < apub.items.len()
            invariant
                n <= apub.items.len(),
                store.wf(),
                articles.len() == n,
                articles_received(states, apub.items@, now, articles@),
                states[0] == old(store).state(),
                states.last() == store.state(),
            decreases apub.items.len() - n,
        {
            let ghost before = store.state();
            let ghost earlier = states;
            let ghost known = articles@;
            match DbArticle::from_json(apub.items[n].clone(), store, now) {
                Err(e) => {
                    return (DbArticleCollection(articles), Some(e));
                },
                Ok(article) => {
                    articles.push(article);
                    proof {
                        states = states.push(store.state());
                        assert forall|k: int| 0 <= k < articles@.len() implies article_refusal(
                            #[trigger] states[k],
                            apub.items@[k],
                        ) is None && article_received(
                            states[k],
                            states[k + 1],
                            apub.items@[k],
                            now,
                            articles@[k],
                        ) by {
                            if k < n {
                                assert(states[k] == earlier[k]);
                                assert(states[k + 1] == earlier[k + 1]);
                                assert(articles@[k] == known[k]);
                                assert(article_refusal(earlier[k], apub.items@[k]) is None);
                            } else {
                                assert(states[k] == before);
                            }
                        }
                    }
                },
            }
            n += 1;
        }
        (DbArticleCollection(articles), None)
    }
}

} // verus!
