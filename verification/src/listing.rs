use crate::common::{DbArticle, DbEdit, DbInstance};
use crate::newtypes::InstanceId;
use crate::store::{Store, StoreState};
use vstd::prelude::*;

verus! {

/// When the latest of the first `n` edits was published; the least time
/// there is where there are none.
pub open spec fn last_edited_upto(edits: Seq<DbEdit>, n: int) -> int
    decreases n,
{
    if n <= 0 {
        i64::MIN as int
    } else if last_edited_upto(edits, n - 1) >= edits[n - 1].published.0 {
        last_edited_upto(edits, n - 1)
    } else {
        edits[n - 1].published.0 as int
    }
}

/// When an article with the given edits was last edited.
pub open spec fn last_edited(edits: Seq<DbEdit>) -> int {
    last_edited_upto(edits, edits.len() as int)
}

/// Whether the article at position `i` belongs in a listing: it has been
/// edited at least once, and it is local where only local ones are asked
/// for, and lives on the given instance where one is given.
pub open spec fn listed(
    s: StoreState,
    i: int,
    only_local: Option<bool>,
    instance: Option<InstanceId>,
) -> bool {
    &&& s.histories[i].len() > 0
    &&& only_local == Some(true) ==> s.articles[i].local
    &&& instance is Some ==> s.articles[i].instance_id == instance->0
}

/// The positions `order`, which stand most recently edited first, with
/// position `i` among them: behind every article that was edited later or
/// at the same time, and before every one that was edited earlier.
pub open spec fn inserted(s: StoreState, order: Seq<int>, i: int) -> Seq<int>
    decreases order.len(),
{
    if order.len() == 0 {
        seq![i]
    } else if last_edited(s.histories[order.last()]) >= last_edited(s.histories[i]) {
        order.push(i)
    } else {
        inserted(s, order.drop_last(), i).push(order.last())
    }
}

/// The positions of the articles among the first `n` that belong in a
/// listing, most recently edited first; of two that were edited at the same
/// time, the one that was stored first comes first.
pub open spec fn listing_upto(
    s: StoreState,
    n: int,
    only_local: Option<bool>,
    instance: Option<InstanceId>,
) -> Seq<int>
    decreases n,
{
    if n <= 0 {
        Seq::empty()
    } else if listed(s, n - 1, only_local, instance) {
        inserted(s, listing_upto(s, n - 1, only_local, instance), n - 1)
    } else {
        listing_upto(s, n - 1, only_local, instance)
    }
}

/// The articles at the given positions.
pub open spec fn articles_at(s: StoreState, order: Seq<int>) -> Seq<DbArticle> {
    Seq::new(order.len(), |k: int| s.articles[order[k]])
}

/// The articles that belong in a listing, most recently edited first.
pub open spec fn listing(
    s: StoreState,
    only_local: Option<bool>,
    instance: Option<InstanceId>,
) -> Seq<DbArticle> {
    articles_at(s, listing_upto(s, s.articles.len() as int, only_local, instance))
}

/// The positions stand most recently edited first.
pub open spec fn ordered(s: StoreState, order: Seq<int>) -> bool {
    forall|a: int, b: int|
        0 <= a < b < order.len() ==> last_edited(s.histories[#[trigger] order[a]]) >= last_edited(
            s.histories[#[trigger] order[b]],
        )
}

/// Putting a position among positions in its place gives `order` with the
/// position at some place `p`: all before it were edited no earlier, all
/// behind it were edited earlier.
pub proof fn lemma_inserted(s: StoreState, order: Seq<int>, i: int) -> (p: int)
    ensures
        0 <= p <= order.len(),
        inserted(s, order, i) == order.subrange(0, p).push(i) + order.subrange(
            p,
            order.len() as int,
        ),
        p > 0 ==> last_edited(s.histories[order[p - 1]]) >= last_edited(s.histories[i]),
        forall|k: int|
            p <= k < order.len() ==> last_edited(s.histories[#[trigger] order[k]]) < last_edited(
                s.histories[i],
            ),
    decreases order.len(),
{
    if order.len() == 0 {
        assert(inserted(s, order, i) =~= order.subrange(0, 0).push(i) + order.subrange(0, 0));
        0
    } else if last_edited(s.histories[order.last()]) >= last_edited(s.histories[i]) {
        let n = order.len() as int;
        assert(inserted(s, order, i) =~= order.subrange(0, n).push(i) + order.subrange(n, n));
        n
    } else {
        let rest = order.drop_last();
        let p = lemma_inserted(s, rest, i);
        let n = order.len() as int;
        assert(rest.subrange(0, p) =~= order.subrange(0, p));
        assert((rest.subrange(0, p).push(i) + rest.subrange(p, n - 1)).push(order.last())
            =~= order.subrange(0, p).push(i) + order.subrange(p, n));
        assert forall|k: int| p <= k < order.len() implies last_edited(
            s.histories[#[trigger] order[k]],
        ) < last_edited(s.histories[i]) by {
            if k < n - 1 {
                assert(rest[k] == order[k]);
            }
        }
        if p > 0 {
            assert(rest[p - 1] == order[p - 1]);
        }
        p
    }
}

/// A listing stands most recently edited first, and holds positions of
/// articles that belong in it.
pub proof fn lemma_listing_ordered(
    s: StoreState,
    n: int,
    only_local: Option<bool>,
    instance: Option<InstanceId>,
)
    requires
        0 <= n <= s.articles.len(),
    ensures
        ordered(s, listing_upto(s, n, only_local, instance)),
        forall|k: int|
            0 <= k < listing_upto(s, n, only_local, instance).len() ==> 0 <= (
            #[trigger] listing_upto(s, n, only_local, instance)[k]) < n && listed(
                s,
                listing_upto(s, n, only_local, instance)[k],
                only_local,
                instance,
            ),
    decreases n,
{
    if n > 0 {
        lemma_listing_ordered(s, n - 1, only_local, instance);
        if listed(s, n - 1, only_local, instance) {
            let rest = listing_upto(s, n - 1, only_local, instance);
            let p = lemma_inserted(s, rest, n - 1);
            let all = listing_upto(s, n, only_local, instance);
            assert forall|a: int, b: int| 0 <= a < b < all.len() implies last_edited(
                s.histories[#[trigger] all[a]],
            ) >= last_edited(s.histories[#[trigger] all[b]]) by {
                let before = |k: int|
                    if k < p {
                        k
                    } else {
                        k - 1
                    };
                if a == p {
                    assert(all[b] == rest[b - 1]);
                } else if b == p {
                    assert(all[a] == rest[a]);
                    if a < p - 1 {
                        assert(last_edited(s.histories[rest[a]]) >= last_edited(
                            s.histories[rest[p - 1]],
                        ));
                    }
                } else {
                    assert(all[a] == rest[before(a)]);
                    assert(all[b] == rest[before(b)]);
                }
            }
            assert forall|k: int| 0 <= k < all.len() implies 0 <= (#[trigger] all[k]) < n
                && listed(s, all[k], only_local, instance) by {
                if k < p {
                    assert(all[k] == rest[k]);
                } else if k > p {
                    assert(all[k] == rest[k - 1]);
                }
            }
        }
    }
}

/// A listing holds every article that belongs in it.
pub proof fn lemma_listing_complete(
    s: StoreState,
    n: int,
    only_local: Option<bool>,
    instance: Option<InstanceId>,
    i: int,
)
    requires
        0 <= i < n <= s.articles.len(),
        listed(s, i, only_local, instance),
    ensures
        listing_upto(s, n, only_local, instance).contains(i),
    decreases n,
{
    let rest = listing_upto(s, n - 1, only_local, instance);
    let all = listing_upto(s, n, only_local, instance);
    if listed(s, n - 1, only_local, instance) {
        let p = lemma_inserted(s, rest, n - 1);
        if i == n - 1 {
            assert(all[p] == i);
        } else {
            lemma_listing_complete(s, n - 1, only_local, instance, i);
            let w = choose|w: int| 0 <= w < rest.len() && rest[w] == i;
            if w < p {
                assert(all[w] == i);
            } else {
                assert(all[w + 1] == i);
            }
        }
    } else {
        lemma_listing_complete(s, n - 1, only_local, instance, i);
    }
}

/// A listing holds no article twice.
pub proof fn lemma_listing_distinct(
    s: StoreState,
    n: int,
    only_local: Option<bool>,
    instance: Option<InstanceId>,
)
    requires
        0 <= n <= s.articles.len(),
    ensures
        forall|a: int, b: int|
            0 <= a < b < listing_upto(s, n, only_local, instance).len() ==> (
            #[trigger] listing_upto(s, n, only_local, instance)[a]) != (#[trigger] listing_upto(
                s,
                n,
                only_local,
                instance,
            )[b]),
    decreases n,
{
    if n > 0 {
        lemma_listing_distinct(s, n - 1, only_local, instance);
        lemma_listing_ordered(s, n - 1, only_local, instance);
        if listed(s, n - 1, only_local, instance) {
            let rest = listing_upto(s, n - 1, only_local, instance);
            let all = listing_upto(s, n, only_local, instance);
            let p = lemma_inserted(s, rest, n - 1);
            assert forall|a: int, b: int| 0 <= a < b < all.len() implies (#[trigger] all[a]) != (
            #[trigger] all[b]) by {
                let before = |k: int|
                    if k < p {
                        k
                    } else {
                        k - 1
                    };
                if a == p {
                    assert(all[b] == rest[b - 1]);
                    assert(rest[b - 1] < n - 1);
                } else if b == p {
                    assert(all[a] == rest[a]);
                    assert(rest[a] < n - 1);
                } else {
                    assert(all[a] == rest[before(a)]);
                    assert(all[b] == rest[before(b)]);
                    assert(rest[before(a)] != rest[before(b)]);
                }
            }
        }
    }
}

/// When an article with the given edits was last edited.
fn last_edited_of(edits: &Vec<DbEdit>) -> (time: i64)
    ensures
        time == last_edited(edits@),
{
    let mut time: i64 = i64::MIN;
    let mut n: usize = 0;
    while n < edits.len()
        invariant
            n <= edits.len(),
            time == last_edited_upto(edits@, n as int),
        decreases edits.len() - n,
    {
        if edits[n].published.0 > time {
            time = edits[n].published.0;
        }
        n += 1;
    }
    time
}

impl DbArticle {
    /// The articles that have been edited, most recently edited first: only
    /// the local ones where `only_local` says so, and only those of the
    /// given instance where one is given.
    pub fn read_all(
        only_local: Option<bool>,
        instance_id: Option<InstanceId>,
        store: &Store,
    ) -> (articles: Vec<DbArticle>)
        requires
            store.wf(),
        ensures
            articles@ == listing(store.state(), only_local, instance_id),
    {
        let ghost s = store.state();
        proof {
            s.lemma_counters();
        }
        let mut order: Vec<usize> = Vec::new();
        let mut n: usize = 0;
        while n < store.rows.len()
            invariant
                n <= store.rows.len(),
                s == store.state(),
                s.histories.len() == s.articles.len(),
                order@.len() == listing_upto(s, n as int, only_local, instance_id).len(),
                forall|k: int|
                    0 <= k < order@.len() ==> (#[trigger] order@[k]) as int == listing_upto(
                        s,
                        n as int,
                        only_local,
                        instance_id,
                    )[k],
                forall|k: int| 0 <= k < order@.len() ==> (#[trigger] order@[k]) < n,
            decreases store.rows.len() - n,
        {
            let article = &store.rows[n].article;
            let wanted = store.rows[n].edits.len() > 0 && (match only_local {
                Some(true) => article.local,
                _ => true,
            }) && (match instance_id {
                Some(id) => article.instance_id == id,
                None => true,
            });
            assert(wanted == listed(s, n as int, only_local, instance_id));
            if wanted {
                let ghost rest = listing_upto(s, n as int, only_local, instance_id);
                let ghost place = lemma_inserted(s, rest, n as int);
                let time = last_edited_of(&store.rows[n].edits);
                let mut p: usize = order.len();
                while p > 0 && last_edited_of(&store.rows[order[p - 1]].edits) < time
                    invariant
                        place <= p <= order@.len(),
                        n < store.rows.len(),
                        s == store.state(),
                        order@.len() == rest.len(),
                        time == last_edited(s.histories[n as int]),
                        forall|k: int| 0 <= k < order@.len() ==> (#[trigger] order@[k]) < n,
                        forall|k: int|
                            0 <= k < order@.len() ==> (#[trigger] order@[k]) as int == rest[k],
                        place > 0 ==> last_edited(s.histories[rest[place - 1]]) >= last_edited(
                            s.histories[n as int],
                        ),
                        forall|k: int|
                            place <= k < rest.len() ==> last_edited(
                                s.histories[#[trigger] rest[k]],
                            ) < last_edited(s.histories[n as int]),
                    decreases p,
                {
                    assert(order@[p - 1] as int == rest[p - 1]);
                    p -= 1;
                }
                assert(p == place) by {
                    if p > place {
                        assert(order@[p - 1] as int == rest[p - 1]);
                        assert(last_edited(s.histories[rest[p - 1]]) < last_edited(
                            s.histories[n as int],
                        ));
                    }
                }
                order.insert(p, n);
                proof {
                    let all = listing_upto(s, n + 1, only_local, instance_id);
                    assert(all == rest.subrange(0, place).push(n as int) + rest.subrange(
                        place,
                        rest.len() as int,
                    ));
                    assert forall|k: int| 0 <= k < order@.len() implies (
                    #[trigger] order@[k]) as int == all[k] by {
                        if k < place {
                            assert(all[k] == rest[k]);
                        } else if k > place {
                            assert(all[k] == rest[k - 1]);
                        }
                    }
                }
            }
            n += 1;
        }
        let mut articles: Vec<DbArticle> = Vec::new();
        let mut k: usize = 0;
        while k < order.len()
            invariant
                k <= order.len(),
                s == store.state(),
                forall|j: int| 0 <= j < order@.len() ==> (#[trigger] order@[j]) < store.rows.len(),
                forall|j: int|
                    0 <= j < order@.len() ==> (#[trigger] order@[j]) as int == listing_upto(
                        s,
                        s.articles.len() as int,
                        only_local,
                        instance_id,
                    )[j],
                order@.len() == listing_upto(
                    s,
                    s.articles.len() as int,
                    only_local,
                    instance_id,
                ).len(),
                articles@ == listing(s, only_local, instance_id).take(k as int),
            decreases order.len() - k,
        {
            articles.push(store.rows[order[k]].article.clone());
            assert(articles@ =~= listing(s, only_local, instance_id).take(k + 1));
            k += 1;
        }
        assert(listing(s, only_local, instance_id).take(k as int) =~= listing(
            s,
            only_local,
            instance_id,
        ));
        articles
    }
}

/// How many articles an instance is shown with.
pub const LATEST_ARTICLES: usize = 5;

/// An instance together with the articles of it that were edited last.
#[derive(Debug, PartialEq)]
pub struct InstanceArticles {
    pub instance: DbInstance,
    pub articles: Vec<DbArticle>,
}

/// The articles that the instance at position `i` is shown with: those of
/// its articles that were edited most recently, most recent first.
pub open spec fn latest_articles(s: StoreState, i: int) -> Seq<DbArticle> {
    let all = listing(s, None, Some(s.instances[i].id));
    if all.len() <= LATEST_ARTICLES {
        all
    } else {
        all.subrange(0, LATEST_ARTICLES as int)
    }
}

impl DbInstance {
    /// Every instance that the store knows, in the order in which they were
    /// stored, each with the articles of it that were edited last.
    pub fn list_views(store: &Store) -> (views: Vec<InstanceArticles>)
        requires
            store.wf(),
        ensures
            views.len() == store.state().instances.len(),
            forall|i: int|
                0 <= i < views.len() ==> (#[trigger] views@[i]).instance
                    == store.state().instances[i] && views@[i].articles@ == latest_articles(
                    store.state(),
                    i,
                ),
    {
        let mut views: Vec<InstanceArticles> = Vec::new();
        let mut n: usize = 0;
        while n < store.instances.len()
            invariant
                n <= store.instances.len(),
                store.wf(),
                views.len() == n,
                forall|i: int|
                    0 <= i < n ==> (#[trigger] views@[i]).instance == store.state().instances[i]
                        && views@[i].articles@ == latest_articles(store.state(), i),
            decreases store.instances.len() - n,
        {
            let instance = store.instances[n].clone();
            let mut articles = DbArticle::read_all(None, Some(instance.id), store);
            articles.truncate(LATEST_ARTICLES);
            views.push(InstanceArticles { instance, articles });
            n += 1;
        }
        views
    }
}

} // verus!
