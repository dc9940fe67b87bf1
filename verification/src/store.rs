use crate::common::{DbArticle, DbEdit, DbInstance, DbLocalUser, DbPerson, InstanceFollow};
use crate::conflict::DbConflict;
use crate::history::{consistent, latest_version};
use crate::newtypes::{ArticleId, ConflictId, InstanceId, PersonId};
use vstd::prelude::*;

verus! {

/// An article with its edits, oldest first.
pub struct ArticleRow {
    pub(crate) article: DbArticle,
    pub(crate) edits: Vec<DbEdit>,
}

/// The tables of one instance: articles with their edit histories, conflicts,
/// instances, persons, local accounts and follow edges.
pub struct Store {
    pub(crate) rows: Vec<ArticleRow>,
    pub(crate) conflicts: Vec<DbConflict>,
    pub(crate) instances: Vec<DbInstance>,
    pub(crate) persons: Vec<DbPerson>,
    pub(crate) local_users: Vec<DbLocalUser>,
    pub(crate) follows: Vec<InstanceFollow>,
    pub(crate) next_article: i32,
    pub(crate) next_edit: i32,
    pub(crate) next_conflict: i32,
    pub(crate) next_instance: i32,
    pub(crate) next_person: i32,
    pub(crate) next_local_user: i32,
}

/// What a store holds, as mathematical sequences in insertion order.
/// `histories[i]` holds the edits of `articles[i]`, oldest first.
pub struct StoreState {
    pub articles: Seq<DbArticle>,
    pub histories: Seq<Seq<DbEdit>>,
    pub conflicts: Seq<DbConflict>,
    pub instances: Seq<DbInstance>,
    pub persons: Seq<DbPerson>,
    pub local_users: Seq<DbLocalUser>,
    pub follows: Seq<InstanceFollow>,
    pub next_article: int,
    pub next_edit: int,
    pub next_conflict: int,
    pub next_instance: int,
    pub next_person: int,
    pub next_local_user: int,
}

/// Position of the edit with the given federation identifier in a history.
pub open spec fn edit_pos(edits: Seq<DbEdit>, ap_id: Seq<char>) -> Option<int> {
    if exists|k: int| 0 <= k < edits.len() && edits[k].ap_id@ == ap_id {
        Some(
            choose|k: int|
                0 <= k < edits.len() && edits[k].ap_id@ == ap_id && forall|j: int|
                    0 <= j < k ==> (#[trigger] edits[j]).ap_id@ != ap_id,
        )
    } else {
        None
    }
}

/// The first `n` of `conflicts` without those of the article `id`.
pub open spec fn conflicts_kept(conflicts: Seq<DbConflict>, id: ArticleId, n: int) -> Seq<
    DbConflict,
>
    decreases n,
{
    if n <= 0 {
        Seq::empty()
    } else if conflicts[n - 1].article_id == id {
        conflicts_kept(conflicts, id, n - 1)
    } else {
        conflicts_kept(conflicts, id, n - 1).push(conflicts[n - 1])
    }
}

/// What is kept of conflicts was among them, and in the same order.
pub proof fn lemma_conflicts_kept(conflicts: Seq<DbConflict>, id: ArticleId, n: int, k: int) -> (j:
    int)
    requires
        0 <= n <= conflicts.len(),
        0 <= k < conflicts_kept(conflicts, id, n).len(),
    ensures
        k <= j < n,
        conflicts_kept(conflicts, id, n)[k] == conflicts[j],
    decreases n,
{
    if conflicts[n - 1].article_id == id {
        lemma_conflicts_kept(conflicts, id, n - 1, k)
    } else if k < conflicts_kept(conflicts, id, n - 1).len() {
        lemma_conflicts_kept(conflicts, id, n - 1, k)
    } else {
        lemma_conflicts_kept_len(conflicts, id, n - 1);
        n - 1
    }
}

/// No more conflicts are kept than there were.
pub proof fn lemma_conflicts_kept_len(conflicts: Seq<DbConflict>, id: ArticleId, n: int)
    requires
        0 <= n <= conflicts.len(),
    ensures
        conflicts_kept(conflicts, id, n).len() <= n,
    decreases n,
{
    if n > 0 {
        lemma_conflicts_kept_len(conflicts, id, n - 1);
    }
}

/// What is kept of conflicts with distinct identifiers has distinct identifiers.
pub proof fn lemma_conflicts_kept_distinct(conflicts: Seq<DbConflict>, id: ArticleId, n: int)
    requires
        0 <= n <= conflicts.len(),
        forall|a: int, b: int|
            0 <= a < b < conflicts.len() ==> (#[trigger] conflicts[a]).id != (
            #[trigger] conflicts[b]).id,
    ensures
        forall|a: int, b: int|
            0 <= a < b < conflicts_kept(conflicts, id, n).len() ==> (#[trigger] conflicts_kept(
                conflicts,
                id,
                n,
            )[a]).id != (#[trigger] conflicts_kept(conflicts, id, n)[b]).id,
    decreases n,
{
    if n > 0 {
        lemma_conflicts_kept_distinct(conflicts, id, n - 1);
        let kept = conflicts_kept(conflicts, id, n);
        let rest = conflicts_kept(conflicts, id, n - 1);
        if conflicts[n - 1].article_id != id {
            assert forall|a: int, b: int| 0 <= a < b < kept.len() implies (#[trigger] kept[a]).id
                != (#[trigger] kept[b]).id by {
                if b < rest.len() {
                    assert(kept[a] == rest[a]);
                    assert(kept[b] == rest[b]);
                } else {
                    let j = lemma_conflicts_kept(conflicts, id, n - 1, a);
                    assert(kept[a] == conflicts[j]);
                    assert(kept[b] == conflicts[n - 1]);
                    assert(conflicts[j].id != conflicts[n - 1].id);
                }
            }
        }
    }
}

/// The text of each of the articles is what its history, which stands at
/// the same position, replays to.
pub open spec fn chains_consistent(articles: Seq<DbArticle>, histories: Seq<Seq<DbEdit>>) -> bool {
    forall|i: int|
        0 <= i < articles.len() ==> consistent(
            (#[trigger] articles[i]).text@,
            histories[i],
        )
}

impl StoreState {
    /// Position of the article with the given id.
    pub open spec fn article_pos(self, id: ArticleId) -> Option<int> {
        if exists|i: int| 0 <= i < self.articles.len() && self.articles[i].id == id {
            Some(choose|i: int| 0 <= i < self.articles.len() && self.articles[i].id == id)
        } else {
            None
        }
    }

    /// Position of the article with the given federation identifier.
    pub open spec fn article_pos_by_ap_id(self, ap_id: Seq<char>) -> Option<int> {
        if exists|i: int| 0 <= i < self.articles.len() && self.articles[i].ap_id@ == ap_id {
            Some(choose|i: int| 0 <= i < self.articles.len() && self.articles[i].ap_id@ == ap_id)
        } else {
            None
        }
    }

    /// Position of the conflict with the given id.
    pub open spec fn conflict_pos(self, id: ConflictId) -> Option<int> {
        if exists|i: int| 0 <= i < self.conflicts.len() && self.conflicts[i].id == id {
            Some(choose|i: int| 0 <= i < self.conflicts.len() && self.conflicts[i].id == id)
        } else {
            None
        }
    }

    /// Position of the instance with the given id.
    pub open spec fn instance_pos(self, id: InstanceId) -> Option<int> {
        if exists|i: int| 0 <= i < self.instances.len() && self.instances[i].id == id {
            Some(choose|i: int| 0 <= i < self.instances.len() && self.instances[i].id == id)
        } else {
            None
        }
    }

    /// Position of the instance with the given federation identifier.
    pub open spec fn instance_pos_by_ap_id(self, ap_id: Seq<char>) -> Option<int> {
        if exists|i: int| 0 <= i < self.instances.len() && self.instances[i].ap_id@ == ap_id {
            Some(choose|i: int| 0 <= i < self.instances.len() && self.instances[i].ap_id@ == ap_id)
        } else {
            None
        }
    }

    /// Position of the person with the given id.
    pub open spec fn person_pos(self, id: PersonId) -> Option<int> {
        if exists|i: int| 0 <= i < self.persons.len() && self.persons[i].id == id {
            Some(choose|i: int| 0 <= i < self.persons.len() && self.persons[i].id == id)
        } else {
            None
        }
    }

    /// Position of the person with the given federation identifier.
    pub open spec fn person_pos_by_ap_id(self, ap_id: Seq<char>) -> Option<int> {
        if exists|i: int| 0 <= i < self.persons.len() && self.persons[i].ap_id@ == ap_id {
            Some(choose|i: int| 0 <= i < self.persons.len() && self.persons[i].ap_id@ == ap_id)
        } else {
            None
        }
    }

    /// Position of the follow edge from `follower` to `instance`.
    pub open spec fn follow_pos(self, instance: InstanceId, follower: PersonId) -> Option<int> {
        if exists|i: int|
            0 <= i < self.follows.len() && self.follows[i].instance_id == instance
                && self.follows[i].follower_id == follower {
            Some(
                choose|i: int|
                    0 <= i < self.follows.len() && self.follows[i].instance_id == instance
                        && self.follows[i].follower_id == follower,
            )
        } else {
            None
        }
    }

    /// Every article has a history, and the edits in it belong to the article.
    pub open spec fn histories_valid(self) -> bool {
        &&& self.histories.len() == self.articles.len()
        &&& forall|i: int, k: int|
            0 <= i < self.histories.len() && 0 <= k < self.histories[i].len() ==> {
                &&& (#[trigger] self.histories[i][k]).article_id == self.articles[i].id
                &&& self.histories[i][k].id.0 < self.next_edit
            }
    }

    /// No identifier is handed out twice, and none that will be handed out is in use.
    pub open spec fn ids_valid(self) -> bool {
        &&& 0 < self.next_article <= i32::MAX
        &&& 0 < self.next_edit <= i32::MAX
        &&& 0 < self.next_conflict <= i32::MAX
        &&& 0 < self.next_instance <= i32::MAX
        &&& 0 < self.next_person <= i32::MAX
        &&& 0 < self.next_local_user <= i32::MAX
        &&& forall|i: int|
            0 <= i < self.articles.len() ==> (#[trigger] self.articles[i]).id.0 < self.next_article
        &&& forall|i: int, j: int|
            0 <= i < j < self.articles.len() ==> (#[trigger] self.articles[i]).id != (
            #[trigger] self.articles[j]).id
        &&& forall|i: int|
            0 <= i < self.conflicts.len() ==> (#[trigger] self.conflicts[i]).id.0
                < self.next_conflict
        &&& forall|i: int, j: int|
            0 <= i < j < self.conflicts.len() ==> (#[trigger] self.conflicts[i]).id != (
            #[trigger] self.conflicts[j]).id
        &&& forall|i: int|
            0 <= i < self.instances.len() ==> (#[trigger] self.instances[i]).id.0
                < self.next_instance
        &&& forall|i: int, j: int|
            0 <= i < j < self.instances.len() ==> (#[trigger] self.instances[i]).id != (
            #[trigger] self.instances[j]).id
        &&& forall|i: int|
            0 <= i < self.persons.len() ==> (#[trigger] self.persons[i]).id.0 < self.next_person
        &&& forall|i: int, j: int|
            0 <= i < j < self.persons.len() ==> (#[trigger] self.persons[i]).id != (
            #[trigger] self.persons[j]).id
        &&& forall|i: int|
            0 <= i < self.local_users.len() ==> (#[trigger] self.local_users[i]).id.0
                < self.next_local_user
        &&& forall|i: int, j: int|
            0 <= i < j < self.local_users.len() ==> (#[trigger] self.local_users[i]).id != (
            #[trigger] self.local_users[j]).id
    }

    /// No federation identifier names two articles, two instances or two
    /// persons, and no two follow edges join the same person and instance.
    pub open spec fn keys_valid(self) -> bool {
        &&& forall|i: int, j: int|
            0 <= i < j < self.articles.len() ==> (#[trigger] self.articles[i]).ap_id@ != (
            #[trigger] self.articles[j]).ap_id@
        &&& forall|i: int, j: int|
            0 <= i < j < self.instances.len() ==> (#[trigger] self.instances[i]).ap_id@ != (
            #[trigger] self.instances[j]).ap_id@
        &&& forall|i: int, j: int|
            0 <= i < j < self.persons.len() ==> (#[trigger] self.persons[i]).ap_id@ != (
            #[trigger] self.persons[j]).ap_id@
        &&& forall|i: int, j: int|
            0 <= i < j < self.follows.len() ==> !((#[trigger] self.follows[i]).instance_id == (
            #[trigger] self.follows[j]).instance_id && self.follows[i].follower_id
                == self.follows[j].follower_id)
    }

    /// The invariant of a store.
    #[verifier::opaque]
    pub open spec fn valid(self) -> bool {
        &&& self.histories_valid()
        &&& self.ids_valid()
        &&& self.keys_valid()
    }

    /// The state with one more article, which has no edits yet.
    pub open spec fn with_new_article(self, article: DbArticle) -> StoreState {
        StoreState {
            articles: self.articles.push(article),
            histories: self.histories.push(Seq::empty()),
            next_article: self.next_article + 1,
            ..self
        }
    }

    /// The state with another article at position `i`, and the same history there.
    pub open spec fn with_article(self, i: int, article: DbArticle) -> StoreState {
        StoreState { articles: self.articles.update(i, article), ..self }
    }

    /// The state with one more edit at the end of the history at position `i`.
    pub open spec fn with_edit(self, i: int, edit: DbEdit) -> StoreState {
        StoreState {
            histories: self.histories.update(i, self.histories[i].push(edit)),
            next_edit: self.next_edit + 1,
            ..self
        }
    }

    /// The state without the article at position `i` and without its history.
    pub open spec fn without_article(self, i: int) -> StoreState {
        StoreState {
            articles: self.articles.remove(i),
            histories: self.histories.remove(i),
            ..self
        }
    }

    /// The edits of the article with the given id, oldest first; none where
    /// there is no such article.
    pub open spec fn history_of(self, id: ArticleId) -> Seq<DbEdit> {
        match self.article_pos(id) {
            Some(i) => self.histories[i],
            None => Seq::empty(),
        }
    }

    /// The state with one more conflict.
    pub open spec fn with_new_conflict(self, conflict: DbConflict) -> StoreState {
        StoreState {
            conflicts: self.conflicts.push(conflict),
            next_conflict: self.next_conflict + 1,
            ..self
        }
    }

    /// The state without the conflict at position `i`.
    pub open spec fn without_conflict(self, i: int) -> StoreState {
        StoreState { conflicts: self.conflicts.remove(i), ..self }
    }

    /// The conflicts that the given person created, oldest first.
    pub open spec fn conflicts_of(self, creator: PersonId) -> Seq<DbConflict> {
        self.conflicts.filter(|c: DbConflict| c.creator_id == creator)
    }

    /// The state with one more instance.
    pub open spec fn with_new_instance(self, instance: DbInstance) -> StoreState {
        StoreState {
            instances: self.instances.push(instance),
            next_instance: self.next_instance + 1,
            ..self
        }
    }

    /// The state with another row for the instance at position `i`.
    pub open spec fn with_instance(self, i: int, instance: DbInstance) -> StoreState {
        StoreState { instances: self.instances.update(i, instance), ..self }
    }

    /// The state with one more person.
    pub open spec fn with_new_person(self, person: DbPerson) -> StoreState {
        StoreState {
            persons: self.persons.push(person),
            next_person: self.next_person + 1,
            ..self
        }
    }

    /// The state with another row for the person at position `i`.
    pub open spec fn with_person(self, i: int, person: DbPerson) -> StoreState {
        StoreState { persons: self.persons.update(i, person), ..self }
    }

    /// The state with one more local account.
    pub open spec fn with_new_local_user(self, user: DbLocalUser) -> StoreState {
        StoreState {
            local_users: self.local_users.push(user),
            next_local_user: self.next_local_user + 1,
            ..self
        }
    }

    /// The state in which `edge` is the one edge between its person and its
    /// instance: it takes the place of the edge that joined them, or is added.
    pub open spec fn with_follow(self, edge: InstanceFollow) -> StoreState {
        match self.follow_pos(edge.instance_id, edge.follower_id) {
            Some(k) => StoreState { follows: self.follows.update(k, edge), ..self },
            None => StoreState { follows: self.follows.push(edge), ..self },
        }
    }

    /// Position of the first local instance.
    pub open spec fn local_instance_pos(self) -> Option<int> {
        if exists|i: int| 0 <= i < self.instances.len() && self.instances[i].local {
            Some(
                choose|i: int|
                    0 <= i < self.instances.len() && self.instances[i].local && forall|j: int|
                        0 <= j < i ==> !(#[trigger] self.instances[j]).local,
            )
        } else {
            None
        }
    }

    /// Position of the local account of the given person.
    pub open spec fn local_user_pos(self, person: PersonId) -> Option<int> {
        if exists|i: int| 0 <= i < self.local_users.len() && self.local_users[i].person_id == person {
            Some(
                choose|i: int|
                    0 <= i < self.local_users.len() && self.local_users[i].person_id == person
                        && forall|j: int|
                        0 <= j < i ==> (#[trigger] self.local_users[j]).person_id != person,
            )
        } else {
            None
        }
    }

    /// The latest version of the article with the given id; the sentinel
    /// where the article has no edits, or does not exist.
    pub open spec fn latest_version_of(self, id: ArticleId) -> Seq<u8> {
        latest_version(self.history_of(id))
    }

    /// The state with one more article that comes with `edits.len()` edits,
    /// which take the next identifiers.
    pub open spec fn with_new_history(self, article: DbArticle, edits: Seq<DbEdit>) -> StoreState {
        StoreState {
            articles: self.articles.push(article),
            histories: self.histories.push(edits),
            next_article: self.next_article + 1,
            next_edit: self.next_edit + edits.len(),
            ..self
        }
    }

    /// The state in which `edit` stands in the history at position `i`: in
    /// the place of the edit with the same federation identifier, or at the
    /// end where there is none.
    pub open spec fn with_upserted_edit(self, i: int, edit: DbEdit) -> StoreState {
        match edit_pos(self.histories[i], edit.ap_id@) {
            Some(k) => self.with_replaced_edit(i, k, edit),
            None => self.with_edit(i, edit),
        }
    }

    /// The state with another edit at position `k` of the history at position `i`.
    pub open spec fn with_replaced_edit(self, i: int, k: int, edit: DbEdit) -> StoreState {
        StoreState {
            histories: self.histories.update(i, self.histories[i].update(k, edit)),
            ..self
        }
    }

    /// The state without the article at position `i`, without its edits, and
    /// without the conflicts that were queued for it.
    pub open spec fn with_article_deleted(self, i: int) -> StoreState {
        StoreState {
            articles: self.articles.remove(i),
            histories: self.histories.remove(i),
            conflicts: conflicts_kept(
                self.conflicts,
                self.articles[i].id,
                self.conflicts.len() as int,
            ),
            ..self
        }
    }

    /// The text of every article is what its edits replay to.
    pub open spec fn all_consistent(self) -> bool {
        chains_consistent(self.articles, self.histories)
    }

    /// The state without anything in it.
    pub open spec fn empty() -> StoreState {
        StoreState {
            articles: Seq::empty(),
            histories: Seq::empty(),
            conflicts: Seq::empty(),
            instances: Seq::empty(),
            persons: Seq::empty(),
            local_users: Seq::empty(),
            follows: Seq::empty(),
            next_article: 1,
            next_edit: 1,
            next_conflict: 1,
            next_instance: 1,
            next_person: 1,
            next_local_user: 1,
        }
    }

    /// A new article with the next identifier and an unused federation
    /// identifier keeps the state valid.
    pub proof fn lemma_with_new_article(self, article: DbArticle)
        requires
            self.valid(),
            article.id.0 == self.next_article,
            self.next_article < i32::MAX,
            self.article_pos_by_ap_id(article.ap_id@) is None,
        ensures
            self.with_new_article(article).valid(),
    {
        reveal(StoreState::valid);
        let after = self.with_new_article(article);
        let n = self.articles.len() as int;
        assert forall|i: int, k: int|
            0 <= i < after.histories.len() && 0 <= k < after.histories[i].len() implies {
            &&& (#[trigger] after.histories[i][k]).article_id == after.articles[i].id
            &&& after.histories[i][k].id.0 < after.next_edit
        } by {
            assert(i < n);
            assert(after.histories[i] == self.histories[i]);
            assert(self.histories[i][k].article_id == self.articles[i].id);
        }
        assert forall|i: int| 0 <= i < after.articles.len() implies (
        #[trigger] after.articles[i]).id.0 < after.next_article by {
            if i < n {
                assert(self.articles[i].id.0 < self.next_article);
            }
        }
        assert forall|i: int, j: int| 0 <= i < j < after.articles.len() implies (
        #[trigger] after.articles[i]).id != (#[trigger] after.articles[j]).id by {
            if j < n {
                assert(self.articles[i].id != self.articles[j].id);
            } else {
                assert(self.articles[i].id.0 < self.next_article);
            }
        }
        assert forall|i: int, j: int| 0 <= i < j < after.articles.len() implies (
        #[trigger] after.articles[i]).ap_id@ != (#[trigger] after.articles[j]).ap_id@ by {
            if j < n {
                assert(self.articles[i].ap_id@ != self.articles[j].ap_id@);
            } else {
                assert(self.articles[i].ap_id@ != article.ap_id@);
            }
        }
    }

    /// One more edit of the article at position `i`, with the next identifier,
    /// keeps the state valid.
    pub proof fn lemma_with_edit(self, i: int, edit: DbEdit)
        requires
            self.valid(),
            0 <= i < self.articles.len(),
            edit.article_id == self.articles[i].id,
            edit.id.0 == self.next_edit,
            self.next_edit < i32::MAX,
        ensures
            self.with_edit(i, edit).valid(),
    {
        reveal(StoreState::valid);
        let after = self.with_edit(i, edit);
        assert forall|j: int, k: int|
            0 <= j < after.histories.len() && 0 <= k < after.histories[j].len() implies {
            &&& (#[trigger] after.histories[j][k]).article_id == after.articles[j].id
            &&& after.histories[j][k].id.0 < after.next_edit
        } by {
            if j == i {
                if k < self.histories[i].len() {
                    assert(after.histories[j][k] == self.histories[i][k]);
                    assert(self.histories[i][k].article_id == self.articles[i].id);
                }
            } else {
                assert(after.histories[j] == self.histories[j]);
                assert(self.histories[j][k].article_id == self.articles[j].id);
            }
        }
    }

    /// Another text for the article at position `i` keeps the state valid.
    pub proof fn lemma_with_article(self, i: int, article: DbArticle)
        requires
            self.valid(),
            0 <= i < self.articles.len(),
            article.id == self.articles[i].id,
            article.ap_id@ == self.articles[i].ap_id@,
        ensures
            self.with_article(i, article).valid(),
    {
        reveal(StoreState::valid);
        let after = self.with_article(i, article);
        assert forall|j: int, k: int|
            0 <= j < after.histories.len() && 0 <= k < after.histories[j].len() implies {
            &&& (#[trigger] after.histories[j][k]).article_id == after.articles[j].id
            &&& after.histories[j][k].id.0 < after.next_edit
        } by {
            assert(self.histories[j][k].article_id == self.articles[j].id);
        }
        assert forall|j: int| 0 <= j < after.articles.len() implies (
        #[trigger] after.articles[j]).id.0 < after.next_article by {
            assert(self.articles[j].id.0 < self.next_article);
        }
        assert forall|j: int, k: int| 0 <= j < k < after.articles.len() implies (
        #[trigger] after.articles[j]).id != (#[trigger] after.articles[k]).id by {
            assert(self.articles[j].id != self.articles[k].id);
        }
        assert forall|j: int, k: int| 0 <= j < k < after.articles.len() implies (
        #[trigger] after.articles[j]).ap_id@ != (#[trigger] after.articles[k]).ap_id@ by {
            assert(self.articles[j].ap_id@ != self.articles[k].ap_id@);
        }
    }

    /// One more conflict with the next identifier keeps the state valid.
    pub proof fn lemma_with_new_conflict(self, conflict: DbConflict)
        requires
            self.valid(),
            conflict.id.0 == self.next_conflict,
            self.next_conflict < i32::MAX,
        ensures
            self.with_new_conflict(conflict).valid(),
    {
        reveal(StoreState::valid);
        let after = self.with_new_conflict(conflict);
        let n = self.conflicts.len() as int;
        assert forall|i: int| 0 <= i < after.conflicts.len() implies (
        #[trigger] after.conflicts[i]).id.0 < after.next_conflict by {
            if i < n {
                assert(self.conflicts[i].id.0 < self.next_conflict);
            }
        }
        assert forall|i: int, j: int| 0 <= i < j < after.conflicts.len() implies (
        #[trigger] after.conflicts[i]).id != (#[trigger] after.conflicts[j]).id by {
            if j < n {
                assert(self.conflicts[i].id != self.conflicts[j].id);
            } else {
                assert(self.conflicts[i].id.0 < self.next_conflict);
            }
        }
    }

    /// Without one of its conflicts the state stays valid.
    pub proof fn lemma_without_conflict(self, i: int)
        requires
            self.valid(),
            0 <= i < self.conflicts.len(),
        ensures
            self.without_conflict(i).valid(),
    {
        reveal(StoreState::valid);
        let after = self.without_conflict(i);
        assert forall|j: int| 0 <= j < after.conflicts.len() implies (
        #[trigger] after.conflicts[j]).id.0 < after.next_conflict by {
            if j < i {
                assert(self.conflicts[j].id.0 < self.next_conflict);
            } else {
                assert(self.conflicts[j + 1].id.0 < self.next_conflict);
            }
        }
        assert forall|j: int, k: int| 0 <= j < k < after.conflicts.len() implies (
        #[trigger] after.conflicts[j]).id != (#[trigger] after.conflicts[k]).id by {
            let a = if j < i {
                j
            } else {
                j + 1
            };
            let b = if k < i {
                k
            } else {
                k + 1
            };
            assert(self.conflicts[a].id != self.conflicts[b].id);
        }
    }

    /// One more instance with the next identifier and an unused federation
    /// identifier keeps the state valid.
    pub proof fn lemma_with_new_instance(self, instance: DbInstance)
        requires
            self.valid(),
            instance.id.0 == self.next_instance,
            self.next_instance < i32::MAX,
            self.instance_pos_by_ap_id(instance.ap_id@) is None,
        ensures
            self.with_new_instance(instance).valid(),
    {
        reveal(StoreState::valid);
        let after = self.with_new_instance(instance);
        let n = self.instances.len() as int;
        assert forall|i: int| 0 <= i < after.instances.len() implies (
        #[trigger] after.instances[i]).id.0 < after.next_instance by {
            if i < n {
                assert(self.instances[i].id.0 < self.next_instance);
            }
        }
        assert forall|i: int, j: int| 0 <= i < j < after.instances.len() implies (
        #[trigger] after.instances[i]).id != (#[trigger] after.instances[j]).id by {
            if j < n {
                assert(self.instances[i].id != self.instances[j].id);
            } else {
                assert(self.instances[i].id.0 < self.next_instance);
            }
        }
        assert forall|i: int, j: int| 0 <= i < j < after.instances.len() implies (
        #[trigger] after.instances[i]).ap_id@ != (#[trigger] after.instances[j]).ap_id@ by {
            if j < n {
                assert(self.instances[i].ap_id@ != self.instances[j].ap_id@);
            } else {
                assert(self.instances[i].ap_id@ != instance.ap_id@);
            }
        }
    }

    /// Another row for the instance at position `i`, under the same
    /// identifiers, keeps the state valid.
    pub proof fn lemma_with_instance(self, i: int, instance: DbInstance)
        requires
            self.valid(),
            0 <= i < self.instances.len(),
            instance.id == self.instances[i].id,
            instance.ap_id@ == self.instances[i].ap_id@,
        ensures
            self.with_instance(i, instance).valid(),
    {
        reveal(StoreState::valid);
        let after = self.with_instance(i, instance);
        assert forall|j: int| 0 <= j < after.instances.len() implies (
        #[trigger] after.instances[j]).id.0 < after.next_instance by {
            assert(self.instances[j].id.0 < self.next_instance);
        }
        assert forall|j: int, k: int| 0 <= j < k < after.instances.len() implies (
        #[trigger] after.instances[j]).id != (#[trigger] after.instances[k]).id by {
            assert(self.instances[j].id != self.instances[k].id);
        }
        assert forall|j: int, k: int| 0 <= j < k < after.instances.len() implies (
        #[trigger] after.instances[j]).ap_id@ != (#[trigger] after.instances[k]).ap_id@ by {
            assert(self.instances[j].ap_id@ != self.instances[k].ap_id@);
        }
    }

    /// One more person with the next identifier and an unused federation
    /// identifier keeps the state valid.
    pub proof fn lemma_with_new_person(self, person: DbPerson)
        requires
            self.valid(),
            person.id.0 == self.next_person,
            self.next_person < i32::MAX,
            self.person_pos_by_ap_id(person.ap_id@) is None,
        ensures
            self.with_new_person(person).valid(),
    {
        reveal(StoreState::valid);
        let after = self.with_new_person(person);
        let n = self.persons.len() as int;
        assert forall|i: int| 0 <= i < after.persons.len() implies (
        #[trigger] after.persons[i]).id.0 < after.next_person by {
            if i < n {
                assert(self.persons[i].id.0 < self.next_person);
            }
        }
        assert forall|i: int, j: int| 0 <= i < j < after.persons.len() implies (
        #[trigger] after.persons[i]).id != (#[trigger] after.persons[j]).id by {
            if j < n {
                assert(self.persons[i].id != self.persons[j].id);
            } else {
                assert(self.persons[i].id.0 < self.next_person);
            }
        }
        assert forall|i: int, j: int| 0 <= i < j < after.persons.len() implies (
        #[trigger] after.persons[i]).ap_id@ != (#[trigger] after.persons[j]).ap_id@ by {
            if j < n {
                assert(self.persons[i].ap_id@ != self.persons[j].ap_id@);
            } else {
                assert(self.persons[i].ap_id@ != person.ap_id@);
            }
        }
    }

    /// Another row for the person at position `i`, under the same identifiers,
    /// keeps the state valid.
    pub proof fn lemma_with_person(self, i: int, person: DbPerson)
        requires
            self.valid(),
            0 <= i < self.persons.len(),
            person.id == self.persons[i].id,
            person.ap_id@ == self.persons[i].ap_id@,
        ensures
            self.with_person(i, person).valid(),
    {
        reveal(StoreState::valid);
        let after = self.with_person(i, person);
        assert forall|j: int| 0 <= j < after.persons.len() implies (
        #[trigger] after.persons[j]).id.0 < after.next_person by {
            assert(self.persons[j].id.0 < self.next_person);
        }
        assert forall|j: int, k: int| 0 <= j < k < after.persons.len() implies (
        #[trigger] after.persons[j]).id != (#[trigger] after.persons[k]).id by {
            assert(self.persons[j].id != self.persons[k].id);
        }
        assert forall|j: int, k: int| 0 <= j < k < after.persons.len() implies (
        #[trigger] after.persons[j]).ap_id@ != (#[trigger] after.persons[k]).ap_id@ by {
            assert(self.persons[j].ap_id@ != self.persons[k].ap_id@);
        }
    }

    /// One more local account with the next identifier keeps the state valid.
    pub proof fn lemma_with_new_local_user(self, user: DbLocalUser)
        requires
            self.valid(),
            user.id.0 == self.next_local_user,
            self.next_local_user < i32::MAX,
        ensures
            self.with_new_local_user(user).valid(),
    {
        reveal(StoreState::valid);
        let after = self.with_new_local_user(user);
        let n = self.local_users.len() as int;
        assert forall|i: int| 0 <= i < after.local_users.len() implies (
        #[trigger] after.local_users[i]).id.0 < after.next_local_user by {
            if i < n {
                assert(self.local_users[i].id.0 < self.next_local_user);
            }
        }
        assert forall|i: int, j: int| 0 <= i < j < after.local_users.len() implies (
        #[trigger] after.local_users[i]).id != (#[trigger] after.local_users[j]).id by {
            if j < n {
                assert(self.local_users[i].id != self.local_users[j].id);
            } else {
                assert(self.local_users[i].id.0 < self.next_local_user);
            }
        }
    }

    /// Setting the edge between a person and an instance keeps the state
    /// valid, and the edge is then found between the two.
    pub proof fn lemma_with_follow(self, edge: InstanceFollow)
        requires
            self.valid(),
        ensures
            self.with_follow(edge).valid(),
            self.with_follow(edge).follow_pos(edge.instance_id, edge.follower_id) is Some,
            self.with_follow(edge).follows[self.with_follow(edge).follow_pos(
                edge.instance_id,
                edge.follower_id,
            )->0] == edge,
    {
        reveal(StoreState::valid);
        let after = self.with_follow(edge);
        let n = self.follows.len() as int;
        match self.follow_pos(edge.instance_id, edge.follower_id) {
            Some(k) => {
                assert forall|i: int, j: int| 0 <= i < j < after.follows.len() implies !((
                #[trigger] after.follows[i]).instance_id == (
                #[trigger] after.follows[j]).instance_id && after.follows[i].follower_id
                    == after.follows[j].follower_id) by {
                    assert(!(self.follows[i].instance_id == self.follows[j].instance_id
                        && self.follows[i].follower_id == self.follows[j].follower_id));
                }
                assert(after.follows[k] == edge);
                after.lemma_follow_pos(k);
            },
            None => {
                assert forall|i: int, j: int| 0 <= i < j < after.follows.len() implies !((
                #[trigger] after.follows[i]).instance_id == (
                #[trigger] after.follows[j]).instance_id && after.follows[i].follower_id
                    == after.follows[j].follower_id) by {
                    if j < n {
                        assert(!(self.follows[i].instance_id == self.follows[j].instance_id
                            && self.follows[i].follower_id == self.follows[j].follower_id));
                    } else {
                        assert(!(self.follows[i].instance_id == edge.instance_id
                            && self.follows[i].follower_id == edge.follower_id));
                    }
                }
                assert(after.follows[n] == edge);
                after.lemma_follow_pos(n);
            },
        }
    }

    /// A new article that brings edits of its own keeps the state valid,
    /// where article and edits take the next identifiers.
    pub proof fn lemma_with_new_history(self, article: DbArticle, edits: Seq<DbEdit>)
        requires
            self.valid(),
            article.id.0 == self.next_article,
            self.next_article < i32::MAX,
            self.next_edit + edits.len() <= i32::MAX,
            self.article_pos_by_ap_id(article.ap_id@) is None,
            forall|k: int|
                0 <= k < edits.len() ==> (#[trigger] edits[k]).article_id == article.id
                    && edits[k].id.0 < self.next_edit + edits.len(),
        ensures
            self.with_new_history(article, edits).valid(),
    {
        reveal(StoreState::valid);
        let after = self.with_new_history(article, edits);
        let n = self.articles.len() as int;
        assert forall|i: int, k: int|
            0 <= i < after.histories.len() && 0 <= k < after.histories[i].len() implies {
            &&& (#[trigger] after.histories[i][k]).article_id == after.articles[i].id
            &&& after.histories[i][k].id.0 < after.next_edit
        } by {
            if i < n {
                assert(after.histories[i] == self.histories[i]);
                assert(self.histories[i][k].article_id == self.articles[i].id);
            } else {
                assert(after.histories[i] == edits);
                assert(edits[k].article_id == article.id);
            }
        }
        assert forall|i: int| 0 <= i < after.articles.len() implies (
        #[trigger] after.articles[i]).id.0 < after.next_article by {
            if i < n {
                assert(self.articles[i].id.0 < self.next_article);
            }
        }
        assert forall|i: int, j: int| 0 <= i < j < after.articles.len() implies (
        #[trigger] after.articles[i]).id != (#[trigger] after.articles[j]).id by {
            if j < n {
                assert(self.articles[i].id != self.articles[j].id);
            } else {
                assert(self.articles[i].id.0 < self.next_article);
            }
        }
        assert forall|i: int, j: int| 0 <= i < j < after.articles.len() implies (
        #[trigger] after.articles[i]).ap_id@ != (#[trigger] after.articles[j]).ap_id@ by {
            if j < n {
                assert(self.articles[i].ap_id@ != self.articles[j].ap_id@);
            } else {
                assert(self.articles[i].ap_id@ != article.ap_id@);
            }
        }
    }

    /// In a valid state the next identifiers are positive numbers that fit.
    pub proof fn lemma_counters(self)
        requires
            self.valid(),
        ensures
            0 < self.next_article <= i32::MAX,
            0 < self.next_edit <= i32::MAX,
            0 < self.next_conflict <= i32::MAX,
            0 < self.next_instance <= i32::MAX,
            0 < self.next_person <= i32::MAX,
            0 < self.next_local_user <= i32::MAX,
            self.histories.len() == self.articles.len(),
    {
        reveal(StoreState::valid);
    }

    /// An edit in the place of another edit of the same article, under the
    /// other's identity, keeps the state valid.
    pub proof fn lemma_with_replaced_edit(self, i: int, k: int, edit: DbEdit)
        requires
            self.valid(),
            0 <= i < self.articles.len(),
            0 <= k < self.histories[i].len(),
            edit.article_id == self.articles[i].id,
            edit.id == self.histories[i][k].id,
        ensures
            self.with_replaced_edit(i, k, edit).valid(),
    {
        reveal(StoreState::valid);
        let after = self.with_replaced_edit(i, k, edit);
        assert forall|j: int, m: int|
            0 <= j < after.histories.len() && 0 <= m < after.histories[j].len() implies {
            &&& (#[trigger] after.histories[j][m]).article_id == after.articles[j].id
            &&& after.histories[j][m].id.0 < after.next_edit
        } by {
            if j == i {
                if m == k {
                    assert(self.histories[i][k].id.0 < self.next_edit);
                } else {
                    assert(after.histories[j][m] == self.histories[i][m]);
                    assert(self.histories[i][m].article_id == self.articles[i].id);
                }
            } else {
                assert(after.histories[j] == self.histories[j]);
                assert(self.histories[j][m].article_id == self.articles[j].id);
            }
        }
    }

    /// Without one of its articles the state stays valid.
    pub proof fn lemma_with_article_deleted(self, i: int)
        requires
            self.valid(),
            0 <= i < self.articles.len(),
        ensures
            self.with_article_deleted(i).valid(),
    {
        reveal(StoreState::valid);
        let after = self.with_article_deleted(i);
        let id = self.articles[i].id;
        let shifted = |j: int|
            if j < i {
                j
            } else {
                j + 1
            };
        assert forall|j: int, k: int|
            0 <= j < after.histories.len() && 0 <= k < after.histories[j].len() implies {
            &&& (#[trigger] after.histories[j][k]).article_id == after.articles[j].id
            &&& after.histories[j][k].id.0 < after.next_edit
        } by {
            assert(after.histories[j] == self.histories[shifted(j)]);
            assert(self.histories[shifted(j)][k].article_id == self.articles[shifted(j)].id);
        }
        assert forall|j: int| 0 <= j < after.articles.len() implies (
        #[trigger] after.articles[j]).id.0 < after.next_article by {
            assert(self.articles[shifted(j)].id.0 < self.next_article);
        }
        assert forall|j: int, k: int| 0 <= j < k < after.articles.len() implies (
        #[trigger] after.articles[j]).id != (#[trigger] after.articles[k]).id by {
            assert(self.articles[shifted(j)].id != self.articles[shifted(k)].id);
        }
        assert forall|j: int, k: int| 0 <= j < k < after.articles.len() implies (
        #[trigger] after.articles[j]).ap_id@ != (#[trigger] after.articles[k]).ap_id@ by {
            assert(self.articles[shifted(j)].ap_id@ != self.articles[shifted(k)].ap_id@);
        }
        lemma_conflicts_kept_distinct(self.conflicts, id, self.conflicts.len() as int);
        assert forall|j: int| 0 <= j < after.conflicts.len() implies (
        #[trigger] after.conflicts[j]).id.0 < after.next_conflict by {
            let o = lemma_conflicts_kept(self.conflicts, id, self.conflicts.len() as int, j);
            assert(self.conflicts[o].id.0 < self.next_conflict);
        }
    }

    /// Another row for an article, with the text that the article had, keeps
    /// the articles consistent.
    pub proof fn lemma_with_article_consistent(self, i: int, article: DbArticle)
        requires
            self.all_consistent(),
            0 <= i < self.articles.len(),
            article.text@ == self.articles[i].text@,
        ensures
            self.with_article(i, article).all_consistent(),
    {
        let after = self.with_article(i, article);
        assert forall|j: int| 0 <= j < after.articles.len() implies consistent(
            (#[trigger] after.articles[j]).text@,
            after.histories[j],
        ) by {
            assert(consistent(self.articles[j].text@, self.histories[j]));
        }
    }

    /// Without one of its articles the state stays consistent.
    pub proof fn lemma_with_article_deleted_consistent(self, i: int)
        requires
            self.all_consistent(),
            self.histories.len() == self.articles.len(),
            0 <= i < self.articles.len(),
        ensures
            self.with_article_deleted(i).all_consistent(),
    {
        let after = self.with_article_deleted(i);
        assert forall|j: int| 0 <= j < after.articles.len() implies consistent(
            (#[trigger] after.articles[j]).text@,
            after.histories[j],
        ) by {
            if j < i {
                assert(consistent(self.articles[j].text@, self.histories[j]));
            } else {
                assert(consistent(
                    self.articles[j + 1].text@,
                    self.histories[j + 1],
                ));
            }
        }
    }

    /// One more article whose text is what its edits replay to keeps the
    /// articles consistent.
    pub proof fn lemma_with_new_history_consistent(self, article: DbArticle, edits: Seq<DbEdit>)
        requires
            self.all_consistent(),
            self.histories.len() == self.articles.len(),
            consistent(article.text@, edits),
        ensures
            self.with_new_history(article, edits).all_consistent(),
    {
        let after = self.with_new_history(article, edits);
        assert forall|j: int| 0 <= j < after.articles.len() implies consistent(
            (#[trigger] after.articles[j]).text@,
            after.histories[j],
        ) by {
            if j < self.articles.len() {
                assert(consistent(self.articles[j].text@, self.histories[j]));
            }
        }
    }

    /// In a valid state the article with a given id stands at one position only.
    pub proof fn lemma_article_pos(self, i: int)
        requires
            self.valid(),
            0 <= i < self.articles.len(),
        ensures
            self.article_pos(self.articles[i].id) == Some(i),
            self.article_pos_by_ap_id(self.articles[i].ap_id@) == Some(i),
    {
        reveal(StoreState::valid);
        let id = self.articles[i].id;
        let j = choose|j: int| 0 <= j < self.articles.len() && self.articles[j].id == id;
        assert(j == i) by {
            if j < i {
                assert(self.articles[j].id != self.articles[i].id);
            } else if i < j {
                assert(self.articles[i].id != self.articles[j].id);
            }
        }
        let ap_id = self.articles[i].ap_id@;
        let k = choose|k: int| 0 <= k < self.articles.len() && self.articles[k].ap_id@ == ap_id;
        assert(k == i) by {
            if k < i {
                assert(self.articles[k].ap_id@ != self.articles[i].ap_id@);
            } else if i < k {
                assert(self.articles[i].ap_id@ != self.articles[k].ap_id@);
            }
        }
    }

    /// In a valid state the conflict with a given id stands at one position only.
    pub proof fn lemma_conflict_pos(self, i: int)
        requires
            self.valid(),
            0 <= i < self.conflicts.len(),
        ensures
            self.conflict_pos(self.conflicts[i].id) == Some(i),
    {
        reveal(StoreState::valid);
        let id = self.conflicts[i].id;
        let j = choose|j: int| 0 <= j < self.conflicts.len() && self.conflicts[j].id == id;
        assert(j == i) by {
            if j < i {
                assert(self.conflicts[j].id != self.conflicts[i].id);
            } else if i < j {
                assert(self.conflicts[i].id != self.conflicts[j].id);
            }
        }
    }

    /// In a valid state the instance with a given id stands at one position only.
    pub proof fn lemma_instance_pos(self, i: int)
        requires
            self.valid(),
            0 <= i < self.instances.len(),
        ensures
            self.instance_pos(self.instances[i].id) == Some(i),
            self.instance_pos_by_ap_id(self.instances[i].ap_id@) == Some(i),
    {
        reveal(StoreState::valid);
        let id = self.instances[i].id;
        let j = choose|j: int| 0 <= j < self.instances.len() && self.instances[j].id == id;
        assert(j == i) by {
            if j < i {
                assert(self.instances[j].id != self.instances[i].id);
            } else if i < j {
                assert(self.instances[i].id != self.instances[j].id);
            }
        }
        let ap_id = self.instances[i].ap_id@;
        let k = choose|k: int| 0 <= k < self.instances.len() && self.instances[k].ap_id@ == ap_id;
        assert(k == i) by {
            if k < i {
                assert(self.instances[k].ap_id@ != self.instances[i].ap_id@);
            } else if i < k {
                assert(self.instances[i].ap_id@ != self.instances[k].ap_id@);
            }
        }
    }

    /// In a valid state the person with a given id stands at one position only.
    pub proof fn lemma_person_pos(self, i: int)
        requires
            self.valid(),
            0 <= i < self.persons.len(),
        ensures
            self.person_pos(self.persons[i].id) == Some(i),
            self.person_pos_by_ap_id(self.persons[i].ap_id@) == Some(i),
    {
        reveal(StoreState::valid);
        let id = self.persons[i].id;
        let j = choose|j: int| 0 <= j < self.persons.len() && self.persons[j].id == id;
        assert(j == i) by {
            if j < i {
                assert(self.persons[j].id != self.persons[i].id);
            } else if i < j {
                assert(self.persons[i].id != self.persons[j].id);
            }
        }
        let ap_id = self.persons[i].ap_id@;
        let k = choose|k: int| 0 <= k < self.persons.len() && self.persons[k].ap_id@ == ap_id;
        assert(k == i) by {
            if k < i {
                assert(self.persons[k].ap_id@ != self.persons[i].ap_id@);
            } else if i < k {
                assert(self.persons[i].ap_id@ != self.persons[k].ap_id@);
            }
        }
    }

    /// In a valid state the edge between a person and an instance stands at one
    /// position only.
    pub proof fn lemma_follow_pos(self, i: int)
        requires
            self.valid(),
            0 <= i < self.follows.len(),
        ensures
            self.follow_pos(self.follows[i].instance_id, self.follows[i].follower_id) == Some(i),
    {
        reveal(StoreState::valid);
        let instance = self.follows[i].instance_id;
        let follower = self.follows[i].follower_id;
        let j = choose|j: int|
            0 <= j < self.follows.len() && self.follows[j].instance_id == instance
                && self.follows[j].follower_id == follower;
        assert(j == i) by {
            if j < i {
                assert(!(self.follows[j].instance_id == self.follows[i].instance_id
                    && self.follows[j].follower_id == self.follows[i].follower_id));
            } else if i < j {
                assert(!(self.follows[i].instance_id == self.follows[j].instance_id
                    && self.follows[i].follower_id == self.follows[j].follower_id));
            }
        }
    }
}

impl Store {
    /// What the store holds.
    pub open(crate) spec fn state(&self) -> StoreState {
        StoreState {
            articles: Seq::new(self.rows@.len(), |i: int| self.rows@[i].article),
            histories: Seq::new(self.rows@.len(), |i: int| self.rows@[i].edits@),
            conflicts: self.conflicts@,
            instances: self.instances@,
            persons: self.persons@,
            local_users: self.local_users@,
            follows: self.follows@,
            next_article: self.next_article as int,
            next_edit: self.next_edit as int,
            next_conflict: self.next_conflict as int,
            next_instance: self.next_instance as int,
            next_person: self.next_person as int,
            next_local_user: self.next_local_user as int,
        }
    }

    /// The store's invariant. Every operation of the library keeps it.
    pub open spec fn wf(&self) -> bool {
        self.state().valid()
    }

    /// A store without anything in it.
    pub fn new() -> (store: Store)
        ensures
            store.wf(),
            store.state() == StoreState::empty(),
            store.state().all_consistent(),
    {
        let store = Store {
            rows: Vec::new(),
            conflicts: Vec::new(),
            instances: Vec::new(),
            persons: Vec::new(),
            local_users: Vec::new(),
            follows: Vec::new(),
            next_article: 1,
            next_edit: 1,
            next_conflict: 1,
            next_instance: 1,
            next_person: 1,
            next_local_user: 1,
        };
        proof {
            reveal(StoreState::valid);
        }
        assert(store.state().articles =~= Seq::<DbArticle>::empty());
        assert(store.state().histories =~= Seq::<Seq<DbEdit>>::empty());
        store
    }

    /// Position of the article with the given id.
    pub(crate) fn find_article(&self, id: ArticleId) -> (pos: Option<usize>)
        requires
            self.wf(),
        ensures
            match pos {
                Some(i) => self.state().article_pos(id) == Some(i as int) && i < self.rows.len(),
                None => self.state().article_pos(id) is None,
            },
    {
        let mut i: usize = 0;
        while i < self.rows.len()
            invariant
                i <= self.rows.len(),
                self.wf(),
                forall|k: int| 0 <= k < i ==> self.state().articles[k].id != id,
            decreases self.rows.len() - i,
        {
            if self.rows[i].article.id == id {
                proof {
                    self.state().lemma_article_pos(i as int);
                }
                return Some(i);
            }
            i += 1;
        }
        None
    }

    /// Position of the article with the given federation identifier.
    pub(crate) fn find_article_by_ap_id(&self, ap_id: &str) -> (pos: Option<usize>)
        requires
            self.wf(),
        ensures
            match pos {
                Some(i) => self.state().article_pos_by_ap_id(ap_id@) == Some(i as int) && i
                    < self.rows.len(),
                None => self.state().article_pos_by_ap_id(ap_id@) is None,
            },
    {
        let wanted = String::from_str(ap_id);
        let mut i: usize = 0;
        while i < self.rows.len()
            invariant
                i <= self.rows.len(),
                self.wf(),
                wanted@ == ap_id@,
                forall|k: int| 0 <= k < i ==> self.state().articles[k].ap_id@ != ap_id@,
            decreases self.rows.len() - i,
        {
            if self.rows[i].article.ap_id == wanted {
                proof {
                    self.state().lemma_article_pos(i as int);
                }
                return Some(i);
            }
            i += 1;
        }
        None
    }

    /// Position of the conflict with the given id.
    pub(crate) fn find_conflict(&self, id: ConflictId) -> (pos: Option<usize>)
        requires
            self.wf(),
        ensures
            match pos {
                Some(i) => self.state().conflict_pos(id) == Some(i as int) && i
                    < self.conflicts.len(),
                None => self.state().conflict_pos(id) is None,
            },
    {
        let mut i: usize = 0;
        while i < self.conflicts.len()
            invariant
                i <= self.conflicts.len(),
                self.wf(),
                forall|k: int| 0 <= k < i ==> self.state().conflicts[k].id != id,
            decreases self.conflicts.len() - i,
        {
            if self.conflicts[i].id == id {
                proof {
                    self.state().lemma_conflict_pos(i as int);
                }
                return Some(i);
            }
            i += 1;
        }
        None
    }

    /// Position of the instance with the given id.
    pub(crate) fn find_instance(&self, id: InstanceId) -> (pos: Option<usize>)
        requires
            self.wf(),
        ensures
            match pos {
                Some(i) => self.state().instance_pos(id) == Some(i as int) && i
                    < self.instances.len(),
                None => self.state().instance_pos(id) is None,
            },
    {
        let mut i: usize = 0;
        while i < self.instances.len()
            invariant
                i <= self.instances.len(),
                self.wf(),
                forall|k: int| 0 <= k < i ==> self.state().instances[k].id != id,
            decreases self.instances.len() - i,
        {
            if self.instances[i].id == id {
                proof {
                    self.state().lemma_instance_pos(i as int);
                }
                return Some(i);
            }
            i += 1;
        }
        None
    }

    /// Position of the instance with the given federation identifier.
    pub(crate) fn find_instance_by_ap_id(&self, ap_id: &str) -> (pos: Option<usize>)
        requires
            self.wf(),
        ensures
            match pos {
                Some(i) => self.state().instance_pos_by_ap_id(ap_id@) == Some(i as int) && i
                    < self.instances.len(),
                None => self.state().instance_pos_by_ap_id(ap_id@) is None,
            },
    {
        let wanted = String::from_str(ap_id);
        let mut i: usize = 0;
        while i < self.instances.len()
            invariant
                i <= self.instances.len(),
                self.wf(),
                wanted@ == ap_id@,
                forall|k: int| 0 <= k < i ==> self.state().instances[k].ap_id@ != ap_id@,
            decreases self.instances.len() - i,
        {
            if self.instances[i].ap_id == wanted {
                proof {
                    self.state().lemma_instance_pos(i as int);
                }
                return Some(i);
            }
            i += 1;
        }
        None
    }

    /// Position of the person with the given id.
    pub(crate) fn find_person(&self, id: PersonId) -> (pos: Option<usize>)
        requires
            self.wf(),
        ensures
            match pos {
                Some(i) => self.state().person_pos(id) == Some(i as int) && i < self.persons.len(),
                None => self.state().person_pos(id) is None,
            },
    {
        let mut i: usize = 0;
        while i < self.persons.len()
            invariant
                i <= self.persons.len(),
                self.wf(),
                forall|k: int| 0 <= k < i ==> self.state().persons[k].id != id,
            decreases self.persons.len() - i,
        {
            if self.persons[i].id == id {
                proof {
                    self.state().lemma_person_pos(i as int);
                }
                return Some(i);
            }
            i += 1;
        }
        None
    }

    /// Position of the person with the given federation identifier.
    pub(crate) fn find_person_by_ap_id(&self, ap_id: &str) -> (pos: Option<usize>)
        requires
            self.wf(),
        ensures
            match pos {
                Some(i) => self.state().person_pos_by_ap_id(ap_id@) == Some(i as int) && i
                    < self.persons.len(),
                None => self.state().person_pos_by_ap_id(ap_id@) is None,
            },
    {
        let wanted = String::from_str(ap_id);
        let mut i: usize = 0;
        while i < self.persons.len()
            invariant
                i <= self.persons.len(),
                self.wf(),
                wanted@ == ap_id@,
                forall|k: int| 0 <= k < i ==> self.state().persons[k].ap_id@ != ap_id@,
            decreases self.persons.len() - i,
        {
            if self.persons[i].ap_id == wanted {
                proof {
                    self.state().lemma_person_pos(i as int);
                }
                return Some(i);
            }
            i += 1;
        }
        None
    }

    /// Position of the follow edge from `follower` to `instance`.
    pub(crate) fn find_follow(&self, instance: InstanceId, follower: PersonId) -> (pos: Option<
        usize,
    >)
        requires
            self.wf(),
        ensures
            match pos {
                Some(i) => self.state().follow_pos(instance, follower) == Some(i as int) && i
                    < self.follows.len(),
                None => self.state().follow_pos(instance, follower) is None,
            },
    {
        let mut i: usize = 0;
        while i < self.follows.len()
            invariant
                i <= self.follows.len(),
                self.wf(),
                forall|k: int|
                    0 <= k < i ==> !(self.state().follows[k].instance_id == instance
                        && self.state().follows[k].follower_id == follower),
            decreases self.follows.len() - i,
        {
            if self.follows[i].instance_id == instance && self.follows[i].follower_id == follower {
                proof {
                    self.state().lemma_follow_pos(i as int);
                }
                return Some(i);
            }
            i += 1;
        }
        None
    }

    /// Position of the first local instance.
    pub(crate) fn find_local_instance(&self) -> (pos: Option<usize>)
        requires
            self.wf(),
        ensures
            match pos {
                Some(i) => self.state().local_instance_pos() == Some(i as int) && i
                    < self.instances.len(),
                None => self.state().local_instance_pos() is None,
            },
    {
        let mut i: usize = 0;
        while i < self.instances.len()
            invariant
                i <= self.instances.len(),
                forall|k: int| 0 <= k < i ==> !(#[trigger] self.state().instances[k]).local,
            decreases self.instances.len() - i,
        {
            if self.instances[i].local {
                proof {
                    let s = self.state();
                    let c = choose|c: int|
                        0 <= c < s.instances.len() && s.instances[c].local && forall|j: int|
                            0 <= j < c ==> !(#[trigger] s.instances[j]).local;
                    assert(s.instances[i as int].local);
                    if c < i {
                        assert(!s.instances[c].local);
                    } else if i < c {
                        assert(!s.instances[i as int].local);
                    }
                }
                return Some(i);
            }
            i += 1;
        }
        None
    }

    /// Position of the local account of the given person.
    pub(crate) fn find_local_user(&self, person: PersonId) -> (pos: Option<usize>)
        requires
            self.wf(),
        ensures
            match pos {
                Some(i) => self.state().local_user_pos(person) == Some(i as int) && i
                    < self.local_users.len(),
                None => self.state().local_user_pos(person) is None,
            },
    {
        let mut i: usize = 0;
        while i < self.local_users.len()
            invariant
                i <= self.local_users.len(),
                forall|k: int|
                    0 <= k < i ==> (#[trigger] self.state().local_users[k]).person_id != person,
            decreases self.local_users.len() - i,
        {
            if self.local_users[i].person_id == person {
                proof {
                    let s = self.state();
                    let c = choose|c: int|
                        0 <= c < s.local_users.len() && s.local_users[c].person_id == person
                            && forall|j: int|
                            0 <= j < c ==> (#[trigger] s.local_users[j]).person_id != person;
                    assert(s.local_users[i as int].person_id == person);
                    if c < i {
                        assert(s.local_users[c].person_id != person);
                    } else if i < c {
                        assert(s.local_users[i as int].person_id != person);
                    }
                }
                return Some(i);
            }
            i += 1;
        }
        None
    }
}

} // verus!
