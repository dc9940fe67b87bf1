use crate::common::DbLocalUser;
use crate::error::Error;
use crate::newtypes::{ArticleId, ConflictId, PersonId, Timestamp};
use crate::store::{Store, StoreState};
use crate::version::EditVersion;
use vstd::prelude::*;

verus! {

/// A local only object which represents a merge conflict. It is created when a
/// local user's edit conflicts with another concurrent edit.
#[derive(Debug, PartialEq)]
pub struct DbConflict {
    pub id: ConflictId,
    pub hash: EditVersion,
    pub diff: String,
    pub summary: String,
    pub creator_id: PersonId,
    pub article_id: ArticleId,
    pub previous_version_id: EditVersion,
    pub published: Timestamp,
}

impl Clone for DbConflict {
    fn clone(&self) -> (copy: Self)
        ensures
            copy == *self,
    {
        DbConflict {
            id: self.id,
            hash: self.hash,
            diff: self.diff.clone(),
            summary: self.summary.clone(),
            creator_id: self.creator_id,
            article_id: self.article_id,
            previous_version_id: self.previous_version_id,
            published: self.published,
        }
    }
}

/// What is known of a conflict before it is stored.
#[derive(Debug, PartialEq)]
pub struct DbConflictForm {
    pub hash: EditVersion,
    pub diff: String,
    pub summary: String,
    pub creator_id: PersonId,
    pub article_id: ArticleId,
    pub previous_version_id: EditVersion,
    pub published: Timestamp,
}

impl DbConflictForm {
    /// `conflict` holds what the form says.
    pub open spec fn describes(self, conflict: DbConflict) -> bool {
        &&& conflict.hash == self.hash
        &&& conflict.diff == self.diff
        &&& conflict.summary == self.summary
        &&& conflict.creator_id == self.creator_id
        &&& conflict.article_id == self.article_id
        &&& conflict.previous_version_id == self.previous_version_id
        &&& conflict.published == self.published
    }
}

/// Why the person `requester` cannot discard the conflict `id`, if they cannot.
pub open spec fn delete_refusal(s: StoreState, id: ConflictId, requester: PersonId) -> Option<
    Error,
> {
    match s.conflict_pos(id) {
        None => Some(Error::ConflictNotFound),
        Some(i) => if s.conflicts[i].creator_id != requester {
            Some(Error::NotCreator)
        } else {
            None
        },
    }
}

impl DbConflict {
    /// Stores a new conflict.
    pub fn create(form: DbConflictForm, store: &mut Store) -> (created: Result<DbConflict, Error>)
        requires
            old(store).wf(),
        ensures
            final(store).wf(),
            old(store).state().all_consistent() ==> final(store).state().all_consistent(),
            match created {
                Ok(conflict) => {
                    &&& old(store).state().next_conflict < i32::MAX
                    &&& form.describes(conflict)
                    &&& conflict.id.0 == old(store).state().next_conflict
                    &&& final(store).state() == old(store).state().with_new_conflict(conflict)
                },
                Err(e) => {
                    &&& e == Error::IdsExhausted
                    &&& old(store).state().next_conflict >= i32::MAX
                    &&& final(store).state() == old(store).state()
                },
            },
    {
        if store.next_conflict >= i32::MAX {
            return Err(Error::IdsExhausted);
        }
        let conflict = DbConflict {
            id: ConflictId(store.next_conflict),
            hash: form.hash,
            diff: form.diff,
            summary: form.summary,
            creator_id: form.creator_id,
            article_id: form.article_id,
            previous_version_id: form.previous_version_id,
            published: form.published,
        };
        let stored = conflict.clone();
        store.conflicts.push(conflict);
        store.next_conflict = store.next_conflict + 1;
        proof {
            old(store).state().lemma_with_new_conflict(stored);
        }
        Ok(stored)
    }

    /// The conflicts that wait for the given user, oldest first.
    pub fn list(local_user: &DbLocalUser, store: &Store) -> (conflicts: Vec<DbConflict>)
        requires
            store.wf(),
        ensures
            conflicts@ == store.state().conflicts_of(local_user.person_id),
    {
        let ghost wanted = |c: DbConflict| c.creator_id == local_user.person_id;
        let mut out: Vec<DbConflict> = Vec::new();
        let mut i: usize = 0;
        proof {
            assert(store.conflicts@.take(0) =~= Seq::<DbConflict>::empty());
        }
        while i < store.conflicts.len()
            invariant
                i <= store.conflicts.len(),
                wanted == |c: DbConflict| c.creator_id == local_user.person_id,
                out@ == store.conflicts@.take(i as int).filter(wanted),
            decreases store.conflicts.len() - i,
        {
            proof {
                assert(store.conflicts@.take(i + 1) =~= store.conflicts@.take(i as int).push(
                    store.conflicts@[i as int],
                ));
                store.conflicts@.take(i as int).lemma_filter_push(
                    store.conflicts@[i as int],
                    wanted,
                );
            }
            if store.conflicts[i].creator_id == local_user.person_id {
                out.push(store.conflicts[i].clone());
            }
            i += 1;
        }
        proof {
            assert(store.conflicts@.take(i as int) =~= store.conflicts@);
        }
        out
    }

    /// Discards a conflict. Only the person who created it may do so.
    pub fn delete(id: ConflictId, requester: PersonId, store: &mut Store) -> (deleted: Result<
        DbConflict,
        Error,
    >)
        requires
            old(store).wf(),
        ensures
            final(store).wf(),
            old(store).state().all_consistent() ==> final(store).state().all_consistent(),
            match deleted {
                Ok(conflict) => {
                    let before = old(store).state();
                    &&& delete_refusal(before, id, requester) is None
                    &&& conflict == before.conflicts[before.conflict_pos(id)->0]
                    &&& final(store).state() == before.without_conflict(before.conflict_pos(id)->0)
                },
                Err(e) => {
                    &&& delete_refusal(old(store).state(), id, requester) == Some(e)
                    &&& final(store).state() == old(store).state()
                },
            },
    {
        match store.find_conflict(id) {
            None => Err(Error::ConflictNotFound),
            Some(i) => {
                if store.conflicts[i].creator_id != requester {
                    return Err(Error::NotCreator);
                }
                let conflict = store.conflicts.remove(i);
                proof {
                    old(store).state().lemma_without_conflict(i as int);
                }
                Ok(conflict)
            },
        }
    }
}

} // verus!
