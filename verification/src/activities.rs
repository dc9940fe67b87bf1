use crate::objects::{ApubArticle, ApubEdit};
use vstd::prelude::*;

verus! {

/// A person asks to follow an instance.
#[derive(Debug, PartialEq)]
pub struct Follow {
    pub actor: String,
    pub object: String,
    pub id: String,
}

/// An instance accepts a person's request to follow it.
#[derive(Debug, PartialEq)]
pub struct Accept {
    pub actor: String,
    pub object: Follow,
    pub id: String,
}

/// An instance tells of an article that was created on it.
#[derive(Debug, PartialEq)]
pub struct CreateArticle {
    pub actor: String,
    pub to: Vec<String>,
    pub object: ApubArticle,
    pub id: String,
}

/// The instance of origin tells of an edit that it has committed.
#[derive(Debug, PartialEq)]
pub struct UpdateLocalArticle {
    pub actor: String,
    pub to: Vec<String>,
    pub object: ApubArticle,
    pub id: String,
}

/// Another instance proposes an edit to the instance of origin.
#[derive(Debug, PartialEq)]
pub struct UpdateRemoteArticle {
    pub actor: String,
    pub to: Vec<String>,
    pub object: ApubEdit,
    pub id: String,
}

/// The instance of origin refuses a proposed edit.
#[derive(Debug, PartialEq)]
pub struct RejectEdit {
    pub actor: String,
    pub to: Vec<String>,
    pub object: ApubEdit,
    pub id: String,
}

/// The activities that an instance passes on to its own followers.
#[derive(Debug, PartialEq)]
pub enum AnnouncableActivities {
    CreateArticle(CreateArticle),
    UpdateLocalArticle(UpdateLocalArticle),
}

/// An instance passes an activity on to its followers.
#[derive(Debug, PartialEq)]
pub struct AnnounceActivity {
    pub actor: String,
    pub to: Vec<String>,
    pub object: AnnouncableActivities,
    pub id: String,
}

/// Every activity that an instance can receive.
#[derive(Debug, PartialEq)]
pub enum InboxActivities {
    Follow(Follow),
    Accept(Accept),
    CreateArticle(CreateArticle),
    UpdateLocalArticle(UpdateLocalArticle),
    UpdateRemoteArticle(UpdateRemoteArticle),
    RejectEdit(RejectEdit),
    AnnounceActivity(AnnounceActivity),
}

impl InboxActivities {
    /// The activity's own identifier.
    pub open spec fn spec_id(&self) -> String {
        match *self {
            InboxActivities::Follow(a) => a.id,
            InboxActivities::Accept(a) => a.id,
            InboxActivities::CreateArticle(a) => a.id,
            InboxActivities::UpdateLocalArticle(a) => a.id,
            InboxActivities::UpdateRemoteArticle(a) => a.id,
            InboxActivities::RejectEdit(a) => a.id,
            InboxActivities::AnnounceActivity(a) => a.id,
        }
    }

    /// The federation identifier of the actor that sent the activity.
    pub open spec fn spec_actor(&self) -> String {
        match *self {
            InboxActivities::Follow(a) => a.actor,
            InboxActivities::Accept(a) => a.actor,
            InboxActivities::CreateArticle(a) => a.actor,
            InboxActivities::UpdateLocalArticle(a) => a.actor,
            InboxActivities::UpdateRemoteArticle(a) => a.actor,
            InboxActivities::RejectEdit(a) => a.actor,
            InboxActivities::AnnounceActivity(a) => a.actor,
        }
    }

    /// The activity's own identifier.
    #[verifier::when_used_as_spec(spec_id)]
    pub fn id(&self) -> (id: String)
        ensures
            id == self.spec_id(),
    {
        match self {
            InboxActivities::Follow(a) => a.id.clone(),
            InboxActivities::Accept(a) => a.id.clone(),
            InboxActivities::CreateArticle(a) => a.id.clone(),
            InboxActivities::UpdateLocalArticle(a) => a.id.clone(),
            InboxActivities::UpdateRemoteArticle(a) => a.id.clone(),
            InboxActivities::RejectEdit(a) => a.id.clone(),
            InboxActivities::AnnounceActivity(a) => a.id.clone(),
        }
    }

    /// The federation identifier of the actor that sent the activity.
    #[verifier::when_used_as_spec(spec_actor)]
    pub fn actor(&self) -> (actor: String)
        ensures
            actor == self.spec_actor(),
    {
        match self {
            InboxActivities::Follow(a) => a.actor.clone(),
            InboxActivities::Accept(a) => a.actor.clone(),
            InboxActivities::CreateArticle(a) => a.actor.clone(),
            InboxActivities::UpdateLocalArticle(a) => a.actor.clone(),
            InboxActivities::UpdateRemoteArticle(a) => a.actor.clone(),
            InboxActivities::RejectEdit(a) => a.actor.clone(),
            InboxActivities::AnnounceActivity(a) => a.actor.clone(),
        }
    }
}

/// A copy of a list of texts.
pub fn clone_texts(list: &Vec<String>) -> (copy: Vec<String>)
    ensures
        copy@ == list@,
{
    let mut copy: Vec<String> = Vec::new();
    let mut i: usize = 0;
    while i < list.len()
        invariant
            i <= list.len(),
            copy@ == list@.take(i as int),
        decreases list.len() - i,
    {
        copy.push(list[i].clone());
        i += 1;
    }
    copy
}

impl Clone for Follow {
    fn clone(&self) -> (copy: Self)
        ensures
            copy == *self,
    {
        Follow { actor: self.actor.clone(), object: self.object.clone(), id: self.id.clone() }
    }
}

/// An activity on its way out: who signs it, and the inboxes that it goes to.
#[derive(Debug, PartialEq)]
pub struct Outbound {
    /// Federation identifier of the local actor that sends the activity.
    pub actor: String,
    /// The key to sign with.
    pub private_key: String,
    pub activity: InboxActivities,
    /// The inboxes to deliver to, each once.
    pub inboxes: Vec<String>,
}

/// The texts of a list of strings.
pub open spec fn texts(list: Seq<String>) -> Seq<Seq<char>> {
    Seq::new(list.len(), |i: int| list[i]@)
}

/// The first `n` of `list` without repetitions: of equal texts the first stays.
pub open spec fn distinct_upto(list: Seq<Seq<char>>, n: int) -> Seq<Seq<char>>
    decreases n,
{
    if n <= 0 {
        Seq::empty()
    } else if exists|j: int| 0 <= j < n - 1 && #[trigger] list[j] == list[n - 1] {
        distinct_upto(list, n - 1)
    } else {
        distinct_upto(list, n - 1).push(list[n - 1])
    }
}

/// `list` without repetitions: of equal texts the first stays.
#[verifier::opaque]
pub open spec fn distinct(list: Seq<Seq<char>>) -> Seq<Seq<char>> {
    distinct_upto(list, list.len() as int)
}

/// What `distinct_upto` keeps occurs among the first `n` of the list.
pub proof fn lemma_distinct_members(list: Seq<Seq<char>>, n: int, k: int)
    requires
        0 <= n <= list.len(),
        0 <= k < distinct_upto(list, n).len(),
    ensures
        exists|j: int| 0 <= j < n && #[trigger] list[j] == distinct_upto(list, n)[k],
    decreases n,
{
    if exists|j: int| 0 <= j < n - 1 && #[trigger] list[j] == list[n - 1] {
        lemma_distinct_members(list, n - 1, k);
    } else if k < distinct_upto(list, n - 1).len() {
        lemma_distinct_members(list, n - 1, k);
    } else {
        assert(list[n - 1] == distinct_upto(list, n)[k]);
    }
}

/// Every address of the list is kept by `distinct`.
pub proof fn lemma_distinct_keeps(list: Seq<Seq<char>>, n: int, j: int)
    requires
        0 <= j < n <= list.len(),
    ensures
        distinct_upto(list, n).contains(list[j]),
    decreases n,
{
    let rest = distinct_upto(list, n - 1);
    if j < n - 1 {
        lemma_distinct_keeps(list, n - 1, j);
        let w = choose|w: int| 0 <= w < rest.len() && rest[w] == list[j];
        assert(distinct_upto(list, n)[w] == list[j]);
    } else if exists|i: int| 0 <= i < n - 1 && #[trigger] list[i] == list[n - 1] {
        let i = choose|i: int| 0 <= i < n - 1 && #[trigger] list[i] == list[n - 1];
        lemma_distinct_keeps(list, n - 1, i);
    } else {
        assert(distinct_upto(list, n)[rest.len() as int] == list[j]);
    }
}

/// What `distinct_upto` keeps, it keeps once.
pub proof fn lemma_distinct_once(list: Seq<Seq<char>>, n: int)
    requires
        0 <= n <= list.len(),
    ensures
        forall|a: int, b: int|
            0 <= a < b < distinct_upto(list, n).len() ==> #[trigger] distinct_upto(list, n)[a]
                != #[trigger] distinct_upto(list, n)[b],
    decreases n,
{
    if n > 0 {
        lemma_distinct_once(list, n - 1);
        let rest = distinct_upto(list, n - 1);
        let all = distinct_upto(list, n);
        if !(exists|j: int| 0 <= j < n - 1 && #[trigger] list[j] == list[n - 1]) {
            assert forall|a: int, b: int| 0 <= a < b < all.len() implies #[trigger] all[a]
                != #[trigger] all[b] by {
                if b < rest.len() {
                    assert(all[a] == rest[a]);
                    assert(all[b] == rest[b]);
                } else {
                    lemma_distinct_members(list, n - 1, a);
                    let j = choose|j: int| 0 <= j < n - 1 && #[trigger] list[j] == rest[a];
                    assert(list[j] != list[n - 1]);
                }
            }
        }
    }
}

/// A list of addresses without repetitions: of equal ones the first stays.
pub fn without_repetitions(list: Vec<String>) -> (out: Vec<String>)
    ensures
        texts(out@) == distinct(texts(list@)),
{
    reveal(distinct);
    let mut out: Vec<String> = Vec::new();
    let mut n: usize = 0;
    while n < list.len()
        invariant
            n <= list.len(),
            texts(out@) == distinct_upto(texts(list@), n as int),
        decreases list.len() - n,
    {
        let mut seen = false;
        let mut j: usize = 0;
        while j < n
            invariant
                j <= n < list.len(),
                seen <==> exists|k: int|
                    0 <= k < j && #[trigger] texts(list@)[k] == texts(list@)[n as int],
            decreases n - j,
        {
            if list[j] == list[n] {
                seen = true;
                assert(texts(list@)[j as int] == texts(list@)[n as int]);
            }
            j += 1;
        }
        if !seen {
            let ghost before = texts(out@);
            out.push(list[n].clone());
            assert(texts(out@) =~= before.push(texts(list@)[n as int]));
        }
        n += 1;
    }
    out
}

} // verus!
