use vstd::prelude::*;

verus! {

/// Identity of an article in the local store.
#[derive(Clone, Copy, Debug, PartialEq, Eq, Structural, Hash)]
pub struct ArticleId(pub i32);

/// Identity of an edit in the local store.
#[derive(Clone, Copy, Debug, PartialEq, Eq, Structural, Hash)]
pub struct EditId(pub i32);

/// Identity of a queued edit conflict.
#[derive(Clone, Copy, Debug, PartialEq, Eq, Structural, Hash)]
pub struct ConflictId(pub i32);

/// Identity of an instance in the local store.
#[derive(Clone, Copy, Debug, PartialEq, Eq, Structural, Hash)]
pub struct InstanceId(pub i32);

/// Identity of a person in the local store.
#[derive(Clone, Copy, Debug, PartialEq, Eq, Structural, Hash)]
pub struct PersonId(pub i32);

/// Identity of a local account.
#[derive(Clone, Copy, Debug, PartialEq, Eq, Structural, Hash)]
pub struct LocalUserId(pub i32);

/// A point in time, in seconds since the Unix epoch.
#[derive(Clone, Copy, Debug, PartialEq, Eq, Structural, Hash)]
pub struct Timestamp(pub i64);

} // verus!
