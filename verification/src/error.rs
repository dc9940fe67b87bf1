use vstd::prelude::*;

verus! {

/// Why an operation of the library was refused.
#[derive(Clone, Copy, Debug, PartialEq, Eq, Structural, Hash)]
pub enum Error {
    /// An article title must not be empty.
    EmptyTitle,
    /// An article title must not contain `/`.
    InvalidTitle,
    /// Every edit needs a summary.
    EmptySummary,
    /// The submitted text equals the article's current text.
    NoChanges,
    /// The text links to the local instance through its own domain.
    LocalLink,
    /// The text could not be brought into its canonical Markdown form.
    FormatFailed,
    /// A search needs a query.
    EmptyQuery,
    /// A lookup was given both or neither of two exclusive keys.
    InvalidQuery,
    /// An article with this federation identifier already exists.
    DuplicateArticle,
    /// A person with this federation identifier already exists.
    DuplicateUser,
    /// No such article.
    ArticleNotFound,
    /// The version is not on the article's edit chain, or the chain is broken before it.
    VersionNotFound,
    /// No such conflict.
    ConflictNotFound,
    /// No such instance.
    InstanceNotFound,
    /// No such person.
    PersonNotFound,
    /// No actor with this federation identifier lives on this instance.
    ActorNotFound,
    /// The article is protected and the editor is no admin.
    ArticleProtected,
    /// The action is reserved to admins.
    NotAdmin,
    /// Only its creator may discard a conflict.
    NotCreator,
    /// New accounts cannot be registered.
    RegistrationClosed,
    /// A fetched document claims an identifier on another domain than it came from.
    DomainMismatch,
    /// An activity addresses an object other than the one expected.
    UrlMismatch,
    /// A text is no valid URL.
    InvalidUrl,
    /// An edit names a previous version that is not the article's latest.
    StaleVersion,
    /// A diff does not parse, or does not apply to the text it is meant for.
    PatchFailed,
    /// The store has run out of identifiers.
    IdsExhausted,
    /// The actor that is to send an activity has no private key to sign it
    /// with: only local actors have one.
    NoPrivateKey,
}

/// The classes of failure that callers tell apart.
#[derive(Clone, Copy, Debug, PartialEq, Eq, Structural, Hash)]
pub enum ErrorKind {
    Validation,
    NotFound,
    Authorization,
    FederationVerifyFailed,
    Integrity,
}

impl Error {
    /// The class of a failure.
    pub open spec fn spec_kind(self) -> ErrorKind {
        match self {
            Error::EmptyTitle
            | Error::InvalidTitle
            | Error::EmptySummary
            | Error::NoChanges
            | Error::LocalLink
            | Error::FormatFailed
            | Error::EmptyQuery
            | Error::InvalidQuery
            | Error::DuplicateArticle
            | Error::DuplicateUser
            | Error::InvalidUrl => ErrorKind::Validation,
            Error::ArticleNotFound
            | Error::VersionNotFound
            | Error::ConflictNotFound
            | Error::InstanceNotFound
            | Error::PersonNotFound
            | Error::ActorNotFound => ErrorKind::NotFound,
            Error::ArticleProtected
            | Error::NotAdmin
            | Error::NotCreator
            | Error::RegistrationClosed => ErrorKind::Authorization,
            Error::DomainMismatch | Error::UrlMismatch => ErrorKind::FederationVerifyFailed,
            Error::StaleVersion
            | Error::PatchFailed
            | Error::IdsExhausted
            | Error::NoPrivateKey => ErrorKind::Integrity,
        }
    }

    /// The class of a failure.
    #[verifier::when_used_as_spec(spec_kind)]
    pub fn kind(self) -> (kind: ErrorKind)
        ensures
            kind == self.spec_kind(),
    {
        match self {
            Error::EmptyTitle
            | Error::InvalidTitle
            | Error::EmptySummary
            | Error::NoChanges
            | Error::LocalLink
            | Error::FormatFailed
            | Error::EmptyQuery
            | Error::InvalidQuery
            | Error::DuplicateArticle
            | Error::DuplicateUser
            | Error::InvalidUrl => ErrorKind::Validation,
            Error::ArticleNotFound
            | Error::VersionNotFound
            | Error::ConflictNotFound
            | Error::InstanceNotFound
            | Error::PersonNotFound
            | Error::ActorNotFound => ErrorKind::NotFound,
            Error::ArticleProtected
            | Error::NotAdmin
            | Error::NotCreator
            | Error::RegistrationClosed => ErrorKind::Authorization,
            Error::DomainMismatch | Error::UrlMismatch => ErrorKind::FederationVerifyFailed,
            Error::StaleVersion
            | Error::PatchFailed
            | Error::IdsExhausted
            | Error::NoPrivateKey => ErrorKind::Integrity,
        }
    }
}

} // verus!
