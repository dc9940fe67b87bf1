use crate::newtypes::{ArticleId, ConflictId, EditId, InstanceId, LocalUserId, PersonId, Timestamp};
use crate::version::EditVersion;
use vstd::prelude::*;

verus! {

/// Title of the article that every instance shows on its front page.
pub const MAIN_PAGE_NAME: &'static str = "Main_Page";

/// An article as the local store holds it. `text` caches the latest version.
#[derive(Debug, PartialEq)]
pub struct DbArticle {
    pub id: ArticleId,
    pub title: String,
    pub text: String,
    pub ap_id: String,
    pub instance_id: InstanceId,
    pub local: bool,
    pub protected: bool,
    pub approved: bool,
    pub published: Timestamp,
}

impl Clone for DbArticle {
    fn clone(&self) -> (copy: Self)
        ensures
            copy == *self,
    {
        DbArticle {
            id: self.id,
            title: self.title.clone(),
            text: self.text.clone(),
            ap_id: self.ap_id.clone(),
            instance_id: self.instance_id,
            local: self.local,
            protected: self.protected,
            approved: self.approved,
            published: self.published,
        }
    }
}

/// Represents a single change to an article.
#[derive(Debug, PartialEq)]
pub struct DbEdit {
    pub id: EditId,
    pub creator_id: PersonId,
    pub hash: EditVersion,
    pub ap_id: String,
    pub diff: String,
    pub summary: String,
    pub article_id: ArticleId,
    /// The first edit of an article has the sentinel version here.
    pub previous_version_id: EditVersion,
    pub published: Timestamp,
}

impl Clone for DbEdit {
    fn clone(&self) -> (copy: Self)
        ensures
            copy == *self,
    {
        DbEdit {
            id: self.id,
            creator_id: self.creator_id,
            hash: self.hash,
            ap_id: self.ap_id.clone(),
            diff: self.diff.clone(),
            summary: self.summary.clone(),
            article_id: self.article_id,
            previous_version_id: self.previous_version_id,
            published: self.published,
        }
    }
}

/// A copy of an optional text.
pub fn clone_text(text: &Option<String>) -> (copy: Option<String>)
    ensures
        copy == *text,
{
    match text {
        Some(t) => Some(t.clone()),
        None => None,
    }
}

/// A copy of a list of edits.
pub fn clone_edits(edits: &Vec<DbEdit>) -> (copy: Vec<DbEdit>)
    ensures
        copy@ == edits@,
{
    let mut copy: Vec<DbEdit> = Vec::new();
    let mut i: usize = 0;
    while i < edits.len()
        invariant
            i <= edits.len(),
            copy@ == edits@.take(i as int),
        decreases edits.len() - i,
    {
        copy.push(edits[i].clone());
        i += 1;
    }
    copy
}

/// An edit together with the person who made it.
#[derive(Debug, PartialEq)]
pub struct EditView {
    pub edit: DbEdit,
    pub creator: DbPerson,
}

/// An article with its latest version and its edits, oldest first.
#[derive(Debug, PartialEq)]
pub struct ArticleView {
    pub article: DbArticle,
    pub latest_version: EditVersion,
    pub edits: Vec<EditView>,
}

/// Federation related data of a local or remote user.
#[derive(Debug, PartialEq)]
pub struct DbPerson {
    pub id: PersonId,
    pub username: String,
    pub ap_id: String,
    pub inbox_url: String,
    pub public_key: String,
    /// Present for local persons only.
    pub private_key: Option<String>,
    pub last_refreshed_at: Timestamp,
    pub local: bool,
}

impl Clone for DbPerson {
    fn clone(&self) -> (copy: Self)
        ensures
            copy == *self,
    {
        DbPerson {
            id: self.id,
            username: self.username.clone(),
            ap_id: self.ap_id.clone(),
            inbox_url: self.inbox_url.clone(),
            public_key: self.public_key.clone(),
            private_key: clone_text(&self.private_key),
            last_refreshed_at: self.last_refreshed_at,
            local: self.local,
        }
    }
}

/// A user with an account registered on the local instance.
#[derive(Debug, PartialEq)]
pub struct DbLocalUser {
    pub id: LocalUserId,
    pub password_encrypted: String,
    pub person_id: PersonId,
    pub admin: bool,
}

impl Clone for DbLocalUser {
    fn clone(&self) -> (copy: Self)
        ensures
            copy == *self,
    {
        DbLocalUser {
            id: self.id,
            password_encrypted: self.password_encrypted.clone(),
            person_id: self.person_id,
            admin: self.admin,
        }
    }
}

/// A federation node, local or remote.
#[derive(Debug, PartialEq)]
pub struct DbInstance {
    pub id: InstanceId,
    pub domain: String,
    pub ap_id: String,
    pub topic: Option<String>,
    pub name: Option<String>,
    pub articles_url: Option<String>,
    pub instances_url: Option<String>,
    pub inbox_url: String,
    pub public_key: String,
    /// Present for the local instance only.
    pub private_key: Option<String>,
    pub last_refreshed_at: Timestamp,
    pub local: bool,
}

impl Clone for DbInstance {
    fn clone(&self) -> (copy: Self)
        ensures
            copy == *self,
    {
        DbInstance {
            id: self.id,
            domain: self.domain.clone(),
            ap_id: self.ap_id.clone(),
            topic: clone_text(&self.topic),
            name: clone_text(&self.name),
            articles_url: clone_text(&self.articles_url),
            instances_url: clone_text(&self.instances_url),
            inbox_url: self.inbox_url.clone(),
            public_key: self.public_key.clone(),
            private_key: clone_text(&self.private_key),
            last_refreshed_at: self.last_refreshed_at,
            local: self.local,
        }
    }
}

/// The edge from a person to an instance that the person follows. It is
/// pending while the follow request has not been accepted.
#[derive(Clone, Copy, Debug, PartialEq, Eq, Structural)]
pub struct InstanceFollow {
    pub instance_id: InstanceId,
    pub follower_id: PersonId,
    pub pending: bool,
}

/// An instance together with the persons who follow it.
#[derive(Debug, PartialEq)]
pub struct InstanceView {
    pub instance: DbInstance,
    pub followers: Vec<DbPerson>,
}

/// A local account with its person and the instances that the person follows.
#[derive(Debug, PartialEq)]
pub struct LocalUserView {
    pub person: DbPerson,
    pub local_user: DbLocalUser,
    pub following: Vec<DbInstance>,
}

/// Options that every client of the instance may read.
#[derive(Clone, Copy, Debug, PartialEq, Eq, Structural)]
pub struct SharedConfig {
    /// Whether users can create new accounts.
    pub registration_open: bool,
    /// Whether admins need to approve new articles.
    pub article_approval: bool,
}

impl Default for SharedConfig {
    fn default() -> (config: Self)
        ensures
            config.registration_open,
            !config.article_approval,
    {
        SharedConfig { registration_open: true, article_approval: false }
    }
}

/// What a client learns of the site: who is logged in, and the options.
#[derive(Debug, PartialEq)]
pub struct SiteView {
    pub my_profile: Option<LocalUserView>,
    pub config: SharedConfig,
}

impl Default for SiteView {
    fn default() -> (site: Self)
        ensures
            site.my_profile is None,
            site.config.registration_open,
            !site.config.article_approval,
    {
        SiteView { my_profile: None, config: SharedConfig::default() }
    }
}

/// Selects an article by title (and domain, for a remote one) or by id.
#[derive(Debug, PartialEq)]
pub struct GetArticleForm {
    pub title: Option<String>,
    pub domain: Option<String>,
    pub id: Option<ArticleId>,
}

/// Selects the articles to list.
#[derive(Clone, Copy, Debug, PartialEq)]
pub struct ListArticlesForm {
    pub only_local: Option<bool>,
    pub instance_id: Option<InstanceId>,
}

#[derive(Debug, PartialEq)]
pub struct RegisterUserForm {
    pub username: String,
    pub password: String,
}

#[derive(Debug, PartialEq)]
pub struct LoginUserForm {
    pub username: String,
    pub password: String,
}

#[derive(Debug, PartialEq)]
pub struct CreateArticleForm {
    pub title: String,
    pub text: String,
    pub summary: String,
}

#[derive(Debug, PartialEq)]
pub struct EditArticleForm {
    /// Id of the article to edit.
    pub article_id: ArticleId,
    /// Full, new text of the article. The diff against the previous version is
    /// made by the library, so that it can handle conflicts.
    pub new_text: String,
    /// What was changed.
    pub summary: String,
    /// The version that this edit is based on: the latest version of the
    /// article, or the previous version that a conflict names.
    pub previous_version_id: EditVersion,
    /// When resolving a conflict, its id, so that the conflict is removed.
    pub resolve_conflict_id: Option<ConflictId>,
}

impl EditArticleForm {
    /// The form with which a user submits a new text for an article that
    /// they have before them. Where the user resolves a conflict that was
    /// handed to them, the form names the conflict, so that it is removed,
    /// and is based on the version that the conflict says; else it is based
    /// on the latest version of the article as the user sees it.
    pub fn for_submission(
        article: &ArticleView,
        conflict: Option<&ApiConflict>,
        new_text: String,
        summary: String,
    ) -> (form: EditArticleForm)
        ensures
            form.article_id == article.article.id,
            form.new_text == new_text,
            form.summary == summary,
            form.previous_version_id == match conflict {
                Some(c) => c.previous_version_id,
                None => article.latest_version,
            },
            form.resolve_conflict_id == match conflict {
                Some(c) => Some(c.id),
                None => None,
            },
    {
        match conflict {
            Some(c) => EditArticleForm {
                article_id: article.article.id,
                new_text,
                summary,
                previous_version_id: c.previous_version_id,
                resolve_conflict_id: Some(c.id),
            },
            None => EditArticleForm {
                article_id: article.article.id,
                new_text,
                summary,
                previous_version_id: article.latest_version,
                resolve_conflict_id: None,
            },
        }
    }
}

#[derive(Clone, Copy, Debug, PartialEq)]
pub struct ProtectArticleForm {
    pub article_id: ArticleId,
    pub protected: bool,
}

#[derive(Debug, PartialEq)]
pub struct ForkArticleForm {
    pub article_id: ArticleId,
    pub new_title: String,
}

#[derive(Clone, Copy, Debug, PartialEq)]
pub struct ApproveArticleForm {
    pub article_id: ArticleId,
    pub approve: bool,
}

#[derive(Clone, Copy, Debug, PartialEq)]
pub struct DeleteConflictForm {
    pub conflict_id: ConflictId,
}

#[derive(Clone, Copy, Debug, PartialEq)]
pub struct GetInstance {
    pub id: Option<InstanceId>,
}

#[derive(Clone, Copy, Debug, PartialEq)]
pub struct FollowInstance {
    pub id: InstanceId,
}

#[derive(Debug, PartialEq)]
pub struct SearchArticleForm {
    pub query: String,
}

/// Names a remote object by its federation identifier.
#[derive(Debug, PartialEq)]
pub struct ResolveObject {
    pub id: String,
}

#[derive(Debug, PartialEq)]
pub struct GetUserForm {
    pub name: String,
    pub domain: Option<String>,
}

/// An edit conflict as it is shown to the user who has to resolve it.
#[derive(Debug, PartialEq)]
pub struct ApiConflict {
    pub id: ConflictId,
    pub hash: EditVersion,
    /// The merged text, with conflict markers around what could not be merged.
    pub three_way_merge: String,
    pub summary: String,
    pub article: DbArticle,
    /// The version that the resolving edit must name as its previous version.
    pub previous_version_id: EditVersion,
    pub published: Timestamp,
}

/// What a user is told about.
#[derive(Debug, PartialEq)]
pub enum Notification {
    EditConflict(ApiConflict),
    ArticleApprovalRequired(DbArticle),
}

impl Notification {
    /// When the thing that the notification is about was published.
    pub fn published(&self) -> (time: Timestamp)
        ensures
            time == match *self {
                Notification::EditConflict(conflict) => conflict.published,
                Notification::ArticleApprovalRequired(article) => article.published,
            },
    {
        match self {
            Notification::EditConflict(conflict) => conflict.published,
            Notification::ArticleApprovalRequired(article) => article.published,
        }
    }
}

} // verus!
