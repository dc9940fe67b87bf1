use crate::activities::{clone_texts, texts};
use crate::address::{
    domains_match, extract_domain, host_with_port, parse_url, url_host, url_normal_form, url_port,
    verify_domains_match,
};
use crate::common::{DbArticle, DbEdit, DbInstance, DbPerson};
use crate::error::Error;
use crate::instance::DbInstanceForm;
use crate::newtypes::Timestamp;
use crate::store::{Store, StoreState};
use crate::text::join;
use crate::user::DbPersonForm;
use crate::version::EditVersion;
use vstd::prelude::*;

verus! {

/// The address that stands for everyone.
pub const PUBLIC: &'static str = "https://www.w3.org/ns/activitystreams#Public";

/// The public key of an actor as it is published.
#[derive(Debug, PartialEq)]
pub struct PublicKey {
    pub id: String,
    pub owner: String,
    pub public_key_pem: String,
}

/// An article as other instances see it.
#[derive(Debug, PartialEq)]
pub struct ApubArticle {
    pub id: String,
    pub attributed_to: String,
    pub to: Vec<String>,
    pub edits: String,
    pub latest_version: EditVersion,
    pub content: String,
    pub name: String,
    pub protected: bool,
}

impl Clone for ApubArticle {
    fn clone(&self) -> (copy: Self)
        ensures
            copy.id == self.id,
            copy.attributed_to == self.attributed_to,
            copy.to@ == self.to@,
            copy.edits == self.edits,
            copy.latest_version == self.latest_version,
            copy.content == self.content,
            copy.name == self.name,
            copy.protected == self.protected,
    {
        ApubArticle {
            id: self.id.clone(),
            attributed_to: self.attributed_to.clone(),
            to: clone_texts(&self.to),
            edits: self.edits.clone(),
            latest_version: self.latest_version,
            content: self.content.clone(),
            name: self.name.clone(),
            protected: self.protected,
        }
    }
}

/// An edit as other instances see it.
#[derive(Debug, PartialEq)]
pub struct ApubEdit {
    pub id: String,
    pub content: String,
    pub summary: String,
    pub version: EditVersion,
    pub previous_version: EditVersion,
    pub object: String,
    pub attributed_to: String,
    pub published: Timestamp,
}

impl Clone for ApubEdit {
    fn clone(&self) -> (copy: Self)
        ensures
            copy == *self,
    {
        ApubEdit {
            id: self.id.clone(),
            content: self.content.clone(),
            summary: self.summary.clone(),
            version: self.version,
            previous_version: self.previous_version,
            object: self.object.clone(),
            attributed_to: self.attributed_to.clone(),
            published: self.published,
        }
    }
}

/// An instance as other instances see it.
#[derive(Debug, PartialEq)]
pub struct ApubInstance {
    pub id: String,
    pub name: Option<String>,
    pub content: Option<String>,
    pub articles: Option<String>,
    pub instances: Option<String>,
    pub inbox: String,
    pub public_key: PublicKey,
}

/// A person as other instances see it.
#[derive(Debug, PartialEq)]
pub struct ApubUser {
    pub id: String,
    pub preferred_username: String,
    pub inbox: String,
    pub public_key: PublicKey,
}

/// The articles of an instance as other instances see them.
#[derive(Debug, PartialEq)]
pub struct ArticleCollection {
    pub id: String,
    pub total_items: i32,
    pub items: Vec<ApubArticle>,
}

/// The edits of an article as other instances see them.
#[derive(Debug, PartialEq)]
pub struct ApubEditCollection {
    pub id: String,
    pub total_items: i32,
    pub items: Vec<ApubEdit>,
}

/// The text from which an actor's key identifier is made.
pub open spec fn key_id_text(ap_id: Seq<char>) -> Seq<char> {
    ap_id + "#main-key"@
}

/// The published form of an actor's public key.
pub fn public_key_of(ap_id: &str, public_key: &str) -> (key: PublicKey)
    ensures
        key.id@ == key_id_text(ap_id@),
        key.owner@ == ap_id@,
        key.public_key_pem@ == public_key@,
{
    PublicKey {
        id: join(ap_id, "#main-key"),
        owner: String::from_str(ap_id),
        public_key_pem: String::from_str(public_key),
    }
}

/// A count as it is published: the count itself, or the largest number that
/// the field holds where the count is larger.
pub open spec fn published_count(n: nat) -> int {
    if n <= i32::MAX {
        n as int
    } else {
        i32::MAX as int
    }
}

/// A count as it is published.
pub fn total_items_of(n: usize) -> (total: i32)
    ensures
        total == published_count(n as nat),
{
    if n <= 0x7fff_ffff {
        n as i32
    } else {
        i32::MAX
    }
}

impl DbInstance {
    /// The instance as other instances see it.
    pub fn into_json(self) -> (json: Result<ApubInstance, Error>)
        ensures
            match json {
                Ok(j) => {
                    &&& j.id == self.ap_id
                    &&& j.name == self.name
                    &&& j.content == self.topic
                    &&& j.articles == self.articles_url
                    &&& j.instances == self.instances_url
                    &&& url_normal_form(self.inbox_url@) == Some(j.inbox@)
                    &&& j.public_key.id@ == key_id_text(self.ap_id@)
                    &&& j.public_key.owner@ == self.ap_id@
                    &&& j.public_key.public_key_pem@ == self.public_key@
                },
                Err(e) => e == Error::InvalidUrl && url_normal_form(self.inbox_url@) is None,
            },
    {
        let inbox = match parse_url(self.inbox_url.as_str()) {
            None => {
                return Err(Error::InvalidUrl);
            },
            Some(url) => url,
        };
        let public_key = public_key_of(self.ap_id.as_str(), self.public_key.as_str());
        Ok(
            ApubInstance {
                id: self.ap_id,
                name: self.name,
                content: self.topic,
                articles: self.articles_url,
                instances: self.instances_url,
                inbox,
                public_key,
            },
        )
    }

    /// Checks that a fetched document names itself on the domain that it was
    /// fetched from.
    pub fn verify(json: &ApubInstance, expected_domain: &str) -> (checked: Result<(), Error>)
        ensures
            checked == domains_match(json.id@, expected_domain@),
    {
        verify_domains_match(json.id.as_str(), expected_domain)
    }

    /// What a document says of a remote instance, as a form to store.
    pub fn form_from_json(json: ApubInstance, now: Timestamp) -> (form: Result<
        DbInstanceForm,
        Error,
    >)
        ensures
            match form {
                Ok(f) => {
                    &&& url_host(json.id@) is Some
                    &&& f.domain@ == host_with_port(url_host(json.id@)->0, url_port(json.id@))
                    &&& f.ap_id == json.id
                    &&& f.topic == json.content
                    &&& f.name == json.name
                    &&& f.articles_url == json.articles
                    &&& f.instances_url == json.instances
                    &&& f.inbox_url == json.inbox
                    &&& f.public_key == json.public_key.public_key_pem
                    &&& f.private_key is None
                    &&& f.last_refreshed_at == now
                    &&& !f.local
                },
                Err(e) => e == Error::InvalidUrl && url_host(json.id@) is None,
            },
    {
        let domain = match extract_domain(json.id.as_str()) {
            Err(e) => {
                return Err(e);
            },
            Ok(d) => d,
        };
        Ok(
            DbInstanceForm {
                domain,
                ap_id: json.id,
                topic: json.content,
                name: json.name,
                articles_url: json.articles,
                instances_url: json.instances,
                inbox_url: json.inbox,
                public_key: json.public_key.public_key_pem,
                private_key: None,
                last_refreshed_at: now,
                local: false,
            },
        )
    }
}

impl DbPerson {
    /// The person as other instances see it.
    pub fn into_json(self) -> (json: Result<ApubUser, Error>)
        ensures
            match json {
                Ok(j) => {
                    &&& j.id == self.ap_id
                    &&& j.preferred_username == self.username
                    &&& url_normal_form(self.inbox_url@) == Some(j.inbox@)
                    &&& j.public_key.id@ == key_id_text(self.ap_id@)
                    &&& j.public_key.owner@ == self.ap_id@
                    &&& j.public_key.public_key_pem@ == self.public_key@
                },
                Err(e) => e == Error::InvalidUrl && url_normal_form(self.inbox_url@) is None,
            },
    {
        let inbox = match parse_url(self.inbox_url.as_str()) {
            None => {
                return Err(Error::InvalidUrl);
            },
            Some(url) => url,
        };
        let public_key = public_key_of(self.ap_id.as_str(), self.public_key.as_str());
        Ok(ApubUser { id: self.ap_id, preferred_username: self.username, inbox, public_key })
    }

    /// Checks that a fetched document names itself on the domain that it was
    /// fetched from.
    pub fn verify(json: &ApubUser, expected_domain: &str) -> (checked: Result<(), Error>)
        ensures
            checked == domains_match(json.id@, expected_domain@),
    {
        verify_domains_match(json.id.as_str(), expected_domain)
    }

    /// What a document says of a remote person, as a form to store.
    pub fn form_from_json(json: ApubUser, now: Timestamp) -> (form: DbPersonForm)
        ensures
            form.username == json.preferred_username,
            form.ap_id == json.id,
            form.inbox_url == json.inbox,
            form.public_key == json.public_key.public_key_pem,
            form.private_key is None,
            form.last_refreshed_at == now,
            !form.local,
    {
        DbPersonForm {
            username: json.preferred_username,
            ap_id: json.id,
            inbox_url: json.inbox,
            public_key: json.public_key.public_key_pem,
            private_key: None,
            last_refreshed_at: now,
            local: false,
        }
    }
}

/// Why an article cannot be shown to other instances, if it cannot.
pub open spec fn article_json_refusal(s: StoreState, article: DbArticle) -> Option<Error> {
    match s.instance_pos(article.instance_id) {
        None => Some(Error::InstanceNotFound),
        Some(i) => if url_normal_form(s.instances[i].ap_id@ + "/followers"@) is None
            || url_normal_form(article.ap_id@ + "/edits"@) is None {
            Some(Error::InvalidUrl)
        } else {
            None
        },
    }
}

/// `json` is the article as other instances see it: attributed to the
/// instance that owns it, addressed to everyone and to that instance's
/// followers, with the collection of its edits and its latest version.
#[verifier::opaque]
pub open spec fn article_json(s: StoreState, article: DbArticle, json: ApubArticle) -> bool {
    let owner = s.instances[s.instance_pos(article.instance_id)->0];
    &&& json.id == article.ap_id
    &&& json.attributed_to == owner.ap_id
    &&& texts(json.to@) == seq![PUBLIC@, url_normal_form(owner.ap_id@ + "/followers"@)->0]
    &&& url_normal_form(article.ap_id@ + "/edits"@) == Some(json.edits@)
    &&& json.latest_version@ == s.latest_version_of(article.id)
    &&& json.content == article.text
    &&& json.name == article.title
    &&& json.protected == article.protected
}

/// Why an edit cannot be shown to other instances, if it cannot.
pub open spec fn edit_json_refusal(s: StoreState, edit: DbEdit) -> Option<Error> {
    if s.article_pos(edit.article_id) is None {
        Some(Error::ArticleNotFound)
    } else if s.person_pos(edit.creator_id) is None {
        Some(Error::PersonNotFound)
    } else {
        None
    }
}

/// `json` is the edit as other instances see it: it names its article and
/// its creator by their federation identifiers.
#[verifier::opaque]
pub open spec fn edit_json(s: StoreState, edit: DbEdit, json: ApubEdit) -> bool {
    json == ApubEdit {
        id: edit.ap_id,
        content: edit.diff,
        summary: edit.summary,
        version: edit.hash,
        previous_version: edit.previous_version_id,
        object: s.articles[s.article_pos(edit.article_id)->0].ap_id,
        attributed_to: s.persons[s.person_pos(edit.creator_id)->0].ap_id,
        published: edit.published,
    }
}

impl DbArticle {
    /// The URL of the collection of the article's edits.
    pub fn edits_id(&self) -> (url: Result<String, Error>)
        ensures
            match url {
                Ok(u) => url_normal_form(self.ap_id@ + "/edits"@) == Some(u@),
                Err(e) => e == Error::InvalidUrl && url_normal_form(self.ap_id@ + "/edits"@)
                    is None,
            },
    {
        let raw = join(self.ap_id.as_str(), "/edits");
        match parse_url(raw.as_str()) {
            Some(u) => Ok(u),
            None => Err(Error::InvalidUrl),
        }
    }

    /// The article as other instances see it.
    pub fn into_json(self, store: &Store) -> (json: Result<ApubArticle, Error>)
        requires
            store.wf(),
        ensures
            match json {
                Ok(j) => article_json_refusal(store.state(), self) is None && article_json(
                    store.state(),
                    self,
                    j,
                ),
                Err(e) => article_json_refusal(store.state(), self) == Some(e),
            },
    {
        let owner = match store.find_instance(self.instance_id) {
            None => {
                return Err(Error::InstanceNotFound);
            },
            Some(i) => i,
        };
        let followers = match store.instances[owner].followers_url() {
            Err(e) => {
                return Err(e);
            },
            Ok(u) => u,
        };
        let edits = match self.edits_id() {
            Err(e) => {
                return Err(e);
            },
            Ok(u) => u,
        };
        let latest_version = self.latest_edit_version(store);
        proof {
            reveal(article_json);
        }
        let mut to: Vec<String> = Vec::new();
        to.push(String::from_str(PUBLIC));
        to.push(followers);
        assert(texts(to@) =~= seq![PUBLIC@, followers@]);
        Ok(
            ApubArticle {
                id: self.ap_id,
                attributed_to: store.instances[owner].ap_id.clone(),
                to,
                edits,
                latest_version,
                content: self.text,
                name: self.title,
                protected: self.protected,
            },
        )
    }

    /// Checks that a fetched document names itself on the domain that it was
    /// fetched from.
    pub fn verify(json: &ApubArticle, expected_domain: &str) -> (checked: Result<(), Error>)
        ensures
            checked == domains_match(json.id@, expected_domain@),
    {
        verify_domains_match(json.id.as_str(), expected_domain)
    }
}

impl DbEdit {
    /// The edit as other instances see it.
    pub fn into_json(self, store: &Store) -> (json: Result<ApubEdit, Error>)
        requires
            store.wf(),
        ensures
            match json {
                Ok(j) => edit_json_refusal(store.state(), self) is None && edit_json(
                    store.state(),
                    self,
                    j,
                ),
                Err(e) => edit_json_refusal(store.state(), self) == Some(e),
            },
    {
        let article = match store.find_article(self.article_id) {
            None => {
                return Err(Error::ArticleNotFound);
            },
            Some(i) => i,
        };
        let creator = match store.find_person(self.creator_id) {
            None => {
                return Err(Error::PersonNotFound);
            },
            Some(p) => p,
        };
        proof {
            reveal(edit_json);
        }
        Ok(
            ApubEdit {
                id: self.ap_id,
                content: self.diff,
                summary: self.summary,
                version: self.hash,
                previous_version: self.previous_version_id,
                object: store.rows[article].article.ap_id.clone(),
                attributed_to: store.persons[creator].ap_id.clone(),
                published: self.published,
            },
        )
    }

    /// Checks that a fetched document names itself on the domain that it was
    /// fetched from.
    pub fn verify(json: &ApubEdit, expected_domain: &str) -> (checked: Result<(), Error>)
        ensures
            checked == domains_match(json.id@, expected_domain@),
    {
        verify_domains_match(json.id.as_str(), expected_domain)
    }
}

} // verus!
