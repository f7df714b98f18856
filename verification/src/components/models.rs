//! The request bodies of the first form of the service, and what they create.
use vstd::prelude::*;
use crate::date::DateTime;
use crate::object_id::ObjectId;
use crate::util::{sanitize_tags, sanitized_tags, strings_view};

verus! {

/// The body of a request that creates a list.
#[derive(Debug, Clone, PartialEq, Eq)]
pub struct ListCreate {
    pub title: String,
    pub description: Option<String>,
    pub tags: Option<Vec<String>>,
}

/// A list of the first form.
#[derive(Debug, Clone, PartialEq, Eq)]
pub struct List {
    pub id: Option<ObjectId>,
    pub user: ObjectId,
    pub title: String,
    pub description: Option<String>,
    pub tags: Vec<String>,
    pub created_at: DateTime,
    pub updated_at: DateTime,
}

/// The body of a request that creates a user.
#[derive(Debug, Clone, PartialEq, Eq)]
pub struct UserCreate {
    pub email: String,
    /// The Auth0 id.
    pub external_id: String,
    pub name: String,
    pub nickname: String,
    pub picture: String,
}

/// A user of the first form.
#[derive(Debug, Clone, PartialEq, Eq)]
pub struct User {
    pub id: Option<ObjectId>,
    pub email: String,
    pub external_id: String,
    pub name: String,
    pub nickname: String,
    pub picture: String,
    pub created_at: DateTime,
    pub updated_at: DateTime,
}

/// A resource of the first form.
#[derive(Debug, Clone, PartialEq, Eq)]
pub struct Resource {
    pub id: Option<ObjectId>,
    pub user: ObjectId,
    pub list: ObjectId,
    pub url: String,
    pub title: String,
    pub description: Option<String>,
    pub created_at: DateTime,
    pub updated_at: DateTime,
    pub completed_at: Option<DateTime>,
}

/// The body of a request that creates a resource.
#[derive(Debug, Clone, PartialEq, Eq)]
pub struct ResourceCreate {
    pub list: ObjectId,
    pub url: String,
    pub title: String,
    pub description: Option<String>,
}

/// The fields of a resource that a request changes.
#[derive(Debug, Clone, PartialEq, Eq)]
pub struct ResourceUpdate {
    pub list: Option<ObjectId>,
    pub url: Option<String>,
    pub title: Option<String>,
    pub description: Option<String>,
    pub updated_at: Option<DateTime>,
}

/// The fields of a list that a request changes.
#[derive(Debug, Clone, PartialEq, Eq)]
pub struct ListUpdate {
    pub title: Option<String>,
    pub description: Option<String>,
    pub updated_at: Option<DateTime>,
}

/// A user profile as Auth0 sends it.
#[derive(Debug, Clone, PartialEq, Eq)]
pub struct Auth0User {
    pub email: String,
    pub user_id: String,
    pub name: String,
    pub nickname: String,
    pub picture: String,
}

impl List {
    /// The list a request creates for a user at time `now`, with its tags sanitized
    /// (none when the request gives none).
    pub fn new_at(body: ListCreate, user_id: ObjectId, now: DateTime) -> (r: List)
        ensures
            r.id is None,
            r.user == user_id,
            r.title == body.title,
            r.description == body.description,
            strings_view(r.tags@) == match body.tags {
                Some(t) => sanitized_tags(strings_view(t@)),
                None => Seq::empty(),
            },
            r.created_at == now && r.updated_at == now,
    {
        let tags = match body.tags {
            Some(t) => sanitize_tags(t),
            None => Vec::new(),
        };
        List {
            id: None,
            user: user_id,
            title: body.title,
            description: body.description,
            tags,
            created_at: now,
            updated_at: now,
        }
    }

    /// The list a request creates for a user now, with its tags sanitized.
    pub fn new(body: ListCreate, user_id: ObjectId) -> (r: List)
        ensures
            r.id is None,
            r.user == user_id,
            r.title == body.title,
            r.description == body.description,
            strings_view(r.tags@) == match body.tags {
                Some(t) => sanitized_tags(strings_view(t@)),
                None => Seq::empty(),
            },
            r.created_at == r.updated_at,
    {
        let now = crate::date::now();
        Self::new_at(body, user_id, now)
    }
}

impl User {
    /// The user a request creates at time `now`.
    pub fn new_at(body: UserCreate, now: DateTime) -> (r: User)
        ensures
            r == (User {
                id: None,
                email: body.email,
                external_id: body.external_id,
                name: body.name,
                nickname: body.nickname,
                picture: body.picture,
                created_at: now,
                updated_at: now,
            }),
    {
        User {
            id: None,
            email: body.email,
            external_id: body.external_id,
            name: body.name,
            nickname: body.nickname,
            picture: body.picture,
            created_at: now,
            updated_at: now,
        }
    }

    /// The user a request creates now.
    pub fn new(body: UserCreate) -> (r: User)
        ensures
            r.id is None && r.email == body.email && r.external_id == body.external_id
                && r.name == body.name && r.nickname == body.nickname && r.picture == body.picture
                && r.created_at == r.updated_at,
    {
        let now = crate::date::now();
        Self::new_at(body, now)
    }
}

impl Resource {
    /// The resource a request creates for a user at time `now`, not completed.
    pub fn new_at(body: ResourceCreate, user_id: ObjectId, now: DateTime) -> (r: Resource)
        ensures
            r == (Resource {
                id: None,
                user: user_id,
                list: body.list,
                url: body.url,
                title: body.title,
                description: body.description,
                created_at: now,
                updated_at: now,
                completed_at: None,
            }),
    {
        Resource {
            id: None,
            list: body.list,
            user: user_id,
            url: body.url,
            title: body.title,
            description: body.description,
            created_at: now,
            updated_at: now,
            completed_at: None,
        }
    }

    /// The resource a request creates for a user now, not completed.
    pub fn new(body: ResourceCreate, user_id: ObjectId) -> (r: Resource)
        ensures
            r.id is None && r.user == user_id && r.list == body.list && r.url == body.url
                && r.title == body.title && r.description == body.description
                && r.created_at == r.updated_at && r.completed_at is None,
    {
        let now = crate::date::now();
        Self::new_at(body, user_id, now)
    }
}

impl ResourceUpdate {
    /// Stamps an update with the current time; the other fields stay.
    pub fn new(update: &mut Self)
        ensures
            *final(update) == (ResourceUpdate { updated_at: final(update).updated_at, ..*old(update) }),
            final(update).updated_at is Some,
    {
        update.updated_at = Some(crate::date::now());
    }
}

impl ListUpdate {
    /// Stamps an update with the current time; the other fields stay.
    pub fn new(update: &mut Self)
        ensures
            *final(update) == (ListUpdate { updated_at: final(update).updated_at, ..*old(update) }),
            final(update).updated_at is Some,
    {
        update.updated_at = Some(crate::date::now());
    }
}

impl UserCreate {
    /// The user that an Auth0 profile creates.
    pub fn from_auth0(user: Auth0User) -> (r: UserCreate)
        ensures
            r == (UserCreate {
                email: user.email,
                external_id: user.user_id,
                name: user.name,
                nickname: user.nickname,
                picture: user.picture,
            }),
    {
        UserCreate {
            email: user.email,
            external_id: user.user_id,
            name: user.name,
            nickname: user.nickname,
            picture: user.picture,
        }
    }
}

} // verus!
