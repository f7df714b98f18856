//! Lists of resources, their forks, and the forms they take in requests and answers.
use vstd::prelude::*;
use crate::date::{self, DateTime};
use crate::object_id::ObjectId;
use crate::models::resource::{PrivateResource, Resource, tags_view};
use crate::util::{sanitize_tags, sanitized_tags};

verus! {

/// Where a forked list was copied from.
#[derive(Debug, Clone, Copy, PartialEq, Eq)]
pub struct Fork {
    pub list: ObjectId,
    pub user: ObjectId,
}

/// A list of resources owned by a user.
#[derive(Debug, Clone, PartialEq, Eq)]
pub struct List {
    pub id: Option<ObjectId>,
    pub user: ObjectId,
    pub title: String,
    pub slug: String,
    pub description: Option<String>,
    pub tags: Vec<String>,
    pub is_public: bool,
    pub fork: Option<Fork>,
    pub created_at: DateTime,
    pub updated_at: DateTime,
    pub last_activity_at: Option<DateTime>,
    pub archived_at: Option<DateTime>,
}

/// The fields of a list that a request changes.
#[derive(Debug, Clone, PartialEq, Eq)]
pub struct ListUpdate {
    pub title: Option<String>,
    pub description: Option<String>,
    pub tags: Option<Vec<String>>,
    pub is_public: Option<bool>,
    pub updated_at: Option<DateTime>,
}

/// Counts and pointers about the resources of a list.
#[derive(Debug, Clone, PartialEq, Eq)]
pub struct ListResourceMetadata {
    pub count: i64,
    pub completed_count: i64,
    pub last_completed_at: Option<DateTime>,
    pub next: Option<PrivateResource>,
}

/// A list as its owner sees it.
#[derive(Debug, Clone, PartialEq, Eq)]
pub struct PrivateList {
    pub id: ObjectId,
    pub user: ObjectId,
    pub title: String,
    pub slug: String,
    pub description: Option<String>,
    pub tags: Vec<String>,
    pub is_public: bool,
    pub created_at: DateTime,
    pub updated_at: DateTime,
    pub last_activity_at: Option<DateTime>,
    pub archived_at: Option<DateTime>,
    pub fork: Option<PublicFork>,
    pub forks_count: i64,
    pub subscriptions_count: i64,
    pub likes_count: i64,
    pub resource_metadata: ListResourceMetadata,
}

/// A list as others see it.
#[derive(Debug, Clone, PartialEq, Eq)]
pub struct PublicList {
    pub id: ObjectId,
    pub user: ObjectId,
    pub title: String,
    pub slug: String,
    pub description: Option<String>,
    pub tags: Vec<String>,
    pub fork: Option<PublicFork>,
    pub created_at: DateTime,
}

/// Where a forked list was copied from, as others see it.
#[derive(Debug, Clone, Copy, PartialEq, Eq)]
pub struct PublicFork {
    pub list: ObjectId,
    pub user: ObjectId,
}

impl ListUpdate {
    /// Prepares an update at time `now`: tags, when given, are sanitized, and the update
    /// time is set; the other fields stay.
    pub fn apply_at(update: &mut Self, now: DateTime)
        ensures
            final(update).title == old(update).title,
            final(update).description == old(update).description,
            final(update).is_public == old(update).is_public,
            tags_view(final(update).tags) == match tags_view(old(update).tags) {
                Some(t) => Some(sanitized_tags(t)),
                None => None::<Seq<Seq<char>>>,
            },
            final(update).updated_at == Some(now),
    {
        let tags = update.tags.take();
        match tags {
            Some(t) => {
                update.tags = Some(sanitize_tags(t));
            },
            None => {},
        }
        update.updated_at = Some(now);
    }

    /// Prepares an update: tags, when given, are sanitized, and the update time is set
    /// to now; the other fields stay.
    pub fn new(update: &mut Self)
        ensures
            final(update).title == old(update).title,
            final(update).description == old(update).description,
            final(update).is_public == old(update).is_public,
            tags_view(final(update).tags) == match tags_view(old(update).tags) {
                Some(t) => Some(sanitized_tags(t)),
                None => None::<Seq<Seq<char>>>,
            },
            final(update).updated_at is Some,
    {
        let now = date::now();
        Self::apply_at(update, now);
    }
}

impl PublicFork {
    /// Where a forked list was copied from, as others see it.
    pub fn from(fork: Fork) -> (r: PublicFork)
        ensures
            r == (PublicFork { list: fork.list, user: fork.user }),
    {
        PublicFork { user: fork.user, list: fork.list }
    }
}

/// The public form of an optional fork.
pub open spec fn public_fork(fork: Option<Fork>) -> Option<PublicFork> {
    match fork {
        Some(f) => Some(PublicFork { list: f.list, user: f.user }),
        None => None,
    }
}

fn fork_to_public(fork: Option<Fork>) -> (r: Option<PublicFork>)
    ensures
        r == public_fork(fork),
{
    match fork {
        Some(f) => Some(PublicFork::from(f)),
        None => None,
    }
}

impl PublicList {
    /// A stored list as others see it.
    pub fn from(list: List) -> (r: PublicList)
        requires
            list.id is Some,
        ensures
            r == (PublicList {
                id: list.id->0,
                user: list.user,
                title: list.title,
                slug: list.slug,
                description: list.description,
                tags: list.tags,
                fork: public_fork(list.fork),
                created_at: list.created_at,
            }),
    {
        let id = match list.id {
            Some(id) => id,
            None => vstd::pervasive::unreached(),
        };
        PublicList {
            id,
            user: list.user,
            title: list.title,
            slug: list.slug,
            description: list.description,
            tags: list.tags,
            fork: fork_to_public(list.fork),
            created_at: list.created_at,
        }
    }
}

/// The resource counts and pointers of a list: the completed count is the count less
/// the uncompleted count, the last completion time is that of the last completed
/// resource, and the next resource is shown as its owner sees it.
pub fn resource_metadata_from(
    count: i64,
    uncompleted_count: i64,
    last_completed: Option<Resource>,
    next: Option<Resource>,
) -> (r: ListResourceMetadata)
    requires
        i64::MIN <= count - uncompleted_count <= i64::MAX,
        next matches Some(n) ==> n.id is Some,
    ensures
        r.count == count,
        r.completed_count == count - uncompleted_count,
        r.last_completed_at == match last_completed {
            Some(l) => l.completed_at,
            None => None::<DateTime>,
        },
        r.next == match next {
            Some(n) => Some(
                PrivateResource {
                    id: n.id->0,
                    user: n.user,
                    list: n.list,
                    url: n.url,
                    title: n.title,
                    position: n.position,
                    description: n.description,
                    thumbnail: n.thumbnail,
                    tags: n.tags,
                    created_at: n.created_at,
                    updated_at: n.updated_at,
                    completed_at: n.completed_at,
                },
            ),
            None => None::<PrivateResource>,
        },
{
    let last_completed_at = match last_completed {
        Some(l) => l.completed_at,
        None => None,
    };
    let next = match next {
        Some(n) => Some(PrivateResource::from(n)),
        None => None,
    };
    ListResourceMetadata { count, completed_count: count - uncompleted_count, last_completed_at, next }
}

/// A stored list as its owner sees it, with its counts and resource metadata.
pub fn to_private_list(
    list: List,
    resource_metadata: ListResourceMetadata,
    forks_count: i64,
    subscriptions_count: i64,
    likes_count: i64,
) -> (r: PrivateList)
    requires
        list.id is Some,
    ensures
        r == (PrivateList {
            id: list.id->0,
            user: list.user,
            title: list.title,
            slug: list.slug,
            description: list.description,
            tags: list.tags,
            is_public: list.is_public,
            created_at: list.created_at,
            updated_at: list.updated_at,
            last_activity_at: list.last_activity_at,
            archived_at: list.archived_at,
            fork: public_fork(list.fork),
            forks_count,
            subscriptions_count,
            likes_count,
            resource_metadata,
        }),
{
    let id = match list.id {
        Some(id) => id,
        None => vstd::pervasive::unreached(),
    };
    PrivateList {
        id,
        user: list.user,
        title: list.title,
        slug: list.slug,
        description: list.description,
        tags: list.tags,
        is_public: list.is_public,
        created_at: list.created_at,
        updated_at: list.updated_at,
        last_activity_at: list.last_activity_at,
        archived_at: list.archived_at,
        fork: fork_to_public(list.fork),
        forks_count,
        subscriptions_count,
        likes_count,
        resource_metadata,
    }
}

/// The position for a resource added at the end of a list whose last resource (the one
/// with the greatest position) has position `last`: one past it, or 0 for an empty list.
pub fn next_resource_position(last: Option<i32>) -> (r: i32)
    requires
        last != Some(i32::MAX),
    ensures
        r == match last {
            Some(p) => p + 1,
            None => 0,
        },
{
    match last {
        Some(p) => p + 1,
        None => 0,
    }
}

} // verus!
