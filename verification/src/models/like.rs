//! Likes of lists.
use vstd::prelude::*;
use crate::date::DateTime;
use crate::object_id::ObjectId;

verus! {

/// A user's like of a list.
#[derive(Debug, Clone, Copy, PartialEq, Eq)]
pub struct Like {
    pub id: Option<ObjectId>,
    pub user: ObjectId,
    pub list: ObjectId,
    pub created_at: DateTime,
}

/// A like as others see it.
#[derive(Debug, Clone, Copy, PartialEq, Eq)]
pub struct PublicLike {
    pub id: ObjectId,
    pub user: ObjectId,
    pub list: ObjectId,
    pub created_at: DateTime,
}

impl PublicLike {
    /// A stored like as others see it.
    pub fn from(like: Like) -> (r: PublicLike)
        requires
            like.id is Some,
        ensures
            r == (PublicLike { id: like.id->0, user: like.user, list: like.list, created_at: like.created_at }),
    {
        let id = match like.id {
            Some(id) => id,
            None => vstd::pervasive::unreached(),
        };
        PublicLike { id, user: like.user, list: like.list, created_at: like.created_at }
    }
}

} // verus!
