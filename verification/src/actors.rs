//! What the subscription actor does when a resource is created in a list that others
//! subscribe to.
use vstd::prelude::*;
use crate::date::DateTime;
use crate::models::integration::Integration;
use crate::models::resource::Resource;
use crate::text::{clone_opt_string, clone_strings};

verus! {

/// The copy of a new resource that a subscription puts into the subscriber's list, at
/// `position` and time `now`: the same title, URL, description, thumbnail and tags, owned
/// by the subscriber, not completed, without read content.
pub fn subscription_copy(resource: &Resource, integration: &Integration, position: i32, now: DateTime) -> (r: Resource)
    ensures
        r.id is None,
        r.list == integration.list,
        r.user == integration.user,
        r.title == resource.title,
        r.url == resource.url,
        r.description == resource.description,
        r.thumbnail == resource.thumbnail,
        r.tags@ == resource.tags@,
        r.created_at == now && r.updated_at == now,
        r.completed_at is None && r.populated_at is None,
        r.position == position,
        r.html is None && r.text is None && r.author is None && r.length is None && r.publisher is None,
{
    Resource {
        id: None,
        list: integration.list,
        user: integration.user,
        title: clone_opt_string(&resource.title),
        url: resource.url.clone(),
        description: clone_opt_string(&resource.description),
        thumbnail: clone_opt_string(&resource.thumbnail),
        tags: clone_strings(&resource.tags),
        created_at: now,
        updated_at: now,
        completed_at: None,
        position,
        html: None,
        text: None,
        author: None,
        length: None,
        publisher: None,
        populated_at: None,
    }
}

} // verus!
