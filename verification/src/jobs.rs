//! Background jobs: creating the resources of an import.
use vstd::prelude::*;
use crate::date::DateTime;
use crate::models::list::List;
use crate::models::resource::Resource;
use crate::util::Url;

verus! {

/// The work of one import: the list (hexadecimal id) and the URLs to add to it.
#[derive(Debug, Clone, PartialEq, Eq)]
pub struct JobPayload {
    pub list: String,
    pub urls: Vec<String>,
}

/// The positions of `count` imported resources added after the position `start`: the
/// resource at index `i` goes to `start + i + 1`.
pub fn import_positions(start: i32, count: usize) -> (r: Vec<i32>)
    requires
        count <= i32::MAX,
        start + count <= i32::MAX,
    ensures
        r@.len() == count,
        forall|i: int| 0 <= i < count ==> #[trigger] r@[i] == start + i + 1,
{
    let mut r: Vec<i32> = Vec::new();
    let mut i: usize = 0;
    while i < count
        invariant
            i <= count,
            count <= i32::MAX,
            start + count <= i32::MAX,
            r@.len() == i,
            forall|j: int| 0 <= j < i ==> #[trigger] r@[j] == start + j + 1,
        decreases count - i,
    {
        let k = i as i32;
        assert(k == i);
        r.push(start + k + 1);
        i += 1;
    }
    r
}

/// The resource an import creates in a list for a URL at `position`, at time `now`:
/// owned by the list's owner, without title, description, thumbnail, tags or content
/// (those are read from the page afterwards).
pub fn imported_resource(list: &List, url: &Url, position: i32, now: DateTime) -> (r: Resource)
    requires
        list.id is Some,
    ensures
        r.id is None,
        r.url@ == url.view(),
        r.position == position,
        r.user == list.user,
        r.list == list.id->0,
        r.created_at == now && r.updated_at == now,
        r.title is None && r.description is None && r.thumbnail is None,
        r.tags@.len() == 0,
        r.html is None && r.text is None && r.author is None && r.length is None && r.publisher is None,
        r.completed_at is None && r.populated_at is None,
{
    let list_id = match list.id {
        Some(id) => id,
        None => vstd::pervasive::unreached(),
    };
    Resource {
        id: None,
        url: url.to_string(),
        position,
        user: list.user,
        list: list_id,
        created_at: now,
        updated_at: now,
        title: None,
        description: None,
        thumbnail: None,
        tags: Vec::new(),
        html: None,
        text: None,
        author: None,
        length: None,
        publisher: None,
        completed_at: None,
        populated_at: None,
    }
}

} // verus!
