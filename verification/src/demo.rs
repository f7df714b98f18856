//! The demo list and resource that new users start with.
use vstd::prelude::*;
use crate::date::DateTime;
use crate::models::list::List;
use crate::models::resource::Resource;
use crate::object_id::ObjectId;
use crate::util::strings_view;

verus! {

/// The tags of the demo list and resource.
pub open spec fn demo_tags() -> Seq<Seq<char>> {
    seq!["tutorial"@]
}

fn tutorial_tags() -> (r: Vec<String>)
    ensures
        strings_view(r@) == demo_tags(),
{
    let mut r: Vec<String> = Vec::new();
    r.push("tutorial".to_owned());
    assert(strings_view(r@) =~= demo_tags());
    r
}

/// The private demo list of a new user, created at `now`.
pub fn demo_list(user: ObjectId, now: DateTime) -> (r: List)
    ensures
        r.id is None,
        r.user == user,
        r.title@ == "To read later"@,
        r.description is Some && r.description->0@ == "This is a demo list create automatically by Listas"@,
        r.slug@ == "to-read-later"@,
        !r.is_public,
        strings_view(r.tags@) == demo_tags(),
        r.fork is None,
        r.created_at == now && r.updated_at == now,
        r.last_activity_at is None && r.archived_at is None,
{
    List {
        id: None,
        user,
        title: "To read later".to_owned(),
        description: Some("This is a demo list create automatically by Listas".to_owned()),
        slug: "to-read-later".to_owned(),
        is_public: false,
        tags: tutorial_tags(),
        fork: None,
        created_at: now,
        updated_at: now,
        last_activity_at: None,
        archived_at: None,
    }
}

/// The demo resource put at the top of a new user's demo list, created at `now`.
pub fn demo_resource(user: ObjectId, list: ObjectId, now: DateTime) -> (r: Resource)
    ensures
        r.id is None,
        r.position == 0,
        strings_view(r.tags@) == demo_tags(),
        r.user == user,
        r.list == list,
        r.url@ == "https://collectednotes.com/getlistas/hello-world"@,
        r.title is Some && r.title->0@ == "Hello World — Listas"@,
        r.description is Some && r.description->0@
            == "Here are a few things I want to share about why we are working on Listas."@,
        r.thumbnail is Some && r.thumbnail->0@
            == "https://photos.collectednotes.com/photos/63/622fd450-952c-44c2-81a5-e27c8494bd11"@,
        r.created_at == now && r.updated_at == now,
        r.completed_at is None && r.populated_at is None,
        r.html is None && r.text is None && r.author is None && r.length is None && r.publisher is None,
{
    Resource {
        id: None,
        position: 0,
        tags: tutorial_tags(),
        user,
        list,
        url: "https://collectednotes.com/getlistas/hello-world".to_owned(),
        title: Some("Hello World — Listas".to_owned()),
        description: Some("Here are a few things I want to share about why we are working on Listas.".to_owned()),
        thumbnail: Some("https://photos.collectednotes.com/photos/63/622fd450-952c-44c2-81a5-e27c8494bd11".to_owned()),
        created_at: now,
        updated_at: now,
        completed_at: None,
        html: None,
        text: None,
        author: None,
        length: None,
        publisher: None,
        populated_at: None,
    }
}

} // verus!
