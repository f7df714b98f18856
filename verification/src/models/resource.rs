//! Resources (saved links) and the forms they take in requests and answers.
use vstd::prelude::*;
use crate::date::{self, DateTime};
use crate::errors::Error;
use crate::object_id::ObjectId;
use crate::traer::{TraerReadResult, TraerReadSomeResult, TraerResponse};
use crate::util::{Url, parse_url, sanitize_tags, sanitized_tags, strings_view, strip_trailing_slashes, url_parse};

verus! {

/// A link saved in a list.
#[derive(Debug, Clone, PartialEq, Eq)]
pub struct Resource {
    pub id: Option<ObjectId>,
    pub user: ObjectId,
    pub list: ObjectId,
    pub url: String,
    pub title: Option<String>,
    /// Where the resource stands in its list.
    pub position: i32,
    pub description: Option<String>,
    pub thumbnail: Option<String>,
    pub tags: Vec<String>,
    pub html: Option<String>,
    pub text: Option<String>,
    pub author: Option<String>,
    pub length: Option<i32>,
    pub publisher: Option<String>,
    pub created_at: DateTime,
    pub updated_at: DateTime,
    pub completed_at: Option<DateTime>,
    pub populated_at: Option<DateTime>,
}

/// The fields of a resource that a request changes.
#[derive(Debug, Clone, PartialEq, Eq)]
pub struct ResourceUpdate {
    pub list: Option<ObjectId>,
    pub url: Option<String>,
    pub title: Option<String>,
    pub description: Option<String>,
    pub tags: Option<Vec<String>>,
    pub updated_at: Option<DateTime>,
}

/// A resource as its owner sees it.
#[derive(Debug, Clone, PartialEq, Eq)]
pub struct PrivateResource {
    pub id: ObjectId,
    pub user: ObjectId,
    pub list: ObjectId,
    pub url: String,
    pub title: Option<String>,
    pub position: i32,
    pub description: Option<String>,
    pub thumbnail: Option<String>,
    pub tags: Vec<String>,
    pub created_at: DateTime,
    pub updated_at: DateTime,
    pub completed_at: Option<DateTime>,
}

/// The metadata of a web page that a new resource is filled in with.
#[derive(Debug, Clone, PartialEq, Eq)]
pub struct ResourceMetadata {
    pub title: Option<String>,
    pub description: Option<String>,
    pub thumbnail: Option<String>,
}

/// A value that a field of a stored resource is set to.
#[derive(Debug, Clone, PartialEq, Eq)]
pub enum FieldValue {
    Text(String),
    Integer(i64),
}

/// The texts of an optional list of tags.
pub open spec fn tags_view(tags: Option<Vec<String>>) -> Option<Seq<Seq<char>>> {
    match tags {
        Some(t) => Some(strings_view(t@)),
        None => None,
    }
}

impl ResourceUpdate {
    /// Prepares an update at time `now`: tags, when given, are sanitized, and the update
    /// time is set; the other fields stay.
    pub fn apply_at(update: &mut Self, now: DateTime)
        ensures
            final(update).list == old(update).list,
            final(update).url == old(update).url,
            final(update).title == old(update).title,
            final(update).description == old(update).description,
            tags_view(final(update).tags) == match tags_view(old(update).tags) {
                Some(t) => Some(sanitized_tags(t)),
                None => None::<Seq<Seq<char>>>,
            },
            final(update).updated_at == Some(now),
    {
        let tags = update.tags.take();
        match tags {
            Some(t) => {
                update.tags = Some(sanitize_tags(t));
            },
            None => {},
        }
        update.updated_at = Some(now);
    }

    /// Prepares an update: tags, when given, are sanitized, and the update time is set
    /// to now; the other fields stay.
    pub fn new(update: &mut Self)
        ensures
            final(update).list == old(update).list,
            final(update).url == old(update).url,
            final(update).title == old(update).title,
            final(update).description == old(update).description,
            tags_view(final(update).tags) == match tags_view(old(update).tags) {
                Some(t) => Some(sanitized_tags(t)),
                None => None::<Seq<Seq<char>>>,
            },
            final(update).updated_at is Some,
    {
        let now = date::now();
        Self::apply_at(update, now);
    }
}

impl PrivateResource {
    /// A stored resource as its owner sees it.
    pub fn from(resource: Resource) -> (r: PrivateResource)
        requires
            resource.id is Some,
        ensures
            r == (PrivateResource {
                id: resource.id->0,
                user: resource.user,
                list: resource.list,
                url: resource.url,
                title: resource.title,
                position: resource.position,
                description: resource.description,
                thumbnail: resource.thumbnail,
                tags: resource.tags,
                created_at: resource.created_at,
                updated_at: resource.updated_at,
                completed_at: resource.completed_at,
            }),
    {
        let id = match resource.id {
            Some(id) => id,
            None => ObjectId { bytes: [0u8; 12] },
        };
        PrivateResource {
            id,
            user: resource.user,
            list: resource.list,
            url: resource.url,
            title: resource.title,
            position: resource.position,
            description: resource.description,
            thumbnail: resource.thumbnail,
            tags: resource.tags,
            created_at: resource.created_at,
            updated_at: resource.updated_at,
            completed_at: resource.completed_at,
        }
    }
}

impl Resource {
    /// The URL of the resource, parsed; `None` where it does not parse.
    pub fn try_get_url(&self) -> (r: Option<Url>)
        ensures
            match r {
                Some(u) => url_parse(strip_trailing_slashes(self.url@)) == Some(u.view()),
                None => url_parse(strip_trailing_slashes(self.url@)) is None,
            },
    {
        match parse_url(self.url.as_str()) {
            Ok(_) => Some(self.get_url()),
            Err(_) => None,
        }
    }

    /// The URL of the resource, parsed; stored resources always hold a valid URL.
    pub fn get_url(&self) -> (r: Url)
        requires
            url_parse(strip_trailing_slashes(self.url@)) is Some,
        ensures
            url_parse(strip_trailing_slashes(self.url@)) == Some(r.view()),
    {
        match parse_url(self.url.as_str()) {
            Ok(u) => u,
            Err(_) => vstd::pervasive::unreached(),
        }
    }
}

/// What a slim Traer answer says of a page: its metadata when Traer could read it.
pub open spec fn metadata_of(resp: TraerResponse<TraerReadSomeResult>) -> Option<ResourceMetadata> {
    if resp.success {
        Some(
            ResourceMetadata {
                title: resp.data.title,
                description: resp.data.description,
                thumbnail: resp.data.image,
            },
        )
    } else {
        None
    }
}

/// The metadata for a new resource from a slim Traer answer: title, description and
/// image, or `None` when Traer could not read the page.
pub fn metadata_from_traer(resp: TraerResponse<TraerReadSomeResult>) -> (r: Option<ResourceMetadata>)
    ensures
        r == metadata_of(resp),
{
    if !resp.success {
        return None;
    }
    Some(
        ResourceMetadata {
            title: resp.data.title,
            description: resp.data.description,
            thumbnail: resp.data.image,
        },
    )
}

/// The fields that a full Traer reading sets on a resource, in this order: title,
/// description, thumbnail (from the image), html, text, length, publisher, author; each
/// only where the reading has it.
pub open spec fn populate_fields(m: TraerReadResult) -> Seq<(Seq<char>, FieldValue)> {
    opt_text("title"@, m.title) + opt_text("description"@, m.description) + opt_text(
        "thumbnail"@,
        m.image,
    ) + opt_text("html"@, m.html) + opt_text("text"@, m.text) + match m.length {
        Some(n) => seq![("length"@, FieldValue::Integer(n))],
        None => Seq::empty(),
    } + opt_text("publisher"@, m.publisher) + opt_text("author"@, m.author)
}

/// One text field, where it is present.
pub open spec fn opt_text(name: Seq<char>, v: Option<String>) -> Seq<(Seq<char>, FieldValue)> {
    match v {
        Some(s) => seq![(name, FieldValue::Text(s))],
        None => Seq::empty(),
    }
}

/// The names and values of a list of field updates.
pub open spec fn fields_view(v: Seq<(String, FieldValue)>) -> Seq<(Seq<char>, FieldValue)> {
    v.map_values(|p: (String, FieldValue)| (p.0@, p.1))
}

fn push_text(out: &mut Vec<(String, FieldValue)>, name: &str, v: Option<String>)
    ensures
        fields_view(final(out)@) == fields_view(old(out)@) + opt_text(name@, v),
{
    match v {
        Some(s) => {
            out.push((name.to_owned(), FieldValue::Text(s)));
        },
        None => {},
    }
    assert(fields_view(out@) =~= fields_view(old(out)@) + opt_text(name@, v));
}

/// The fields that a full Traer reading of a resource's page sets on it; an empty list
/// means there is nothing to update.
pub fn populate_update(metadata: TraerReadResult) -> (r: Vec<(String, FieldValue)>)
    ensures
        fields_view(r@) == populate_fields(metadata),
{
    let mut out: Vec<(String, FieldValue)> = Vec::new();
    assert(fields_view(out@) =~= Seq::empty());
    push_text(&mut out, "title", metadata.title);
    push_text(&mut out, "description", metadata.description);
    push_text(&mut out, "thumbnail", metadata.image);
    push_text(&mut out, "html", metadata.html);
    push_text(&mut out, "text", metadata.text);
    let ghost before = fields_view(out@);
    match metadata.length {
        Some(n) => {
            out.push(("length".to_owned(), FieldValue::Integer(n)));
        },
        None => {},
    }
    assert(fields_view(out@) =~= before + match metadata.length {
        Some(n) => seq![("length"@, FieldValue::Integer(n))],
        None => Seq::empty(),
    });
    push_text(&mut out, "publisher", metadata.publisher);
    push_text(&mut out, "author", metadata.author);
    assert(fields_view(out@) =~= populate_fields(metadata));
    out
}

/// The fields that the resource actor sets from a full Traer reading of a page: html,
/// text, length, publisher and author, where present (the title, description and image
/// stay as the user gave them).
pub open spec fn enrich_fields(m: TraerReadResult) -> Seq<(Seq<char>, FieldValue)> {
    opt_text("html"@, m.html) + opt_text("text"@, m.text) + match m.length {
        Some(n) => seq![("length"@, FieldValue::Integer(n))],
        None => Seq::empty(),
    } + opt_text("publisher"@, m.publisher) + opt_text("author"@, m.author)
}

/// The fields that enriching a resource with a full Traer reading of its page sets; an
/// empty list means there is nothing to update.
pub fn enrich_update(m: TraerReadResult) -> (r: Vec<(String, FieldValue)>)
    ensures
        fields_view(r@) == enrich_fields(m),
{
    let mut out: Vec<(String, FieldValue)> = Vec::new();
    assert(fields_view(out@) =~= Seq::empty());
    push_text(&mut out, "html", m.html);
    push_text(&mut out, "text", m.text);
    let ghost before = fields_view(out@);
    match m.length {
        Some(n) => {
            out.push(("length".to_owned(), FieldValue::Integer(n)));
        },
        None => {},
    }
    assert(fields_view(out@) =~= before + match m.length {
        Some(n) => seq![("length"@, FieldValue::Integer(n))],
        None => Seq::empty(),
    });
    push_text(&mut out, "publisher", m.publisher);
    push_text(&mut out, "author", m.author);
    assert(fields_view(out@) =~= enrich_fields(m));
    out
}

proof fn lemma_contains_concat<A>(a: Seq<A>, b: Seq<A>, x: A)
    ensures
        (a + b).contains(x) <==> a.contains(x) || b.contains(x),
{
    if (a + b).contains(x) {
        let i = choose|i: int| 0 <= i < (a + b).len() && (a + b)[i] == x;
        if i < a.len() {
            assert(a[i] == x);
        } else {
            assert(b[i - a.len()] == x);
        }
    }
    if a.contains(x) {
        let i = choose|i: int| 0 <= i < a.len() && a[i] == x;
        assert((a + b)[i] == x);
    }
    if b.contains(x) {
        let i = choose|i: int| 0 <= i < b.len() && b[i] == x;
        assert((a + b)[i + a.len()] == x);
    }
}

proof fn lemma_one_contains<A>(y: A, x: A)
    ensures
        seq![y].contains(x) <==> x == y,
{
    if x == y {
        assert(seq![y][0] == x);
    }
}

proof fn lemma_opt_text_contains(name: Seq<char>, v: Option<String>, e: (Seq<char>, FieldValue))
    ensures
        opt_text(name, v).contains(e) <==> (v is Some && e == (name, FieldValue::Text(v->0))),
{
    match v {
        Some(s) => lemma_one_contains((name, FieldValue::Text(s)), e),
        None => {},
    }
}

proof fn lemma_length_contains(l: Option<i64>, e: (Seq<char>, FieldValue))
    ensures
        (match l {
            Some(n) => seq![("length"@, FieldValue::Integer(n))],
            None => Seq::<(Seq<char>, FieldValue)>::empty(),
        }).contains(e) <==> (l is Some && e == ("length"@, FieldValue::Integer(l->0))),
{
    match l {
        Some(n) => lemma_one_contains(("length"@, FieldValue::Integer(n)), e),
        None => {},
    }
}

/// Whether `e` is the field update that the reading's value `v` makes under `name`.
spec fn sets_text(e: (Seq<char>, FieldValue), name: Seq<char>, v: Option<String>) -> bool {
    v is Some && e == (name, FieldValue::Text(v->0))
}

proof fn lemma_field_names_distinct()
    ensures
        "title"@ != "description"@,
        "title"@ != "thumbnail"@,
        "title"@ != "html"@,
        "title"@ != "text"@,
        "title"@ != "length"@,
        "title"@ != "publisher"@,
        "title"@ != "author"@,
        "description"@ != "thumbnail"@,
        "description"@ != "html"@,
        "description"@ != "text"@,
        "description"@ != "length"@,
        "description"@ != "publisher"@,
        "description"@ != "author"@,
        "thumbnail"@ != "html"@,
        "thumbnail"@ != "text"@,
        "thumbnail"@ != "length"@,
        "thumbnail"@ != "publisher"@,
        "thumbnail"@ != "author"@,
        "html"@ != "text"@,
        "html"@ != "length"@,
        "html"@ != "publisher"@,
        "html"@ != "author"@,
        "text"@ != "length"@,
        "text"@ != "publisher"@,
        "text"@ != "author"@,
        "length"@ != "publisher"@,
        "length"@ != "author"@,
        "publisher"@ != "author"@,
{
    reveal_strlit("title");
    reveal_strlit("description");
    reveal_strlit("thumbnail");
    reveal_strlit("html");
    reveal_strlit("text");
    reveal_strlit("length");
    reveal_strlit("publisher");
    reveal_strlit("author");
    assert("title"@.len() != "description"@.len());
    assert("title"@.len() != "thumbnail"@.len());
    assert("title"@[0] != "html"@[0]);
    assert("title"@[0] != "text"@[1] || "title"@.len() != "text"@.len());
    assert("title"@.len() != "length"@.len() || "title"@[0] != "length"@[0]);
    assert("title"@.len() != "publisher"@.len());
    assert("title"@.len() != "author"@.len());
    assert("description"@.len() != "thumbnail"@.len());
    assert("description"@.len() != "html"@.len());
    assert("description"@.len() != "text"@.len());
    assert("description"@.len() != "length"@.len());
    assert("description"@.len() != "publisher"@.len());
    assert("description"@.len() != "author"@.len());
    assert("thumbnail"@.len() != "html"@.len());
    assert("thumbnail"@.len() != "text"@.len());
    assert("thumbnail"@.len() != "length"@.len());
    assert("thumbnail"@[0] != "publisher"@[0]);
    assert("thumbnail"@.len() != "author"@.len());
    assert("html"@[0] != "text"@[0]);
    assert("html"@.len() != "length"@.len());
    assert("html"@.len() != "publisher"@.len());
    assert("html"@.len() != "author"@.len());
    assert("text"@.len() != "length"@.len());
    assert("text"@.len() != "publisher"@.len());
    assert("text"@.len() != "author"@.len());
    assert("length"@.len() != "publisher"@.len());
    assert("length"@[0] != "author"@[0]);
    assert("publisher"@.len() != "author"@.len());
}

/// A full Traer reading sets each field of a resource from the reading's value of the
/// same name, and only where the reading has it: the title from the title, the
/// description from the description, the thumbnail from the image, then html, text,
/// length, publisher and author; nothing else is set.
pub proof fn lemma_populate_fields_sources(m: TraerReadResult)
    ensures
        forall|v: FieldValue| #[trigger] populate_fields(m).contains(("title"@, v)) <==> (m.title is Some && v == FieldValue::Text(m.title->0)),
        forall|v: FieldValue| #[trigger] populate_fields(m).contains(("description"@, v)) <==> (m.description is Some && v == FieldValue::Text(m.description->0)),
        forall|v: FieldValue| #[trigger] populate_fields(m).contains(("thumbnail"@, v)) <==> (m.image is Some && v == FieldValue::Text(m.image->0)),
        forall|v: FieldValue| #[trigger] populate_fields(m).contains(("html"@, v)) <==> (m.html is Some && v == FieldValue::Text(m.html->0)),
        forall|v: FieldValue| #[trigger] populate_fields(m).contains(("text"@, v)) <==> (m.text is Some && v == FieldValue::Text(m.text->0)),
        forall|v: FieldValue| #[trigger] populate_fields(m).contains(("length"@, v)) <==> (m.length is Some && v == FieldValue::Integer(m.length->0)),
        forall|v: FieldValue| #[trigger] populate_fields(m).contains(("publisher"@, v)) <==> (m.publisher is Some && v == FieldValue::Text(m.publisher->0)),
        forall|v: FieldValue| #[trigger] populate_fields(m).contains(("author"@, v)) <==> (m.author is Some && v == FieldValue::Text(m.author->0)),
        forall|e: (Seq<char>, FieldValue)| #[trigger] populate_fields(m).contains(e) ==> (e.0 == "title"@ || e.0 == "description"@ || e.0 == "thumbnail"@ || e.0 == "html"@ || e.0 == "text"@ || e.0 == "length"@ || e.0 == "publisher"@ || e.0 == "author"@),
{
    lemma_field_names_distinct();
    let a1 = opt_text("title"@, m.title);
    let a2 = opt_text("description"@, m.description);
    let a3 = opt_text("thumbnail"@, m.image);
    let a4 = opt_text("html"@, m.html);
    let a5 = opt_text("text"@, m.text);
    let a6 = match m.length {
        Some(n) => seq![("length"@, FieldValue::Integer(n))],
        None => Seq::<(Seq<char>, FieldValue)>::empty(),
    };
    let a7 = opt_text("publisher"@, m.publisher);
    let a8 = opt_text("author"@, m.author);
    assert(populate_fields(m) == a1 + a2 + a3 + a4 + a5 + a6 + a7 + a8);
    assert forall|e: (Seq<char>, FieldValue)| #[trigger] populate_fields(m).contains(e) <==> (
        sets_text(e, "title"@, m.title) || sets_text(e, "description"@, m.description) || sets_text(e, "thumbnail"@, m.image)
        || sets_text(e, "html"@, m.html) || sets_text(e, "text"@, m.text) || (m.length is Some && e == ("length"@, FieldValue::Integer(m.length->0)))
        || sets_text(e, "publisher"@, m.publisher) || sets_text(e, "author"@, m.author)) by {
        lemma_contains_concat(a1, a2, e);
        lemma_contains_concat(a1 + a2, a3, e);
        lemma_contains_concat(a1 + a2 + a3, a4, e);
        lemma_contains_concat(a1 + a2 + a3 + a4, a5, e);
        lemma_contains_concat(a1 + a2 + a3 + a4 + a5, a6, e);
        lemma_contains_concat(a1 + a2 + a3 + a4 + a5 + a6, a7, e);
        lemma_contains_concat(a1 + a2 + a3 + a4 + a5 + a6 + a7, a8, e);
        lemma_opt_text_contains("title"@, m.title, e);
        lemma_opt_text_contains("description"@, m.description, e);
        lemma_opt_text_contains("thumbnail"@, m.image, e);
        lemma_opt_text_contains("html"@, m.html, e);
        lemma_opt_text_contains("text"@, m.text, e);
        lemma_length_contains(m.length, e);
        lemma_opt_text_contains("publisher"@, m.publisher, e);
        lemma_opt_text_contains("author"@, m.author, e);
    }
}

/// When Traer reads the page, the metadata of a new resource is the page's title,
/// description and image (as the thumbnail); when it cannot, there is none.
pub proof fn lemma_traer_metadata(resp: TraerResponse<TraerReadSomeResult>)
    ensures
        resp.success ==> metadata_of(resp) == Some(
            ResourceMetadata {
                title: resp.data.title,
                description: resp.data.description,
                thumbnail: resp.data.image,
            },
        ),
        !resp.success ==> metadata_of(resp) is None,
{
}

/// Enriching a resource sets html, text, length, publisher and author each from the
/// reading's value of the same name, only where the reading has it, and nothing else.
pub proof fn lemma_enrich_fields_sources(m: TraerReadResult)
    ensures
        forall|v: FieldValue| #[trigger] enrich_fields(m).contains(("html"@, v)) <==> (m.html is Some && v == FieldValue::Text(m.html->0)),
        forall|v: FieldValue| #[trigger] enrich_fields(m).contains(("text"@, v)) <==> (m.text is Some && v == FieldValue::Text(m.text->0)),
        forall|v: FieldValue| #[trigger] enrich_fields(m).contains(("length"@, v)) <==> (m.length is Some && v == FieldValue::Integer(m.length->0)),
        forall|v: FieldValue| #[trigger] enrich_fields(m).contains(("publisher"@, v)) <==> (m.publisher is Some && v == FieldValue::Text(m.publisher->0)),
        forall|v: FieldValue| #[trigger] enrich_fields(m).contains(("author"@, v)) <==> (m.author is Some && v == FieldValue::Text(m.author->0)),
        forall|e: (Seq<char>, FieldValue)| #[trigger] enrich_fields(m).contains(e) ==> (e.0 == "html"@ || e.0 == "text"@ || e.0 == "length"@ || e.0 == "publisher"@ || e.0 == "author"@),
{
    lemma_field_names_distinct();
    let a4 = opt_text("html"@, m.html);
    let a5 = opt_text("text"@, m.text);
    let a6 = match m.length {
        Some(n) => seq![("length"@, FieldValue::Integer(n))],
        None => Seq::<(Seq<char>, FieldValue)>::empty(),
    };
    let a7 = opt_text("publisher"@, m.publisher);
    let a8 = opt_text("author"@, m.author);
    assert(enrich_fields(m) == a4 + a5 + a6 + a7 + a8);
    assert forall|e: (Seq<char>, FieldValue)| #[trigger] enrich_fields(m).contains(e) <==> (
        sets_text(e, "html"@, m.html) || sets_text(e, "text"@, m.text) || (m.length is Some && e == ("length"@, FieldValue::Integer(m.length->0)))
        || sets_text(e, "publisher"@, m.publisher) || sets_text(e, "author"@, m.author)) by {
        lemma_contains_concat(a4, a5, e);
        lemma_contains_concat(a4 + a5, a6, e);
        lemma_contains_concat(a4 + a5 + a6, a7, e);
        lemma_contains_concat(a4 + a5 + a6 + a7, a8, e);
        lemma_opt_text_contains("html"@, m.html, e);
        lemma_opt_text_contains("text"@, m.text, e);
        lemma_length_contains(m.length, e);
        lemma_opt_text_contains("publisher"@, m.publisher, e);
        lemma_opt_text_contains("author"@, m.author, e);
    }
}

} // verus!
