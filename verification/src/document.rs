//! Documents of the database, and the aggregation pipelines that list queries run.
use vstd::prelude::*;
use crate::object_id::ObjectId;

verus! {

/// A value in a document.
#[derive(Debug, PartialEq)]
pub enum Bson {
    Null,
    Boolean(bool),
    Int32(i32),
    Int64(i64),
    String(String),
    ObjectId(ObjectId),
    Array(Vec<Bson>),
    Document(Document),
}

/// A document: named values in order.
#[derive(Debug, PartialEq)]
pub struct Document {
    pub entries: Vec<(String, Bson)>,
}


/// Whether a document holds exactly one value, under `key`.
pub open spec fn single(d: Document, key: Seq<char>) -> bool {
    d.entries@.len() == 1 && d.entries@[0].0@ == key
}

/// The first value of a document.
pub open spec fn first_value(d: Document) -> Bson {
    d.entries@[0].1
}

/// Whether a value is the text `s`.
pub open spec fn is_text(b: Bson, s: Seq<char>) -> bool {
    b matches Bson::String(t) && t@ == s
}

/// Whether entry `i` of a document is `key` with the text `value`.
pub open spec fn text_entry(d: Document, i: int, key: Seq<char>, value: Seq<char>) -> bool {
    0 <= i < d.entries@.len() && d.entries@[i].0@ == key && is_text(d.entries@[i].1, value)
}

/// Whether a document is the one stage `{ key: value }`.
pub open spec fn stage(d: Document, key: Seq<char>, value: Bson) -> bool {
    single(d, key) && first_value(d) == value
}

/// Whether a document is `{ "$sort": { field: direction } }`.
pub open spec fn sort_stage(d: Document, field: Seq<char>, direction: i32) -> bool {
    single(d, "$sort"@) && (first_value(d) matches Bson::Document(inner) && stage(
        inner,
        field,
        Bson::Int32(direction),
    ))
}

/// Whether a document is `{ "$lookup": { from, localField, foreignField, as } }`.
pub open spec fn lookup_stage(
    d: Document,
    from: Seq<char>,
    local: Seq<char>,
    foreign: Seq<char>,
    as_name: Seq<char>,
) -> bool {
    single(d, "$lookup"@) && (first_value(d) matches Bson::Document(inner) && {
        &&& inner.entries@.len() == 4
        &&& text_entry(inner, 0, "from"@, from)
        &&& text_entry(inner, 1, "localField"@, local)
        &&& text_entry(inner, 2, "foreignField"@, foreign)
        &&& text_entry(inner, 3, "as"@, as_name)
    })
}

/// Whether a document is `{ "$unwind": { path, preserveNullAndEmptyArrays: true } }`.
pub open spec fn unwind_keep_empty_stage(d: Document, path: Seq<char>) -> bool {
    single(d, "$unwind"@) && (first_value(d) matches Bson::Document(inner) && {
        &&& inner.entries@.len() == 2
        &&& text_entry(inner, 0, "path"@, path)
        &&& inner.entries@[1].0@ == "preserveNullAndEmptyArrays"@
        &&& inner.entries@[1].1 == Bson::Boolean(true)
    })
}

/// Whether a value is a document for which `p` holds.
pub open spec fn doc_where(b: Bson, p: spec_fn(Document) -> bool) -> bool {
    match b {
        Bson::Document(d) => p(d),
        _ => false,
    }
}

/// Whether a document is `{ "$match": { "$expr": { "$eq": ["$list", "$$list"] } } }`,
/// with `completed_at: null` added when only uncompleted resources are kept.
pub open spec fn same_list_match_stage(d: Document, uncompleted_only: bool) -> bool {
    single(d, "$match"@) && doc_where(
        first_value(d),
        |c: Document|
            {
                &&& c.entries@.len() == if uncompleted_only { 2int } else { 1int }
                &&& c.entries@[0].0@ == "$expr"@
                &&& doc_where(
                    c.entries@[0].1,
                    |e: Document|
                        single(e, "$eq"@) && match first_value(e) {
                            Bson::Array(a) => a@.len() == 2 && is_text(a@[0], "$list"@) && is_text(
                                a@[1],
                                "$$list"@,
                            ),
                            _ => false,
                        },
                )
                &&& uncompleted_only ==> c.entries@[1].0@ == "completed_at"@ && c.entries@[1].1
                    == Bson::Null
            },
    )
}

/// Whether a document is the lookup of a list's resources, `{ "$lookup": { from:
/// "resources", as: "resources", let: { list: "$_id" }, pipeline } }`, whose pipeline
/// keeps the resources of the list (only the uncompleted ones when asked), orders them by
/// `sort_field` in `sort_dir` and keeps the first.
pub open spec fn resources_lookup_stage(
    d: Document,
    uncompleted_only: bool,
    sort_field: Seq<char>,
    sort_dir: i32,
) -> bool {
    single(d, "$lookup"@) && doc_where(
        first_value(d),
        |inner: Document|
            {
                &&& inner.entries@.len() == 4
                &&& text_entry(inner, 0, "from"@, "resources"@)
                &&& text_entry(inner, 1, "as"@, "resources"@)
                &&& inner.entries@[2].0@ == "let"@
                &&& doc_where(
                    inner.entries@[2].1,
                    |l: Document| single(l, "list"@) && is_text(first_value(l), "$_id"@),
                )
                &&& inner.entries@[3].0@ == "pipeline"@
                &&& match inner.entries@[3].1 {
                    Bson::Array(stages) => {
                        &&& stages@.len() == 3
                        &&& doc_where(stages@[0], |m: Document| same_list_match_stage(m, uncompleted_only))
                        &&& doc_where(stages@[1], |s: Document| sort_stage(s, sort_field, sort_dir))
                        &&& doc_where(stages@[2], |t: Document| stage(t, "$limit"@, Bson::Int32(1)))
                    },
                    _ => false,
                }
            },
    )
}

/// Whether a document is `{ "$match": { "resources": { "$ne": [] } } }`: lists with at
/// least one resource.
pub open spec fn has_resources_stage(d: Document) -> bool {
    single(d, "$match"@) && doc_where(
        first_value(d),
        |m: Document|
            single(m, "resources"@) && doc_where(
                first_value(m),
                |ne: Document|
                    single(ne, "$ne"@) && match first_value(ne) {
                        Bson::Array(a) => a@.len() == 0,
                        _ => false,
                    },
            ),
    )
}

/// Whether a document is the projection of discovered lists: without `_id`, the list's
/// id, title, description, tags, creation time and slug, and its owner's id, slug, name
/// and avatar.
pub open spec fn discover_projection(d: Document) -> bool {
    single(d, "$project"@) && doc_where(
        first_value(d),
        |p: Document|
            {
                &&& p.entries@.len() == 8
                &&& p.entries@[0].0@ == "_id"@ && p.entries@[0].1 == Bson::Boolean(false)
                &&& text_entry(p, 1, "id"@, "$_id"@)
                &&& text_entry(p, 2, "title"@, "$title"@)
                &&& text_entry(p, 3, "description"@, "$description"@)
                &&& text_entry(p, 4, "tags"@, "$tags"@)
                &&& text_entry(p, 5, "created_at"@, "$created_at"@)
                &&& text_entry(p, 6, "slug"@, "$slug"@)
                &&& p.entries@[7].0@ == "user"@
                &&& doc_where(
                    p.entries@[7].1,
                    |u: Document|
                        {
                            &&& u.entries@.len() == 4
                            &&& text_entry(u, 0, "id"@, "$user._id"@)
                            &&& text_entry(u, 1, "slug"@, "$user.slug"@)
                            &&& text_entry(u, 2, "name"@, "$user.name"@)
                            &&& text_entry(u, 3, "avatar"@, "$user.avatar"@)
                        },
                )
            },
    )
}

/// Whether a document is the projection of populated lists: without `_id`, the list's
/// id, owner, title, description, tags, slug, visibility, times and fork.
pub open spec fn populated_projection(d: Document) -> bool {
    single(d, "$project"@) && doc_where(
        first_value(d),
        |p: Document|
            {
                &&& p.entries@.len() == 12
                &&& p.entries@[0].0@ == "_id"@ && p.entries@[0].1 == Bson::Boolean(false)
                &&& text_entry(p, 1, "id"@, "$_id"@)
                &&& text_entry(p, 2, "user"@, "$user"@)
                &&& text_entry(p, 3, "title"@, "$title"@)
                &&& text_entry(p, 4, "description"@, "$description"@)
                &&& text_entry(p, 5, "tags"@, "$tags"@)
                &&& text_entry(p, 6, "slug"@, "$slug"@)
                &&& text_entry(p, 7, "is_public"@, "$is_public"@)
                &&& text_entry(p, 8, "created_at"@, "$created_at"@)
                &&& text_entry(p, 9, "updated_at"@, "$updated_at"@)
                &&& text_entry(p, 10, "archived_at"@, "$archived_at"@)
                &&& text_entry(p, 11, "fork"@, "$fork"@)
            },
    )
}

pub(crate) fn text(s: &str) -> (r: Bson)
    ensures
        is_text(r, s@),
{
    Bson::String(s.to_owned())
}

/// A document with one value.
pub fn doc1(key: &str, value: Bson) -> (r: Document)
    ensures
        single(r, key@),
        first_value(r) == value,
{
    let mut entries: Vec<(String, Bson)> = Vec::new();
    entries.push((key.to_owned(), value));
    Document { entries }
}

pub(crate) fn doc_of(pairs: Vec<(String, Bson)>) -> (r: Document)
    ensures
        r.entries@ == pairs@,
{
    Document { entries: pairs }
}

pub(crate) fn pair(key: &str, value: Bson) -> (r: (String, Bson))
    ensures
        r.0@ == key@,
        r.1 == value,
{
    (key.to_owned(), value)
}

/// `{ "$lookup": { from, localField, foreignField, as } }`.
fn lookup_field(from: &str, local: &str, foreign: &str, as_name: &str) -> (r: Document)
    ensures
        lookup_stage(r, from@, local@, foreign@, as_name@),
{
    let mut v: Vec<(String, Bson)> = Vec::new();
    v.push(pair("from", text(from)));
    v.push(pair("localField", text(local)));
    v.push(pair("foreignField", text(foreign)));
    v.push(pair("as", text(as_name)));
    doc1("$lookup", Bson::Document(doc_of(v)))
}

/// `{ "$unwind": { path, preserveNullAndEmptyArrays: true } }`.
fn unwind_keep_empty(path: &str) -> (r: Document)
    ensures
        unwind_keep_empty_stage(r, path@),
{
    let mut v: Vec<(String, Bson)> = Vec::new();
    v.push(pair("path", text(path)));
    v.push(pair("preserveNullAndEmptyArrays", Bson::Boolean(true)));
    doc1("$unwind", Bson::Document(doc_of(v)))
}

/// `{ "$match": { "$expr": { "$eq": ["$list", "$$list"] } } }`, with `completed_at: null`
/// when only uncompleted resources are kept.
fn same_list_match(uncompleted_only: bool) -> (r: Document)
    ensures
        same_list_match_stage(r, uncompleted_only),
{
    let mut eq: Vec<Bson> = Vec::new();
    eq.push(text("$list"));
    eq.push(text("$$list"));
    let e = doc1("$eq", Bson::Array(eq));
    let mut m: Vec<(String, Bson)> = Vec::new();
    m.push(pair("$expr", Bson::Document(e)));
    if uncompleted_only {
        m.push(pair("completed_at", Bson::Null));
    }
    let c = doc_of(m);
    let r = doc1("$match", Bson::Document(c));
    assert(c.entries@[0].1 == Bson::Document(e));
    r
}

/// The lookup of a list's resources, ordered by `sort_field` in `sort_dir`, keeping the
/// first one (of the uncompleted ones only, when asked).
fn lookup_resources(uncompleted_only: bool, sort_field: &str, sort_dir: i32) -> (r: Document)
    ensures
        resources_lookup_stage(r, uncompleted_only, sort_field@, sort_dir),
{
    let m = same_list_match(uncompleted_only);
    let sort_by = doc1(sort_field, Bson::Int32(sort_dir));
    let s = doc1("$sort", Bson::Document(sort_by));
    let t = doc1("$limit", Bson::Int32(1));
    let mut stages: Vec<Bson> = Vec::new();
    stages.push(Bson::Document(m));
    stages.push(Bson::Document(s));
    stages.push(Bson::Document(t));
    let l = doc1("list", text("$_id"));
    let mut v: Vec<(String, Bson)> = Vec::new();
    v.push(pair("from", text("resources")));
    v.push(pair("as", text("resources")));
    v.push(pair("let", Bson::Document(l)));
    v.push(pair("pipeline", Bson::Array(stages)));
    let inner = doc_of(v);
    assert(inner.entries@[2].1 == Bson::Document(l));
    assert(stages@[0] == Bson::Document(m) && stages@[1] == Bson::Document(s) && stages@[2]
        == Bson::Document(t));
    doc1("$lookup", Bson::Document(inner))
}

/// `{ "$match": { "resources": { "$ne": [] } } }`.
fn has_resources() -> (r: Document)
    ensures
        has_resources_stage(r),
{
    let ne = doc1("$ne", Bson::Array(Vec::new()));
    let m = doc1("resources", Bson::Document(ne));
    doc1("$match", Bson::Document(m))
}

/// The projection of discovered lists.
fn discover_project() -> (r: Document)
    ensures
        discover_projection(r),
{
    let mut user: Vec<(String, Bson)> = Vec::new();
    user.push(pair("id", text("$user._id")));
    user.push(pair("slug", text("$user.slug")));
    user.push(pair("name", text("$user.name")));
    user.push(pair("avatar", text("$user.avatar")));
    let u = doc_of(user);
    let mut project: Vec<(String, Bson)> = Vec::new();
    project.push(pair("_id", Bson::Boolean(false)));
    project.push(pair("id", text("$_id")));
    project.push(pair("title", text("$title")));
    project.push(pair("description", text("$description")));
    project.push(pair("tags", text("$tags")));
    project.push(pair("created_at", text("$created_at")));
    project.push(pair("slug", text("$slug")));
    project.push(pair("user", Bson::Document(u)));
    let p = doc_of(project);
    assert(p.entries@[7].1 == Bson::Document(u));
    doc1("$project", Bson::Document(p))
}

/// The projection of populated lists.
fn populated_project() -> (r: Document)
    ensures
        populated_projection(r),
{
    let mut project: Vec<(String, Bson)> = Vec::new();
    project.push(pair("_id", Bson::Boolean(false)));
    project.push(pair("id", text("$_id")));
    project.push(pair("user", text("$user")));
    project.push(pair("title", text("$title")));
    project.push(pair("description", text("$description")));
    project.push(pair("tags", text("$tags")));
    project.push(pair("slug", text("$slug")));
    project.push(pair("is_public", text("$is_public")));
    project.push(pair("created_at", text("$created_at")));
    project.push(pair("updated_at", text("$updated_at")));
    project.push(pair("archived_at", text("$archived_at")));
    project.push(pair("fork", text("$fork")));
    doc1("$project", Bson::Document(doc_of(project)))
}

/// The stages of the discovery of public lists: lists matching `query` that have at
/// least one resource, newest first, after skipping `skip` and at most `limit` of them,
/// each with its owner, shown by id, title, description, tags, creation time, slug and
/// owner.
pub fn create_discover_query(query: Document, skip: i64, limit: i64) -> (r: Vec<Document>)
    ensures
        r@.len() == 9,
        stage(r@[0], "$match"@, Bson::Document(query)),
        resources_lookup_stage(r@[1], false, "created_at"@, -1i32),
        has_resources_stage(r@[2]),
        sort_stage(r@[3], "created_at"@, -1i32),
        stage(r@[4], "$skip"@, Bson::Int64(skip)),
        stage(r@[5], "$limit"@, Bson::Int64(limit)),
        lookup_stage(r@[6], "users"@, "user"@, "_id"@, "user"@),
        single(r@[7], "$unwind"@) && is_text(first_value(r@[7]), "$user"@),
        discover_projection(r@[8]),
{
    let mut pipeline: Vec<Document> = Vec::new();
    pipeline.push(doc1("$match", Bson::Document(query)));
    pipeline.push(lookup_resources(false, "created_at", -1));
    pipeline.push(has_resources());
    pipeline.push(doc1("$sort", Bson::Document(doc1("created_at", Bson::Int32(-1)))));
    pipeline.push(doc1("$skip", Bson::Int64(skip)));
    pipeline.push(doc1("$limit", Bson::Int64(limit)));
    pipeline.push(lookup_field("users", "user", "_id", "user"));
    pipeline.push(doc1("$unwind", text("$user")));
    pipeline.push(discover_project());
    pipeline
}

/// The stages that read lists matching `query`, oldest first, each with its next
/// uncompleted resource (the one with the lowest position) and, for forks, the user and
/// list they were forked from.
pub fn create_find_populated_query(query: Document) -> (r: Vec<Document>)
    ensures
        r@.len() == 8,
        stage(r@[0], "$match"@, Bson::Document(query)),
        resources_lookup_stage(r@[1], true, "position"@, 1i32),
        sort_stage(r@[2], "created_at"@, 1i32),
        lookup_stage(r@[3], "users"@, "fork.user"@, "_id"@, "fork.user"@),
        unwind_keep_empty_stage(r@[4], "$fork.user"@),
        lookup_stage(r@[5], "lists"@, "fork.list"@, "_id"@, "fork.list"@),
        unwind_keep_empty_stage(r@[6], "$fork.list"@),
        populated_projection(r@[7]),
{
    let mut pipeline: Vec<Document> = Vec::new();
    pipeline.push(doc1("$match", Bson::Document(query)));
    pipeline.push(lookup_resources(true, "position", 1));
    pipeline.push(doc1("$sort", Bson::Document(doc1("created_at", Bson::Int32(1)))));
    pipeline.push(lookup_field("users", "fork.user", "_id", "fork.user"));
    pipeline.push(unwind_keep_empty("$fork.user"));
    pipeline.push(lookup_field("lists", "fork.list", "_id", "fork.list"));
    pipeline.push(unwind_keep_empty("$fork.list"));
    pipeline.push(populated_project());
    pipeline
}

} // verus!
