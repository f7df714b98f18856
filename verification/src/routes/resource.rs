//! The rules of the resource routes: searching, completing and moving resources.
use vstd::prelude::*;
use crate::date::DateTime;
use crate::document::{
    Bson, Document, doc1, doc_of, doc_where, first_value, is_text, pair, single, sort_stage, stage, text,
    text_entry,
};
use crate::errors::Error;
use crate::models::list::List;
use crate::models::resource::{Resource, ResourceUpdate};
use crate::object_id::{ObjectId, ObjectIdError, parse_object_id_bytes};
use crate::text::str_equal;
use crate::util::{Url, sanitize_tags, sanitized_tags, strings_view, to_object_id, url_parse, validate_url};
use vstd::utf8::encode_utf8;

verus! {

/// The query string of a resource search.
#[derive(Debug, Clone, PartialEq, Eq)]
pub struct ResourceQuery {
    /// Only resources of this list (hexadecimal id).
    pub list: Option<String>,
    /// Only completed (or only uncompleted) resources.
    pub completed: Option<bool>,
    /// `position_asc` or `position_des`; otherwise by time, newest first.
    pub sort: Option<String>,
    /// Full text search over title, description and tags.
    pub search_text: Option<String>,
    pub skip: Option<u32>,
    pub limit: Option<u32>,
}

/// The order of search results.
#[derive(Debug, Clone, Copy, PartialEq, Eq, Structural)]
pub enum SortKey {
    PositionAsc,
    PositionDesc,
    CompletedAtDesc,
    CreatedAtDesc,
}

/// How many typos a full text search tolerates: at most `max_edits` edits per word, and
/// none in the first `prefix_length` characters.
#[derive(Debug, Clone, Copy, PartialEq, Eq, Structural)]
pub struct Fuzzy {
    pub max_edits: u32,
    pub prefix_length: u32,
}

/// The typo tolerance of resource searches: two edits, none in the first three characters.
pub open spec fn search_fuzzy() -> Fuzzy {
    Fuzzy { max_edits: 2, prefix_length: 3 }
}

/// A stage of a search over the stored resources.
#[derive(Debug, Clone, PartialEq, Eq)]
pub enum Stage {
    /// The `search` full text index: resources of `user`, of `list` when given, and,
    /// when `text` is given, matching it in the title, description or tags (with the
    /// typo tolerance `fuzzy`, when given).
    Search { user: ObjectId, list: Option<ObjectId>, text: Option<String>, fuzzy: Option<Fuzzy> },
    /// Only completed resources (`true`) or only uncompleted ones (`false`).
    MatchCompleted(bool),
    Sort(SortKey),
    Skip(u32),
    Limit(u32),
    /// Count all resources and the completed ones.
    CountCompleted,
}

/// The order of search results that a query asks for.
pub open spec fn sort_key(q: ResourceQuery) -> SortKey {
    if q.sort is Some && q.sort->0@ == "position_asc"@ {
        SortKey::PositionAsc
    } else if q.sort is Some && q.sort->0@ == "position_des"@ {
        SortKey::PositionDesc
    } else if q.completed == Some(true) {
        SortKey::CompletedAtDesc
    } else {
        SortKey::CreatedAtDesc
    }
}

/// One stage where a condition holds, none otherwise.
pub open spec fn stage_if(c: bool, s: Stage) -> Seq<Stage> {
    if c {
        seq![s]
    } else {
        Seq::empty()
    }
}

/// The stages of a resource search: the index search, the completion filter when asked,
/// the order unless a text is searched (the search score orders then), and the skip and
/// limit when asked.
pub open spec fn query_pipeline(user: ObjectId, list: Option<ObjectId>, q: ResourceQuery) -> Seq<Stage> {
    seq![Stage::Search { user, list, text: q.search_text, fuzzy: Some(search_fuzzy()) }] + stage_if(
        q.completed is Some,
        Stage::MatchCompleted(q.completed->0),
    ) + stage_if(q.search_text is None, Stage::Sort(sort_key(q))) + stage_if(
        q.skip is Some,
        Stage::Skip(q.skip->0),
    ) + stage_if(q.limit is Some, Stage::Limit(q.limit->0))
}

/// The stages that count the resources of a search and the completed ones.
pub open spec fn metrics_pipeline(user: ObjectId, list: Option<ObjectId>, q: ResourceQuery) -> Seq<Stage> {
    seq![Stage::Search { user, list, text: q.search_text, fuzzy: None }, Stage::CountCompleted]
}

/// Whether `id` is what the optional list id text of a query parses to.
pub open spec fn list_parsed(list: Option<String>, id: Option<ObjectId>) -> bool {
    match (list, id) {
        (None, None) => true,
        (Some(s), Some(i)) => parse_object_id_bytes(encode_utf8(s@)) == Ok::<Seq<u8>, ObjectIdError>(i.bytes@),
        _ => false,
    }
}

/// Whether the list id text of a query is there and does not parse.
pub open spec fn list_unparsable(list: Option<String>) -> bool {
    list is Some && parse_object_id_bytes(encode_utf8(list->0@)) is Err
}

fn parse_list(list: &Option<String>) -> (r: Result<Option<ObjectId>, Error>)
    ensures
        match r {
            Ok(id) => list_parsed(*list, id),
            Err(e) => list_unparsable(*list) && e is ParseObjectID,
        },
{
    match list {
        Some(s) => match to_object_id(s.clone()) {
            Ok(id) => Ok(Some(id)),
            Err(e) => Err(e),
        },
        None => Ok(None),
    }
}

fn query_sort_key(q: &ResourceQuery) -> (r: SortKey)
    ensures
        r == sort_key(*q),
{
    let asc = match &q.sort {
        Some(s) => str_equal(s.as_str(), "position_asc"),
        None => false,
    };
    let des = match &q.sort {
        Some(s) => str_equal(s.as_str(), "position_des"),
        None => false,
    };
    if asc {
        SortKey::PositionAsc
    } else if des {
        SortKey::PositionDesc
    } else {
        match q.completed {
            Some(true) => SortKey::CompletedAtDesc,
            _ => SortKey::CreatedAtDesc,
        }
    }
}

fn clone_text(t: &Option<String>) -> (r: Option<String>)
    ensures
        r == *t,
{
    match t {
        Some(s) => Some(s.clone()),
        None => None,
    }
}

/// The stages of a search over a user's resources; fails when the list id of the query
/// does not parse.
pub fn build_query_pipeline(user: ObjectId, q: &ResourceQuery) -> (r: Result<Vec<Stage>, Error>)
    ensures
        match r {
            Ok(stages) => exists|list: Option<ObjectId>|
                #[trigger] list_parsed(q.list, list) && stages@ == query_pipeline(user, list, *q),
            Err(e) => list_unparsable(q.list) && e is ParseObjectID,
        },
{
    let list = match parse_list(&q.list) {
        Ok(l) => l,
        Err(e) => return Err(e),
    };
    let mut stages: Vec<Stage> = Vec::new();
    stages.push(
        Stage::Search {
            user,
            list,
            text: clone_text(&q.search_text),
            fuzzy: Some(Fuzzy { max_edits: 2, prefix_length: 3 }),
        },
    );
    match q.completed {
        Some(c) => stages.push(Stage::MatchCompleted(c)),
        None => {},
    }
    if q.search_text.is_none() {
        stages.push(Stage::Sort(query_sort_key(q)));
    }
    match q.skip {
        Some(s) => stages.push(Stage::Skip(s)),
        None => {},
    }
    match q.limit {
        Some(l) => stages.push(Stage::Limit(l)),
        None => {},
    }
    assert(stages@ =~= query_pipeline(user, list, *q));
    Ok(stages)
}

/// The stages that count a user's resources matching a query, and the completed ones;
/// fails when the list id of the query does not parse.
pub fn build_metrics_pipeline(user: ObjectId, q: &ResourceQuery) -> (r: Result<Vec<Stage>, Error>)
    ensures
        match r {
            Ok(stages) => exists|list: Option<ObjectId>|
                #[trigger] list_parsed(q.list, list) && stages@ == metrics_pipeline(user, list, *q),
            Err(e) => list_unparsable(q.list) && e is ParseObjectID,
        },
{
    let list = match parse_list(&q.list) {
        Ok(l) => l,
        Err(e) => return Err(e),
    };
    let mut stages: Vec<Stage> = Vec::new();
    stages.push(Stage::Search { user, list, text: clone_text(&q.search_text), fuzzy: None });
    stages.push(Stage::CountCompleted);
    assert(stages@ =~= metrics_pipeline(user, list, *q));
    Ok(stages)
}

/// The counts of a resource search: all the matching resources and the completed ones.
#[derive(Debug, Clone, Copy, PartialEq, Eq, Structural)]
pub struct Metric {
    pub total: i64,
    pub completed: i64,
}

/// The answer to a metrics request: the first row the count gave, or `None` (not found)
/// when it gave none.
pub fn first_metric(metrics: &Vec<Metric>) -> (r: Option<Metric>)
    ensures
        r == if metrics@.len() > 0 { Some(metrics@[0]) } else { None::<Metric> },
{
    if metrics.len() > 0 {
        Some(metrics[0])
    } else {
        None
    }
}

/// A `u32` as a BSON number: a 32 bit integer when it fits, a 64 bit one otherwise.
pub open spec fn u32_bson(n: u32) -> Bson {
    if n <= i32::MAX {
        Bson::Int32(n as i32)
    } else {
        Bson::Int64(n as i64)
    }
}

fn u32_value(n: u32) -> (r: Bson)
    ensures
        r == u32_bson(n),
{
    if n <= 2147483647 {
        Bson::Int32(n as i32)
    } else {
        Bson::Int64(n as i64)
    }
}

/// Whether a value is `{ equals: { path, value: id } }`.
pub open spec fn equals_clause(b: Bson, path: Seq<char>, id: ObjectId) -> bool {
    doc_where(
        b,
        |e: Document|
            single(e, "equals"@) && doc_where(
                first_value(e),
                |q: Document|
                    {
                        &&& q.entries@.len() == 2
                        &&& text_entry(q, 0, "path"@, path)
                        &&& q.entries@[1].0@ == "value"@
                        &&& q.entries@[1].1 == Bson::ObjectId(id)
                    },
            ),
    )
}

/// Whether a value is `{ text: { query, path: ["title", "description", "tags"] } }`, with
/// `fuzzy: { maxEdits, prefixLength }` when a typo tolerance is given.
pub open spec fn text_clause(b: Bson, query: Seq<char>, fuzzy: Option<Fuzzy>) -> bool {
    doc_where(
        b,
        |t: Document|
            single(t, "text"@) && doc_where(
                first_value(t),
                |q: Document|
                    {
                        &&& q.entries@.len() == if fuzzy is Some { 3int } else { 2int }
                        &&& text_entry(q, 0, "query"@, query)
                        &&& q.entries@[1].0@ == "path"@
                        &&& match q.entries@[1].1 {
                            Bson::Array(a) => a@.len() == 3 && is_text(a@[0], "title"@) && is_text(
                                a@[1],
                                "description"@,
                            ) && is_text(a@[2], "tags"@),
                            _ => false,
                        }
                        &&& match fuzzy {
                            Some(f) => q.entries@[2].0@ == "fuzzy"@ && doc_where(
                                q.entries@[2].1,
                                |z: Document|
                                    {
                                        &&& z.entries@.len() == 2
                                        &&& z.entries@[0].0@ == "maxEdits"@
                                        &&& z.entries@[0].1 == u32_bson(f.max_edits)
                                        &&& z.entries@[1].0@ == "prefixLength"@
                                        &&& z.entries@[1].1 == u32_bson(f.prefix_length)
                                    },
                            ),
                            None => true,
                        }
                    },
            ),
    )
}

/// Whether a document is the `$search` stage over the `search` index: resources of
/// `user` (and of `list`, when given) in `filter`, and the text clause in `must` when a
/// text is searched.
pub open spec fn search_document(
    d: Document,
    user: ObjectId,
    list: Option<ObjectId>,
    query: Option<Seq<char>>,
    fuzzy: Option<Fuzzy>,
) -> bool {
    single(d, "$search"@) && doc_where(
        first_value(d),
        |s: Document|
            {
                &&& s.entries@.len() == 2
                &&& text_entry(s, 0, "index"@, "search"@)
                &&& s.entries@[1].0@ == "compound"@
                &&& doc_where(
                    s.entries@[1].1,
                    |c: Document|
                        {
                            &&& c.entries@.len() == 2
                            &&& c.entries@[0].0@ == "filter"@
                            &&& match c.entries@[0].1 {
                                Bson::Array(f) => match list {
                                    Some(l) => f@.len() == 2 && equals_clause(f@[0], "user"@, user)
                                        && equals_clause(f@[1], "list"@, l),
                                    None => f@.len() == 1 && equals_clause(f@[0], "user"@, user),
                                },
                                _ => false,
                            }
                            &&& c.entries@[1].0@ == "must"@
                            &&& match c.entries@[1].1 {
                                Bson::Array(m) => match query {
                                    Some(t) => m@.len() == 1 && text_clause(m@[0], t, fuzzy),
                                    None => m@.len() == 0,
                                },
                                _ => false,
                            }
                        },
                )
            },
    )
}

/// Whether a document is `{ "$match": { completed_at: { "$ne": null } } }` (only
/// completed resources) or the same with `$eq` (only uncompleted ones).
pub open spec fn completed_match_document(d: Document, completed: bool) -> bool {
    single(d, "$match"@) && doc_where(
        first_value(d),
        |m: Document|
            single(m, "completed_at"@) && doc_where(
                first_value(m),
                |k: Document|
                    stage(
                        k,
                        if completed {
                            "$ne"@
                        } else {
                            "$eq"@
                        },
                        Bson::Null,
                    ),
            ),
    )
}

/// Whether a document is the `$group` stage that counts all resources (`total`) and the
/// completed ones (`completed`: one for each whose `completed_at` is not null).
pub open spec fn count_document(d: Document) -> bool {
    single(d, "$group"@) && doc_where(
        first_value(d),
        |g: Document|
            {
                &&& g.entries@.len() == 3
                &&& g.entries@[0].0@ == "_id"@ && g.entries@[0].1 == Bson::Null
                &&& g.entries@[1].0@ == "total"@
                &&& doc_where(g.entries@[1].1, |t: Document| stage(t, "$sum"@, Bson::Int32(1)))
                &&& g.entries@[2].0@ == "completed"@
                &&& doc_where(
                    g.entries@[2].1,
                    |c: Document|
                        single(c, "$sum"@) && doc_where(
                            first_value(c),
                            |cond: Document|
                                single(cond, "$cond"@) && match first_value(cond) {
                                    Bson::Array(a) => {
                                        &&& a@.len() == 3
                                        &&& doc_where(
                                            a@[0],
                                            |e: Document|
                                                single(e, "$eq"@) && match first_value(e) {
                                                    Bson::Array(x) => x@.len() == 2 && is_text(
                                                        x@[0],
                                                        "$completed_at"@,
                                                    ) && x@[1] == Bson::Null,
                                                    _ => false,
                                                },
                                        )
                                        &&& a@[1] == Bson::Int32(0)
                                        &&& a@[2] == Bson::Int32(1)
                                    },
                                    _ => false,
                                },
                        ),
                )
            },
    )
}

/// The field that a sort key orders by.
pub open spec fn sort_field(k: SortKey) -> Seq<char> {
    match k {
        SortKey::PositionAsc => "position"@,
        SortKey::PositionDesc => "position"@,
        SortKey::CompletedAtDesc => "completed_at"@,
        SortKey::CreatedAtDesc => "created_at"@,
    }
}

/// The direction of a sort key: 1 ascending, -1 descending.
pub open spec fn sort_direction(k: SortKey) -> i32 {
    match k {
        SortKey::PositionAsc => 1i32,
        _ => -1i32,
    }
}

/// The optional text of a string.
pub open spec fn opt_text_view(t: Option<String>) -> Option<Seq<char>> {
    match t {
        Some(s) => Some(s@),
        None => None,
    }
}

/// Whether `d` is the database form of a search stage.
pub open spec fn stage_document_of(s: Stage, d: Document) -> bool {
    match s {
        Stage::Search { user, list, text, fuzzy } => search_document(d, user, list, opt_text_view(text), fuzzy),
        Stage::MatchCompleted(c) => completed_match_document(d, c),
        Stage::Sort(k) => sort_stage(d, sort_field(k), sort_direction(k)),
        Stage::Skip(n) => stage(d, "$skip"@, u32_bson(n)),
        Stage::Limit(n) => stage(d, "$limit"@, u32_bson(n)),
        Stage::CountCompleted => count_document(d),
    }
}

fn equals_value(path: &str, id: ObjectId) -> (r: Bson)
    ensures
        equals_clause(r, path@, id),
{
    let mut q: Vec<(String, Bson)> = Vec::new();
    q.push(pair("path", text(path)));
    q.push(pair("value", Bson::ObjectId(id)));
    let e = doc1("equals", Bson::Document(doc_of(q)));
    Bson::Document(e)
}

fn text_value(query: &String, fuzzy: Option<Fuzzy>) -> (r: Bson)
    ensures
        text_clause(r, query@, fuzzy),
{
    let mut paths: Vec<Bson> = Vec::new();
    paths.push(text("title"));
    paths.push(text("description"));
    paths.push(text("tags"));
    let mut q: Vec<(String, Bson)> = Vec::new();
    q.push(pair("query", Bson::String(query.clone())));
    q.push(pair("path", Bson::Array(paths)));
    match fuzzy {
        Some(f) => {
            let mut z: Vec<(String, Bson)> = Vec::new();
            z.push(pair("maxEdits", u32_value(f.max_edits)));
            z.push(pair("prefixLength", u32_value(f.prefix_length)));
            let zd = doc_of(z);
            q.push(pair("fuzzy", Bson::Document(zd)));
            assert(q@[2].1 == Bson::Document(zd));
        },
        None => {},
    }
    let qd = doc_of(q);
    let t = doc1("text", Bson::Document(qd));
    Bson::Document(t)
}

fn search_value(user: ObjectId, list: Option<ObjectId>, query: &Option<String>, fuzzy: Option<Fuzzy>) -> (r:
    Document)
    ensures
        search_document(r, user, list, opt_text_view(*query), fuzzy),
{
    let mut filter: Vec<Bson> = Vec::new();
    filter.push(equals_value("user", user));
    match list {
        Some(l) => filter.push(equals_value("list", l)),
        None => {},
    }
    let mut must: Vec<Bson> = Vec::new();
    match query {
        Some(t) => must.push(text_value(t, fuzzy)),
        None => {},
    }
    let mut c: Vec<(String, Bson)> = Vec::new();
    c.push(pair("filter", Bson::Array(filter)));
    c.push(pair("must", Bson::Array(must)));
    let cd = doc_of(c);
    let mut s: Vec<(String, Bson)> = Vec::new();
    s.push(pair("index", text("search")));
    s.push(pair("compound", Bson::Document(cd)));
    let sd = doc_of(s);
    assert(sd.entries@[1].1 == Bson::Document(cd));
    doc1("$search", Bson::Document(sd))
}

fn count_value() -> (r: Document)
    ensures
        count_document(r),
{
    let mut x: Vec<Bson> = Vec::new();
    x.push(text("$completed_at"));
    x.push(Bson::Null);
    let e = doc1("$eq", Bson::Array(x));
    let mut a: Vec<Bson> = Vec::new();
    a.push(Bson::Document(e));
    a.push(Bson::Int32(0));
    a.push(Bson::Int32(1));
    let cond = doc1("$cond", Bson::Array(a));
    let sum = doc1("$sum", Bson::Document(cond));
    let total = doc1("$sum", Bson::Int32(1));
    let mut g: Vec<(String, Bson)> = Vec::new();
    g.push(pair("_id", Bson::Null));
    g.push(pair("total", Bson::Document(total)));
    g.push(pair("completed", Bson::Document(sum)));
    let gd = doc_of(g);
    assert(gd.entries@[1].1 == Bson::Document(total) && gd.entries@[2].1 == Bson::Document(sum));
    assert(a@[0] == Bson::Document(e));
    doc1("$group", Bson::Document(gd))
}

/// The database form of a search stage.
pub fn stage_document(s: &Stage) -> (r: Document)
    ensures
        stage_document_of(*s, r),
{
    match s {
        Stage::Search { user, list, text: query, fuzzy } => search_value(*user, *list, query, *fuzzy),
        Stage::MatchCompleted(c) => {
            let key = if *c {
                "$ne"
            } else {
                "$eq"
            };
            let k = doc1(key, Bson::Null);
            let m = doc1("completed_at", Bson::Document(k));
            doc1("$match", Bson::Document(m))
        },
        Stage::Sort(k) => {
            let (field, dir): (&str, i32) = match k {
                SortKey::PositionAsc => ("position", 1),
                SortKey::PositionDesc => ("position", -1),
                SortKey::CompletedAtDesc => ("completed_at", -1),
                SortKey::CreatedAtDesc => ("created_at", -1),
            };
            doc1("$sort", Bson::Document(doc1(field, Bson::Int32(dir))))
        },
        Stage::Skip(n) => doc1("$skip", u32_value(*n)),
        Stage::Limit(n) => doc1("$limit", u32_value(*n)),
        Stage::CountCompleted => count_value(),
    }
}

/// The database form of a search: each stage in order.
pub fn pipeline_documents(stages: &Vec<Stage>) -> (r: Vec<Document>)
    ensures
        r@.len() == stages@.len(),
        forall|i: int| 0 <= i < stages@.len() ==> stage_document_of(#[trigger] stages@[i], r@[i]),
{
    let mut out: Vec<Document> = Vec::new();
    let mut i: usize = 0;
    while i < stages.len()
        invariant
            i <= stages@.len(),
            out@.len() == i,
            forall|j: int| 0 <= j < i ==> stage_document_of(#[trigger] stages@[j], out@[j]),
        decreases stages.len() - i,
    {
        out.push(stage_document(&stages[i]));
        i += 1;
    }
    out
}

/// Search results come in the order asked for: `position_asc` by position lowest first,
/// `position_des` by position highest first; otherwise completed-only searches by
/// completion time and the others by creation time, newest first.
pub proof fn lemma_sort_key_choice(q: ResourceQuery)
    ensures
        q.sort is Some && q.sort->0@ == "position_asc"@ ==> sort_key(q) == SortKey::PositionAsc,
        q.sort is Some && q.sort->0@ == "position_des"@ ==> sort_key(q) == SortKey::PositionDesc,
        !(q.sort is Some && (q.sort->0@ == "position_asc"@ || q.sort->0@ == "position_des"@))
            ==> sort_key(q) == if q.completed == Some(true) {
            SortKey::CompletedAtDesc
        } else {
            SortKey::CreatedAtDesc
        },
{
    reveal_strlit("position_asc");
    reveal_strlit("position_des");
    assert("position_asc"@[10] != "position_des"@[10]);
}

/// The database form of each order: position ascending (1) for `position_asc`, and
/// descending (-1) on position, completion time or creation time for the others, so the
/// two position orders are opposite.
pub proof fn lemma_sort_stage_directions(d: Document)
    ensures
        stage_document_of(Stage::Sort(SortKey::PositionAsc), d) ==> sort_stage(d, "position"@, 1i32),
        stage_document_of(Stage::Sort(SortKey::PositionDesc), d) ==> sort_stage(d, "position"@, -1i32),
        stage_document_of(Stage::Sort(SortKey::CompletedAtDesc), d) ==> sort_stage(
            d,
            "completed_at"@,
            -1i32,
        ),
        stage_document_of(Stage::Sort(SortKey::CreatedAtDesc), d) ==> sort_stage(d, "created_at"@, -1i32),
{
}

/// Why marking a resource complete, or not complete, is refused.
#[derive(Debug, Clone, Copy, PartialEq, Eq, Structural)]
pub enum CompletionRefused {
    AlreadyCompleted,
    NotCompleted,
}

/// The completion time after a request to complete a resource (`complete`) or to undo
/// its completion, at time `now`.
pub open spec fn completion_after(
    current: Option<DateTime>,
    complete: bool,
    now: DateTime,
) -> Result<Option<DateTime>, CompletionRefused> {
    if complete {
        if current is Some {
            Err(CompletionRefused::AlreadyCompleted)
        } else {
            Ok(Some(now))
        }
    } else {
        if current is None {
            Err(CompletionRefused::NotCompleted)
        } else {
            Ok(None)
        }
    }
}

/// The completion time after completing a resource (refused when it is completed) or
/// undoing its completion (refused when it is not), at time `now`.
pub fn completion_change(current: Option<DateTime>, complete: bool, now: DateTime) -> (r: Result<
    Option<DateTime>,
    CompletionRefused,
>)
    ensures
        r == completion_after(current, complete, now),
{
    if complete {
        if current.is_some() {
            Err(CompletionRefused::AlreadyCompleted)
        } else {
            Ok(Some(now))
        }
    } else {
        if current.is_none() {
            Err(CompletionRefused::NotCompleted)
        } else {
            Ok(None)
        }
    }
}

/// Completing a resource and then undoing it leaves it uncompleted; a completed resource
/// cannot be completed again, nor an uncompleted one uncompleted.
pub proof fn lemma_completion_round_trip(current: Option<DateTime>, t1: DateTime, t2: DateTime)
    ensures
        current is None ==> completion_after(current, true, t1) == Ok::<
            Option<DateTime>,
            CompletionRefused,
        >(Some(t1)) && completion_after(Some(t1), false, t2) == Ok::<
            Option<DateTime>,
            CompletionRefused,
        >(None),
        current is Some ==> completion_after(current, true, t1) == Err::<
            Option<DateTime>,
            CompletionRefused,
        >(CompletionRefused::AlreadyCompleted),
        current is None ==> completion_after(current, false, t1) == Err::<
            Option<DateTime>,
            CompletionRefused,
        >(CompletionRefused::NotCompleted),
{
}

/// The position a resource moves to when placed after the resource at `previous`, or at
/// the top of its list when there is none.
pub fn position_after(previous: Option<i32>) -> (r: i32)
    requires
        previous != Some(i32::MAX),
    ensures
        r == match previous {
            Some(p) => p + 1,
            None => 0,
        },
{
    match previous {
        Some(p) => p + 1,
        None => 0,
    }
}

/// The positions in a list after a resource moves to position `to`: it takes `to`, the
/// other resources at `to` or after move one down, and the rest stay.
pub open spec fn reposition(entries: Seq<(Seq<u8>, int)>, moved: Seq<u8>, to: int) -> Seq<(Seq<u8>, int)> {
    entries.map_values(
        |e: (Seq<u8>, int)|
            if e.0 == moved {
                (e.0, to)
            } else if e.1 >= to {
                (e.0, e.1 + 1)
            } else {
                e
            },
    )
}

/// Whether no two resources of a list share a position.
pub open spec fn distinct_positions(entries: Seq<(Seq<u8>, int)>) -> bool {
    forall|i: int, j: int|
        0 <= i < entries.len() && 0 <= j < entries.len() && i != j ==> #[trigger] entries[i].1
            != #[trigger] entries[j].1
}

/// Moving a resource keeps the positions of a list distinct, whatever they were before
/// for other resources, as long as the resource appears once in the list.
pub proof fn lemma_reposition_keeps_positions_distinct(
    entries: Seq<(Seq<u8>, int)>,
    moved: Seq<u8>,
    to: int,
)
    requires
        distinct_positions(entries),
        forall|i: int, j: int|
            0 <= i < entries.len() && 0 <= j < entries.len() && i != j && #[trigger] entries[i].0
                == moved ==> #[trigger] entries[j].0 != moved,
    ensures
        distinct_positions(reposition(entries, moved, to)),
{
    let r = reposition(entries, moved, to);
    assert forall|i: int, j: int| 0 <= i < r.len() && 0 <= j < r.len() && i != j implies #[trigger] r[i].1
        != #[trigger] r[j].1 by {
        assert(entries[i].1 != entries[j].1);
    }
}

/// Which resources a position shift moves down: the user's resources of the list, other
/// than `not_id`, at `min_position` or after.
#[derive(Debug, Clone, Copy, PartialEq, Eq)]
pub struct ShiftFilter {
    pub not_id: ObjectId,
    pub user: ObjectId,
    pub list: ObjectId,
    pub min_position: i32,
}

/// What moving a resource writes: first every resource that `filter` selects has its
/// position raised by `increment`, then `resource` takes `position`.
#[derive(Debug, Clone, Copy, PartialEq, Eq)]
pub struct PositionShift {
    pub resource: ObjectId,
    pub position: i32,
    pub filter: ShiftFilter,
    pub increment: i32,
}

/// The positions of a user's list after a shift is written: the selected resources move
/// down by the increment, then the moved resource takes its position.
pub open spec fn apply_shift(entries: Seq<(Seq<u8>, int)>, shift: PositionShift) -> Seq<(Seq<u8>, int)> {
    entries.map_values(
        |e: (Seq<u8>, int)|
            if e.0 != shift.filter.not_id.bytes@ && e.1 >= shift.filter.min_position {
                (e.0, e.1 + shift.increment)
            } else {
                e
            },
    ).map_values(
        |e: (Seq<u8>, int)|
            if e.0 == shift.resource.bytes@ {
                (e.0, shift.position as int)
            } else {
                e
            },
    )
}

/// The shift that moves `resource` of the user's `list` after the resource at position
/// `previous` (to the top when there is none): it takes the next position, and the other
/// resources from that position on move down by one.
pub fn position_shift(resource: ObjectId, user: ObjectId, list: ObjectId, previous: Option<i32>) -> (r:
    PositionShift)
    requires
        previous != Some(i32::MAX),
    ensures
        r.resource == resource,
        r.position == match previous {
            Some(p) => p + 1,
            None => 0,
        },
        r.filter == (ShiftFilter { not_id: resource, user, list, min_position: r.position }),
        r.increment == 1,
{
    let position = position_after(previous);
    PositionShift {
        resource,
        position,
        filter: ShiftFilter { not_id: resource, user, list, min_position: position },
        increment: 1,
    }
}

/// Writing a shift made for a resource and its new position gives the list the positions
/// of moving that resource there.
pub proof fn lemma_shift_is_reposition(entries: Seq<(Seq<u8>, int)>, shift: PositionShift)
    requires
        shift.filter.not_id == shift.resource,
        shift.filter.min_position == shift.position,
        shift.increment == 1,
    ensures
        apply_shift(entries, shift) == reposition(entries, shift.resource.bytes@, shift.position as int),
{
    assert(apply_shift(entries, shift) =~= reposition(entries, shift.resource.bytes@, shift.position as int));
}

/// Writing the shift of a move keeps the positions of a list distinct, as long as the
/// moved resource appears once in it.
pub proof fn lemma_shift_keeps_positions_distinct(entries: Seq<(Seq<u8>, int)>, shift: PositionShift)
    requires
        distinct_positions(entries),
        forall|i: int, j: int|
            0 <= i < entries.len() && 0 <= j < entries.len() && i != j && #[trigger] entries[i].0
                == shift.resource.bytes@ ==> #[trigger] entries[j].0 != shift.resource.bytes@,
        shift.filter.not_id == shift.resource,
        shift.filter.min_position == shift.position,
        shift.increment == 1,
    ensures
        distinct_positions(apply_shift(entries, shift)),
{
    lemma_shift_is_reposition(entries, shift);
    lemma_reposition_keeps_positions_distinct(entries, shift.resource.bytes@, shift.position as int);
}

/// A request to move a resource, with the list id parsed.
#[derive(Debug, Clone, PartialEq, Eq)]
pub struct PositionPlan {
    pub resource: ObjectId,
    pub user: ObjectId,
    pub list: ObjectId,
    /// The resource to place it after (hexadecimal id), if any.
    pub previous: Option<String>,
}

/// What the position route does next.
#[derive(Debug, Clone, PartialEq, Eq)]
pub enum PositionAction {
    /// Answer that the resource is not found.
    NotFound,
    /// Look up the position of this resource of the user's list.
    LookupPrevious(ObjectId),
    /// Write the shift, then answer that the move is accepted.
    Apply(PositionShift),
}

/// Whether an action writes the shift that moves the planned resource to `position` in
/// the user's list.
pub open spec fn moves_to(a: PositionAction, plan: PositionPlan, position: int) -> bool {
    match a {
        PositionAction::Apply(shift) => {
            &&& shift.resource == plan.resource
            &&& shift.position == position
            &&& shift.filter == (ShiftFilter {
                not_id: plan.resource,
                user: plan.user,
                list: plan.list,
                min_position: shift.position,
            })
            &&& shift.increment == 1
        },
        _ => false,
    }
}

/// The plan of a request that moves `resource` of `user`; fails when the list id does not
/// parse.
pub fn position_plan(resource: ObjectId, user: ObjectId, body: &PositionUpdate) -> (r: Result<
    PositionPlan,
    Error,
>)
    ensures
        match r {
            Ok(plan) => plan.resource == resource && plan.user == user && parse_object_id_bytes(
                encode_utf8(body.list@),
            ) == Ok::<Seq<u8>, ObjectIdError>(plan.list.bytes@) && plan.previous == body.previus,
            Err(e) => parse_object_id_bytes(encode_utf8(body.list@)) is Err && e is ParseObjectID,
        },
{
    match to_object_id(body.list.clone()) {
        Ok(list) => Ok(PositionPlan { resource, user, list, previous: clone_text(&body.previus) }),
        Err(e) => Err(e),
    }
}

/// The next step once it is known whether the resource is in the user's list: not found
/// when it is not; the move to the top when no previous resource is given; otherwise the
/// lookup of the previous one, which fails when its id does not parse.
pub fn position_after_exists(plan: &PositionPlan, exists: bool) -> (r: Result<PositionAction, Error>)
    ensures
        !exists ==> r == Ok::<PositionAction, Error>(PositionAction::NotFound),
        exists && plan.previous is None ==> r is Ok && moves_to(r->Ok_0, *plan, 0),
        exists && plan.previous is Some ==> match r {
            Ok(a) => a matches PositionAction::LookupPrevious(id) && parse_object_id_bytes(
                encode_utf8(plan.previous->0@),
            ) == Ok::<Seq<u8>, ObjectIdError>(id.bytes@),
            Err(e) => parse_object_id_bytes(encode_utf8(plan.previous->0@)) is Err && e is ParseObjectID,
        },
{
    if !exists {
        return Ok(PositionAction::NotFound);
    }
    match &plan.previous {
        None => Ok(PositionAction::Apply(position_shift(plan.resource, plan.user, plan.list, None))),
        Some(p) => match to_object_id(p.clone()) {
            Ok(id) => Ok(PositionAction::LookupPrevious(id)),
            Err(e) => Err(e),
        },
    }
}

/// The next step once the position of the previous resource is looked up: not found when
/// it is not in the user's list, otherwise the move to the position after it.
pub fn position_after_lookup(plan: &PositionPlan, found: Option<i32>) -> (r: PositionAction)
    requires
        found != Some(i32::MAX),
    ensures
        found is None ==> r == PositionAction::NotFound,
        found matches Some(p) ==> moves_to(r, *plan, p + 1),
{
    match found {
        None => PositionAction::NotFound,
        Some(p) => PositionAction::Apply(position_shift(plan.resource, plan.user, plan.list, Some(p))),
    }
}

/// Whether an update moves a resource to another list, so that it needs a position at
/// the end of that list.
pub fn moves_to_other_list(current: &ObjectId, update: &ResourceUpdate) -> (r: bool)
    ensures
        r == (update.list is Some && update.list->0.bytes@ != current.bytes@),
{
    match &update.list {
        Some(list) => !current.equals(list),
        None => false,
    }
}

/// The body of a request that creates a resource.
#[derive(Debug, Clone, PartialEq, Eq)]
pub struct ResourceCreate {
    pub list: String,
    pub url: String,
    pub title: Option<String>,
    pub description: Option<String>,
    pub thumbnail: Option<String>,
    pub tags: Option<Vec<String>>,
}

/// The body of a request that moves a resource after another one (`previus`), or to the
/// top of its list.
#[derive(Debug, Clone, PartialEq, Eq)]
pub struct PositionUpdate {
    pub list: String,
    pub previus: Option<String>,
}

/// Whether a resource may be created in the list that the lookup of the user's list
/// found: the list exists and the user owns it (otherwise the request is a bad one).
pub fn list_accepts_resource(list: &Option<List>, user: &ObjectId) -> (r: bool)
    ensures
        r == (list is Some && list->0.user.bytes@ == user.bytes@),
{
    match list {
        Some(l) => l.user.equals(user),
        None => false,
    }
}

/// The tags of a new resource: the sanitized given tags, or none.
pub open spec fn new_resource_tags(tags: Option<Vec<String>>) -> Seq<Seq<char>> {
    match tags {
        Some(t) => sanitized_tags(strings_view(t@)),
        None => Seq::empty(),
    }
}

/// The resource a request creates at `position` of a list, at time `now`, with its URL
/// parsed; `None` when the URL of the resource would not pass validation.
pub fn new_resource(
    body: ResourceCreate,
    user: ObjectId,
    list: ObjectId,
    url: &Url,
    position: i32,
    now: DateTime,
) -> (r: Option<Resource>)
    ensures
        match r {
            Some(res) => url_parse(url.view()) is Some && res.id is None && res.user == user
                && res.list == list && res.url@ == url.view() && res.position == position
                && res.title == body.title && res.description == body.description
                && res.thumbnail == body.thumbnail && strings_view(res.tags@) == new_resource_tags(
                body.tags,
            ) && res.created_at == now && res.updated_at == now && res.completed_at is None
                && res.html is None && res.text is None && res.author is None && res.length is None
                && res.publisher is None && res.populated_at is None,
            None => url_parse(url.view()) is None,
        },
{
    let tags = match body.tags {
        Some(t) => sanitize_tags(t),
        None => Vec::new(),
    };
    if !validate_url(url.as_str()) {
        return None;
    }
    Some(
        Resource {
            id: None,
            position,
            tags,
            user,
            list,
            url: url.to_string(),
            title: body.title,
            description: body.description,
            thumbnail: body.thumbnail,
            created_at: now,
            updated_at: now,
            completed_at: None,
            html: None,
            text: None,
            author: None,
            length: None,
            publisher: None,
            populated_at: None,
        },
    )
}

} // verus!
