//! The RSS feed service (rssapi.net): its answers, and resources made from feed entries.
use vstd::prelude::*;
use crate::date::DateTime;
use crate::errors::Error;
use crate::models::resource::Resource;
use crate::object_id::ObjectId;
use crate::util::Url;

verus! {

/// Where the feed service is reached with an application key.
#[derive(Debug, Clone, PartialEq, Eq)]
pub struct RSS {
    pub application_key: String,
    pub base_url: String,
}

/// A notification of new feed entries.
#[derive(Debug, Clone, PartialEq, Eq)]
pub struct Webhook {
    pub webhook_reason: String,
    pub subscription_id: String,
    pub info: Option<String>,
    pub new_entries_count: usize,
    pub new_entries: Vec<Entry>,
}

/// An entry of a feed.
#[derive(Debug, Clone, PartialEq, Eq)]
pub struct Entry {
    pub title: String,
    pub link: String,
    pub description: String,
    pub time: String,
}

/// The entries of a feed.
#[derive(Debug, Clone, PartialEq, Eq)]
pub struct GetResponse {
    pub entries: Vec<Entry>,
}

/// A new subscription to a feed.
#[derive(Debug, Clone, PartialEq, Eq)]
pub struct SubscribeResponse {
    pub status: String,
    pub subscription_id: String,
    pub feed_type: String,
    pub webhook_url: String,
    pub url: String,
    pub info: Option<String>,
}

/// A removed subscription.
#[derive(Debug, Clone, PartialEq, Eq)]
pub struct UnsuscribeResponse {}

/// Whether a URL is a feed.
#[derive(Debug, Clone, PartialEq, Eq)]
pub struct ValidateResponse {
    pub valid_feed: bool,
    pub feed_type: String,
}

/// An answer of the feed service: when `ok` it carries a result, otherwise a human
/// readable error message.
#[derive(Debug, Clone, PartialEq, Eq)]
pub struct Response<T> {
    pub ok: bool,
    pub error: Option<String>,
    pub result: Option<T>,
}

impl<T> Response<T> {
    /// The result of a successful answer, or the service's error message.
    pub fn into_result(self) -> (r: Result<T, Error>)
        requires
            self.ok ==> self.result is Some,
            !self.ok ==> self.error is Some,
        ensures
            self.ok ==> r == Ok::<T, Error>(self.result->0),
            !self.ok ==> r == Err::<T, Error>(Error::RSSIntegration(self.error->0)),
    {
        if self.ok {
            match self.result {
                Some(v) => Ok(v),
                None => vstd::pervasive::unreached(),
            }
        } else {
            match self.error {
                Some(m) => Err(Error::RSSIntegration(m)),
                None => vstd::pervasive::unreached(),
            }
        }
    }
}

impl RSS {
    /// The feed service reached with an application key.
    pub fn new(application_key: String) -> (r: RSS)
        ensures
            r.application_key == application_key,
            r.base_url@ == "https://api.rssapi.net/v1/"@ + application_key@,
    {
        let base_url = "https://api.rssapi.net/v1/".to_owned().concat(application_key.as_str());
        RSS { base_url, application_key }
    }

    /// The address of an operation of the service.
    pub fn endpoint(&self, operation: &str) -> (r: String)
        ensures
            r@ == self.base_url@ + "/"@ + operation@,
    {
        self.base_url.clone().concat("/").concat(operation)
    }

    /// The query of a request for the entries of a feed: the feed URL, at most ten
    /// entries, oldest first.
    pub fn entries_query(url: &Url) -> (r: Vec<(String, String)>)
        ensures
            r@.len() == 3,
            r@[0].0@ == "url"@ && r@[0].1@ == url.view(),
            r@[1].0@ == "limit"@ && r@[1].1@ == "10"@,
            r@[2].0@ == "sort"@ && r@[2].1@ == "asc"@,
    {
        let mut r: Vec<(String, String)> = Vec::new();
        r.push(("url".to_owned(), url.to_string()));
        r.push(("limit".to_owned(), "10".to_owned()));
        r.push(("sort".to_owned(), "asc".to_owned()));
        r
    }
}

/// A resource for a feed entry, not stored yet: at position 0 (a placeholder), without
/// tags, titled and described by the entry, at the entry's parsed URL, with the page's
/// thumbnail, created and updated at `now`.
pub fn resource_from_entry(
    entry: &Entry,
    user: ObjectId,
    list: ObjectId,
    url: &Url,
    thumbnail: Option<String>,
    now: DateTime,
) -> (r: Resource)
    ensures
        r.id is None,
        r.user == user,
        r.list == list,
        r.position == 0,
        r.tags@.len() == 0,
        r.url@ == url.view(),
        r.title == Some(entry.title),
        r.description == Some(entry.description),
        r.thumbnail == thumbnail,
        r.created_at == now && r.updated_at == now,
        r.completed_at is None,
        r.html is None && r.text is None && r.author is None && r.length is None && r.publisher is None,
        r.populated_at is None,
{
    Resource {
        id: None,
        user,
        list,
        position: 0,
        tags: Vec::new(),
        url: url.to_string(),
        title: Some(entry.title.clone()),
        description: Some(entry.description.clone()),
        thumbnail,
        html: None,
        text: None,
        author: None,
        length: None,
        publisher: None,
        created_at: now,
        updated_at: now,
        completed_at: None,
        populated_at: None,
    }
}

/// The first failure among results in order, or all the values when none failed.
pub open spec fn collect_spec<T>(results: Seq<Result<T, Error>>) -> Result<Seq<T>, Error>
    decreases results.len(),
{
    if results.len() == 0 {
        Ok(Seq::empty())
    } else {
        match results[0] {
            Err(e) => Err(e),
            Ok(v) => match collect_spec(results.drop_first()) {
                Ok(rest) => Ok(seq![v] + rest),
                Err(e) => Err(e),
            },
        }
    }
}

proof fn lemma_collect_prefix<T>(results: Seq<Result<T, Error>>, i: int, vals: Seq<T>)
    requires
        0 <= i <= results.len(),
        vals.len() == i,
        forall|j: int| 0 <= j < i ==> #[trigger] results[j] == Ok::<T, Error>(vals[j]),
    ensures
        collect_spec(results) == match collect_spec(results.skip(i)) {
            Ok(rest) => Ok::<Seq<T>, Error>(vals + rest),
            Err(e) => Err(e),
        },
    decreases i,
{
    if i > 0 {
        let r1 = results.drop_first();
        assert forall|j: int| 0 <= j < i - 1 implies #[trigger] r1[j] == Ok::<T, Error>(vals.drop_first()[j]) by {
            assert(r1[j] == results[j + 1]);
        }
        lemma_collect_prefix(r1, i - 1, vals.drop_first());
        assert(r1.skip(i - 1) =~= results.skip(i));
        assert(results[0] == Ok::<T, Error>(vals[0]));
        match collect_spec(results.skip(i)) {
            Ok(rest) => {
                assert(seq![vals[0]] + (vals.drop_first() + rest) =~= vals + rest);
            },
            Err(e) => {},
        }
    } else {
        assert(results.skip(0) =~= results);
        match collect_spec(results) {
            Ok(rest) => {
                assert(vals + rest =~= rest);
            },
            Err(e) => {},
        }
    }
}

/// All the values of the results in order, or the first failure.
pub fn collect_results<T>(results: Vec<Result<T, Error>>) -> (r: Result<Vec<T>, Error>)
    ensures
        match r {
            Ok(v) => collect_spec(results@) == Ok::<Seq<T>, Error>(v@),
            Err(e) => collect_spec(results@) == Err::<Seq<T>, Error>(e),
        },
{
    let ghost all = results@;
    let mut rest = results;
    let mut out: Vec<T> = Vec::new();
    let mut i: usize = 0;
    assert(all.len() == rest.len());
    while rest.len() > 0
        invariant
            all == results@,
            all.len() <= usize::MAX,
            0 <= i <= all.len(),
            rest@ == all.skip(i as int),
            out@.len() == i,
            forall|j: int| 0 <= j < i ==> #[trigger] all[j] == Ok::<T, Error>(out@[j]),
        decreases rest@.len(),
    {
        let x = rest.remove(0);
        proof {
            lemma_collect_prefix(all, i as int, out@);
            assert(all.skip(i as int)[0] == x);
        }
        match x {
            Ok(v) => {
                out.push(v);
                i += 1;
                assert(rest@ =~= all.skip(i as int));
            },
            Err(e) => {
                assert(collect_spec(all.skip(i as int)) == Err::<Seq<T>, Error>(e));
                return Err(e);
            },
        }
    }
    proof {
        lemma_collect_prefix(all, i as int, out@);
        assert(all.skip(i as int).len() == 0);
        assert(out@ + Seq::<T>::empty() =~= out@);
    }
    Ok(out)
}

} // verus!
