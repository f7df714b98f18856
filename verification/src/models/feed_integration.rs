//! The first form of list integrations: RSS feeds and follows of other lists.
use vstd::prelude::*;
use crate::object_id::ObjectId;
use crate::text::str_equal;

verus! {

/// The kinds of integration of the first form.
#[derive(Debug, Clone, Copy, PartialEq, Eq, Structural)]
pub enum Kind {
    RSS,
    Follow,
}

/// A text that names no kind of integration.
#[derive(Debug, Clone, Copy, PartialEq, Eq, Structural)]
pub struct ParseKindError;

/// The name of a kind, as stored and sent.
pub open spec fn kind_name(k: Kind) -> Seq<char> {
    match k {
        Kind::RSS => "rss"@,
        Kind::Follow => "follow"@,
    }
}

/// The kind that a text names.
pub open spec fn kind_named(s: Seq<char>) -> Option<Kind> {
    if s == "rss"@ {
        Some(Kind::RSS)
    } else if s == "follow"@ {
        Some(Kind::Follow)
    } else {
        None
    }
}

impl Kind {
    /// The name of the kind: `rss` or `follow`.
    pub fn as_str(&self) -> (r: &'static str)
        ensures
            r@ == kind_name(*self),
    {
        match self {
            Kind::RSS => "rss",
            Kind::Follow => "follow",
        }
    }

    /// The kind that a name stands for.
    pub fn from_str(s: &str) -> (r: Result<Kind, ParseKindError>)
        ensures
            match r {
                Ok(k) => kind_named(s@) == Some(k),
                Err(_) => kind_named(s@) is None,
            },
    {
        if str_equal(s, "rss") {
            Ok(Kind::RSS)
        } else if str_equal(s, "follow") {
            Ok(Kind::Follow)
        } else {
            Err(ParseKindError)
        }
    }
}

/// Reading back the name of a kind gives the kind, and a name reads only as the kind
/// that has it.
pub proof fn lemma_kind_name_round_trip(k: Kind, s: Seq<char>)
    ensures
        kind_named(kind_name(k)) == Some(k),
        kind_named(s) == Some(k) ==> s == kind_name(k),
{
    reveal_strlit("rss");
    reveal_strlit("follow");
    assert("rss"@ != "follow"@) by {
        assert("rss"@.len() != "follow"@.len());
    }
}

/// An RSS feed subscription.
#[derive(Debug, Clone, PartialEq, Eq)]
pub struct RSS {
    pub url: String,
    pub subscription_id: String,
    pub status: String,
    pub feed_type: String,
    pub metadata: Option<String>,
}

/// A follow of another list.
#[derive(Debug, Clone, Copy, PartialEq, Eq)]
pub struct Follow {
    pub list: ObjectId,
}

} // verus!
