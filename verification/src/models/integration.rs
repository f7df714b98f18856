//! Integrations of a list: RSS feeds and subscriptions to other lists.
use vstd::prelude::*;
use crate::date::DateTime;
use crate::object_id::ObjectId;
use crate::text::str_equal;

verus! {

/// The kinds of integration.
#[derive(Debug, Clone, Copy, PartialEq, Eq, Structural)]
pub enum Kind {
    Rss,
    ListasSubscription,
}

/// A text that names no kind of integration.
#[derive(Debug, Clone, Copy, PartialEq, Eq, Structural)]
pub struct ParseKindError;

/// The name of a kind of integration, as stored and sent.
pub open spec fn kind_name(k: Kind) -> Seq<char> {
    match k {
        Kind::Rss => "rss"@,
        Kind::ListasSubscription => "listas-subscription"@,
    }
}

/// The kind of integration that a text names.
pub open spec fn kind_named(s: Seq<char>) -> Option<Kind> {
    if s == "rss"@ {
        Some(Kind::Rss)
    } else if s == "listas-subscription"@ {
        Some(Kind::ListasSubscription)
    } else {
        None
    }
}

impl Kind {
    /// The name of the kind: `rss` or `listas-subscription`.
    pub fn as_str(&self) -> (r: &'static str)
        ensures
            r@ == kind_name(*self),
    {
        match self {
            Kind::Rss => "rss",
            Kind::ListasSubscription => "listas-subscription",
        }
    }

    /// The kind that a name stands for.
    pub fn from_str(s: &str) -> (r: Result<Kind, ParseKindError>)
        ensures
            match r {
                Ok(k) => kind_named(s@) == Some(k),
                Err(_) => kind_named(s@) is None,
            },
    {
        if str_equal(s, "rss") {
            Ok(Kind::Rss)
        } else if str_equal(s, "listas-subscription") {
            Ok(Kind::ListasSubscription)
        } else {
            Err(ParseKindError)
        }
    }
}

/// Reading back the name of a kind gives the kind, and a name reads only as the kind
/// that has it.
pub proof fn lemma_kind_name_round_trip(k: Kind, s: Seq<char>)
    ensures
        kind_named(kind_name(k)) == Some(k),
        kind_named(s) == Some(k) ==> s == kind_name(k),
{
    reveal_strlit("rss");
    reveal_strlit("listas-subscription");
    assert("rss"@ != "listas-subscription"@) by {
        assert("rss"@.len() != "listas-subscription"@.len());
    }
}

/// An RSS feed that feeds a list.
#[derive(Debug, Clone, PartialEq, Eq)]
pub struct Rss {
    pub url: String,
    pub subscription_id: String,
    /// The metadata the feed service returned, as JSON text.
    pub metadata: Option<String>,
}

/// A subscription of a list to another list.
#[derive(Debug, Clone, Copy, PartialEq, Eq)]
pub struct ListasSubscription {
    pub list: ObjectId,
}

/// A subscription of a list to another list, as its owner sees it.
#[derive(Debug, Clone, Copy, PartialEq, Eq)]
pub struct PrivateListasSubscription {
    pub list: ObjectId,
}

/// An integration of a list.
#[derive(Debug, Clone, PartialEq, Eq)]
pub struct Integration {
    pub id: Option<ObjectId>,
    pub user: ObjectId,
    pub list: ObjectId,
    pub kind: Kind,
    pub created_at: DateTime,
    pub updated_at: DateTime,
    pub rss: Option<Rss>,
    pub listas_subscription: Option<ListasSubscription>,
}

/// An integration as its owner sees it.
#[derive(Debug, Clone, PartialEq, Eq)]
pub struct PrivateIntegration {
    pub id: ObjectId,
    pub user: ObjectId,
    pub list: ObjectId,
    pub kind: Kind,
    pub created_at: DateTime,
    pub updated_at: DateTime,
    pub rss: Option<Rss>,
    pub listas_subscription: Option<PrivateListasSubscription>,
}

impl Integration {
    /// The feed subscription to cancel when the integration is removed: that of an RSS
    /// integration, none for the other kinds.
    pub fn subscription_to_cancel(&self) -> (r: Option<String>)
        requires
            self.kind == Kind::Rss ==> self.rss is Some,
        ensures
            r == if self.kind == Kind::Rss { Some(self.rss->0.subscription_id) } else { None::<String> },
    {
        match self.kind {
            Kind::Rss => match &self.rss {
                Some(rss) => Some(rss.subscription_id.clone()),
                None => vstd::pervasive::unreached(),
            },
            _ => None,
        }
    }
}

impl PrivateListasSubscription {
    /// A subscription as its owner sees it.
    pub fn from(s: ListasSubscription) -> (r: PrivateListasSubscription)
        ensures
            r.list == s.list,
    {
        PrivateListasSubscription { list: s.list }
    }
}

impl PrivateIntegration {
    /// A stored integration as its owner sees it.
    pub fn from(integration: Integration) -> (r: PrivateIntegration)
        requires
            integration.id is Some,
        ensures
            r == (PrivateIntegration {
                id: integration.id->0,
                user: integration.user,
                list: integration.list,
                kind: integration.kind,
                created_at: integration.created_at,
                updated_at: integration.updated_at,
                rss: integration.rss,
                listas_subscription: match integration.listas_subscription {
                    Some(s) => Some(PrivateListasSubscription { list: s.list }),
                    None => None,
                },
            }),
    {
        let id = match integration.id {
            Some(id) => id,
            None => vstd::pervasive::unreached(),
        };
        let listas_subscription = match integration.listas_subscription {
            Some(s) => Some(PrivateListasSubscription::from(s)),
            None => None,
        };
        PrivateIntegration {
            id,
            user: integration.user,
            list: integration.list,
            kind: integration.kind,
            created_at: integration.created_at,
            updated_at: integration.updated_at,
            rss: integration.rss,
            listas_subscription,
        }
    }
}

} // verus!
