//! Reading bearer tokens from requests and who a request is authenticated as.
use vstd::prelude::*;
use crate::errors::Error;
use crate::models::user::{UserID, UserPublic};
use crate::object_id::{ObjectId, ObjectIdError, parse_object_id_bytes};
use crate::text::{chars_of, string_of};
use vstd::utf8::encode_utf8;

verus! {

/// The text that precedes a token in an authorization header.
pub open spec fn bearer_prefix() -> Seq<char> {
    seq!['B', 'e', 'a', 'r', 'e', 'r', ' ']
}

/// A text with every occurrence of `p` removed, as `str::replace(p, "")` gives it:
/// occurrences are found from the left and do not overlap.
pub open spec fn remove_all(s: Seq<char>, p: Seq<char>) -> Seq<char>
    decreases s.len(),
{
    if s.len() == 0 || p.len() == 0 {
        s
    } else if s.len() >= p.len() && s.take(p.len() as int) == p {
        remove_all(s.skip(p.len() as int), p)
    } else {
        seq![s[0]] + remove_all(s.drop_first(), p)
    }
}

fn matches_bearer_at(v: &Vec<char>, i: usize) -> (r: bool)
    requires
        i <= v@.len(),
    ensures
        r == (v@.skip(i as int).len() >= 7 && v@.skip(i as int).take(7) == bearer_prefix()),
{
    if v.len() - i < 7 {
        return false;
    }
    let r = v[i] == 'B' && v[i + 1] == 'e' && v[i + 2] == 'a' && v[i + 3] == 'r' && v[i + 4] == 'e'
        && v[i + 5] == 'r' && v[i + 6] == ' ';
    if r {
        assert(v@.skip(i as int).take(7) =~= bearer_prefix());
    } else {
        assert(v@.skip(i as int).take(7) != bearer_prefix()) by {
            let t = v@.skip(i as int).take(7);
            assert(t[0] == v@[i as int] && t[1] == v@[i + 1] && t[2] == v@[i + 2] && t[3] == v@[i + 3]
                && t[4] == v@[i + 4] && t[5] == v@[i + 5] && t[6] == v@[i + 6]);
        }
    }
    r
}

/// The token of an authorization header: the header with every `Bearer ` removed.
pub fn strip_bearer(header: &str) -> (r: String)
    ensures
        r@ == remove_all(header@, bearer_prefix()),
{
    let v = chars_of(header);
    let mut out: Vec<char> = Vec::new();
    let mut i: usize = 0;
    assert(v@.skip(0) =~= v@);
    while i < v.len()
        invariant
            i <= v@.len(),
            out@ + remove_all(v@.skip(i as int), bearer_prefix()) == remove_all(header@, bearer_prefix()),
            v@ == header@,
        decreases v.len() - i,
    {
        let ghost rest = v@.skip(i as int);
        if matches_bearer_at(&v, i) {
            assert(rest.skip(7) =~= v@.skip(i + 7));
            i += 7;
        } else {
            assert(rest.drop_first() =~= v@.skip(i + 1));
            assert(rest[0] == v@[i as int]);
            let ghost old_out = out@;
            out.push(v[i]);
            assert(out@ + remove_all(v@.skip(i + 1), bearer_prefix()) =~= old_out + (seq![rest[0]]
                + remove_all(rest.drop_first(), bearer_prefix())));
            i += 1;
        }
    }
    assert(v@.skip(i as int).len() == 0);
    assert(out@ + Seq::<char>::empty() =~= out@);
    string_of(&out)
}

/// The token of a request, from its authorization header: missing when there is no
/// header.
pub fn token_from_header(header: Option<&str>) -> (r: Result<String, Error>)
    ensures
        match header {
            None => r == Err::<String, Error>(Error::MissingAuthorizationToken),
            Some(h) => r is Ok && r->Ok_0@ == remove_all(h@, bearer_prefix()),
        },
{
    match header {
        None => Err(Error::MissingAuthorizationToken),
        Some(h) => Ok(strip_bearer(h)),
    }
}

/// Whether a request is authenticated, and as whom.
#[derive(Debug, Clone, Copy, PartialEq, Eq)]
pub struct AuthenticationMetadata {
    pub is_authenticated: bool,
    pub user_id: Option<ObjectId>,
}

impl AuthenticationMetadata {
    /// A request that is not authenticated.
    pub fn unauthorized() -> (r: AuthenticationMetadata)
        ensures
            !r.is_authenticated,
            r.user_id is None,
    {
        AuthenticationMetadata { is_authenticated: false, user_id: None }
    }

    /// Who a request is authenticated as, given the user of its decoded token (`None`
    /// when the token is missing or does not decode).
    pub fn from_token_user(user: Option<UserPublic>) -> (r: AuthenticationMetadata)
        requires
            user matches Some(u) ==> parse_object_id_bytes(encode_utf8(u.id@)) is Ok,
        ensures
            match user {
                None => !r.is_authenticated && r.user_id is None,
                Some(u) => r.is_authenticated && r.user_id is Some && parse_object_id_bytes(
                    encode_utf8(u.id@),
                ) == Ok::<Seq<u8>, ObjectIdError>(r.user_id->0.bytes@),
            },
    {
        match user {
            None => Self::unauthorized(),
            Some(u) => match ObjectId::with_string(u.id.as_str()) {
                Ok(id) => AuthenticationMetadata { is_authenticated: true, user_id: Some(id) },
                Err(_) => vstd::pervasive::unreached(),
            },
        }
    }
}

impl UserID {
    /// The id of the user that a decoded token was issued for.
    pub fn from_token_user(user: &UserPublic) -> (r: UserID)
        requires
            parse_object_id_bytes(encode_utf8(user.id@)) is Ok,
        ensures
            parse_object_id_bytes(encode_utf8(user.id@)) == Ok::<Seq<u8>, ObjectIdError>(r.0.bytes@),
    {
        match ObjectId::with_string(user.id.as_str()) {
            Ok(id) => UserID(id),
            Err(_) => vstd::pervasive::unreached(),
        }
    }
}

} // verus!
