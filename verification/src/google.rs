//! Checking Google sign-in ID tokens once their signature has been verified.
use vstd::prelude::*;
use crate::errors::Error;
use crate::text::str_equal;

verus! {

/// The claims of a Google ID token.
#[derive(Debug, Clone, PartialEq, Eq)]
pub struct GoogleToken {
    pub iss: String,
    pub sub: String,
    pub azp: String,
    pub aud: String,
    pub iat: u64,
    pub exp: u64,
    /// The Google hosted domain the user belongs to, if any.
    pub hd: Option<String>,
    pub email: Option<String>,
    pub email_verified: Option<bool>,
    pub name: Option<String>,
    pub picture: Option<String>,
    pub given_name: Option<String>,
    pub family_name: Option<String>,
    pub locale: Option<String>,
}

/// The hosted domains that tokens must belong to; none are configured, so any domain is
/// accepted.
pub open spec fn spec_hosted_domains() -> Seq<Seq<char>> {
    Seq::empty()
}

fn hosted_domains() -> (r: Vec<&'static str>)
    ensures
        r@.map_values(|d: &str| d@) == spec_hosted_domains(),
{
    let r: Vec<&'static str> = Vec::new();
    assert(r@.map_values(|d: &str| d@) =~= spec_hosted_domains());
    r
}

/// Whether a token was issued by Google for the configured audience (a client with no
/// configured audience, the empty text, accepts no token), and (when hosted domains are
/// configured) for one of them.
pub open spec fn google_token_valid(t: GoogleToken, audience: Seq<char>) -> bool {
    &&& (t.iss@ == "accounts.google.com"@ || t.iss@ == "https://accounts.google.com"@)
    &&& audience.len() > 0
    &&& t.aud@ == audience
    &&& (spec_hosted_domains().len() == 0 || (t.hd is Some && spec_hosted_domains().contains(
        t.hd->0@,
    )))
}

fn contains_str(v: &[&str], s: &str) -> (r: bool)
    ensures
        r == v@.map_values(|d: &str| d@).contains(s@),
{
    let mut i: usize = 0;
    while i < v.len()
        invariant
            i <= v@.len(),
            forall|j: int| 0 <= j < i ==> v@[j]@ != s@,
        decreases v.len() - i,
    {
        if str_equal(v[i], s) {
            assert(v@.map_values(|d: &str| d@)[i as int] == s@);
            return true;
        }
        i += 1;
    }
    false
}

impl GoogleToken {
    /// Checks the issuer, the audience and (when configured) the hosted domain of the
    /// token; false when the client has no configured audience.
    pub fn is_valid(&self, audiences: [&str; 1]) -> (r: bool)
        ensures
            r == google_token_valid(*self, audiences@[0]@),
    {
        let audience: &str = audiences[0];
        proof {
            reveal_strlit("");
        }
        assert(audience == audiences@[0]);
        assert(""@.len() == 0);
        if str_equal(audience, "") {
            return false;
        }
        assert(audience@.len() > 0) by {
            if audience@.len() == 0 {
                assert(audience@ =~= ""@);
            }
        }
        if !(str_equal(self.iss.as_str(), "accounts.google.com") || str_equal(
            self.iss.as_str(),
            "https://accounts.google.com",
        )) {
            return false;
        }
        if !str_equal(self.aud.as_str(), audience) {
            return false;
        }
        let domains = hosted_domains();
        if domains.len() > 0 {
            match &self.hd {
                Some(domain) => {
                    if !contains_str(domains.as_slice(), domain.as_str()) {
                        return false;
                    }
                },
                None => {
                    return false;
                },
            }
        }
        true
    }
}

/// A public key that Google signs ID tokens with.
#[derive(Debug, Clone, PartialEq, Eq)]
pub struct Cert {
    pub kid: String,
    pub e: String,
    pub kty: String,
    pub alg: String,
    pub n: String,
    pub key_use: String,
}

/// The first key with the given key id, if any.
pub fn find_cert(certs: Vec<Cert>, kid: &str) -> (r: Option<Cert>)
    ensures
        match r {
            Some(c) => exists|i: int|
                0 <= i < certs@.len() && certs@[i] == c && c.kid@ == kid@ && forall|j: int|
                    0 <= j < i ==> certs@[j].kid@ != kid@,
            None => forall|j: int| 0 <= j < certs@.len() ==> certs@[j].kid@ != kid@,
        },
{
    let mut list = certs;
    let mut i: usize = 0;
    while i < list.len()
        invariant
            list@ == certs@,
            i <= certs@.len(),
            forall|j: int| 0 <= j < i ==> certs@[j].kid@ != kid@,
        decreases certs.len() - i,
    {
        if str_equal(list[i].kid.as_str(), kid) {
            let c = list.remove(i);
            assert(certs@[i as int] == c && c.kid@ == kid@);
            return Some(c);
        }
        i += 1;
    }
    None
}

/// What `jsonwebtoken::decode_header` reads of a token: the key id of its header (which
/// may be missing), or `None` where the token is malformed.
pub uninterp spec fn jwt_header_kid(token: Seq<char>) -> Option<Option<Seq<char>>>;

/// `jsonwebtoken::decode_header`, keeping the header's key id: it splits the token,
/// base64-decodes the header part and parses it, with no key and no signature check.
#[verifier::external_body]
fn token_key_id(token: &str) -> (r: Option<Option<String>>)
    ensures
        match r {
            Some(Some(k)) => jwt_header_kid(token@) == Some(Some(k@)),
            Some(None) => jwt_header_kid(token@) == Some(None::<Seq<char>>),
            None => jwt_header_kid(token@) is None,
        },
{
    match jsonwebtoken::decode_header(token) {
        Ok(h) => Some(h.kid),
        Err(_) => None,
    }
}

/// Whether `c` is the first certificate whose key id is `kid`.
pub open spec fn first_cert_with(certs: Seq<Cert>, kid: Seq<char>, c: Cert) -> bool {
    exists|i: int|
        0 <= i < certs.len() && certs[i] == c && c.kid@ == kid && forall|j: int|
            0 <= j < i ==> certs[j].kid@ != kid
}

/// Whether `c` is the first certificate with the key id that a token header names.
pub open spec fn cert_for_header(certs: Seq<Cert>, header: Option<Option<Seq<char>>>, c: Cert) -> bool {
    match header {
        Some(Some(k)) => first_cert_with(certs, k, c),
        _ => false,
    }
}

/// The certificate that a Google ID token names in its header: the first one whose key
/// id is the header's; fails when the token is malformed, names no key, or names a key
/// that no certificate has.
pub fn google_cert_for(token: &str, certs: Vec<Cert>) -> (r: Result<Cert, Error>)
    ensures
        match r {
            Ok(c) => cert_for_header(certs@, jwt_header_kid(token@), c),
            Err(e) => e is GoogleAuthentication && match jwt_header_kid(token@) {
                Some(Some(k)) => forall|j: int| 0 <= j < certs@.len() ==> certs@[j].kid@ != k,
                _ => true,
            },
        },
{
    let header = token_key_id(token);
    let kid = match header {
        Some(Some(k)) => k,
        _ => return Err(Error::GoogleAuthentication),
    };
    assert(jwt_header_kid(token@) == Some(Some(kid@)));
    match find_cert(certs, kid.as_str()) {
        Some(c) => {
            assert(first_cert_with(certs@, kid@, c));
            Ok(c)
        },
        None => Err(Error::GoogleAuthentication),
    }
}

} // verus!
