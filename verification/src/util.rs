//! Helpers shared by the models and routes: tags, slugs, random strings, ids and URLs.
use vstd::prelude::*;
use rand::Rng;
use crate::errors::Error;
use crate::object_id::{ObjectId, ObjectIdError, parse_object_id_bytes};
use crate::text::{chars_of, lemma_trim_idempotent, lowercase, string_of, to_lowercase, trim, trim_str};
use vstd::utf8::encode_utf8;

verus! {

/// The texts held by a sequence of strings.
pub open spec fn strings_view(v: Seq<String>) -> Seq<Seq<char>> {
    v.map_values(|s: String| s@)
}

/// The elements of `s` in order, each kept only at its first occurrence.
pub open spec fn unique<A>(s: Seq<A>) -> Seq<A>
    decreases s.len(),
{
    if s.len() == 0 {
        Seq::empty()
    } else {
        let prev = unique(s.drop_last());
        if s.drop_last().contains(s.last()) {
            prev
        } else {
            prev.push(s.last())
        }
    }
}

/// A tag as it is stored: lower case, without surrounding white space.
pub open spec fn sanitize_tag(t: Seq<char>) -> Seq<char> {
    trim(lowercase(t))
}

/// Tags as they are stored: each sanitized, empty ones dropped, each kept once in the
/// order of its first occurrence.
pub open spec fn sanitized_tags(tags: Seq<Seq<char>>) -> Seq<Seq<char>> {
    unique(tags.map_values(|t: Seq<char>| sanitize_tag(t)).filter(|t: Seq<char>| t.len() > 0))
}

proof fn lemma_unique_push<A>(s: Seq<A>, x: A)
    ensures
        unique(s.push(x)) == if s.contains(x) { unique(s) } else { unique(s).push(x) },
{
    assert(s.push(x).drop_last() =~= s);
}

proof fn lemma_filter_push<A>(s: Seq<A>, f: spec_fn(A) -> bool, x: A)
    ensures
        s.push(x).filter(f) == if f(x) { s.filter(f).push(x) } else { s.filter(f) },
{
    reveal(Seq::filter);
    assert(s.push(x).drop_last() =~= s);
}

/// Every element of `unique(s)` occurs once, and `unique(s)` holds exactly the elements of `s`.
pub proof fn lemma_unique_properties<A>(s: Seq<A>)
    ensures
        unique(s).no_duplicates(),
        forall|x: A| unique(s).contains(x) <==> s.contains(x),
    decreases s.len(),
{
    if s.len() > 0 {
        let p = s.drop_last();
        let l = s.last();
        lemma_unique_properties(p);
        assert(s =~= p.push(l));
        assert forall|x: A| s.contains(x) <==> (p.contains(x) || x == l) by {
            if s.contains(x) && x != l {
                let i = choose|i: int| 0 <= i < s.len() && s[i] == x;
                assert(i < p.len());
                assert(p[i] == x);
            }
            if p.contains(x) {
                let i = choose|i: int| 0 <= i < p.len() && p[i] == x;
                assert(s[i] == x);
            }
            if x == l {
                assert(s[s.len() - 1] == x);
            }
        }
        if !p.contains(l) {
            let u = unique(s);
            let up = unique(p);
            assert(u == up.push(l));
            assert forall|x: A| u.contains(x) <==> (up.contains(x) || x == l) by {
                if u.contains(x) && x != l {
                    let i = choose|i: int| 0 <= i < u.len() && u[i] == x;
                    assert(i < up.len());
                    assert(up[i] == x);
                }
                if up.contains(x) {
                    let i = choose|i: int| 0 <= i < up.len() && up[i] == x;
                    assert(u[i] == x);
                }
                if x == l {
                    assert(u[u.len() - 1] == x);
                }
            }
            assert forall|i: int, j: int| 0 <= i < u.len() && 0 <= j < u.len() && i != j implies u[i] != u[j] by {
                if i == u.len() - 1 {
                    assert(up[j] == u[j]);
                    assert(up.contains(u[j]));
                } else if j == u.len() - 1 {
                    assert(up[i] == u[i]);
                    assert(up.contains(u[i]));
                } else {
                    assert(up[i] == u[i] && up[j] == u[j]);
                }
            }
        }
    }
}

/// Stored tags are never empty, never repeat, and are exactly the non-empty sanitized
/// forms of the given tags.
pub proof fn lemma_sanitized_tags_properties(tags: Seq<Seq<char>>)
    ensures
        sanitized_tags(tags).no_duplicates(),
        forall|i: int| 0 <= i < sanitized_tags(tags).len() ==> #[trigger] sanitized_tags(tags)[i].len() > 0,
        forall|t: Seq<char>| #[trigger] sanitized_tags(tags).contains(t) <==> (t.len() > 0 && exists|j: int|
            0 <= j < tags.len() && sanitize_tag(tags[j]) == t),
{
    let f = |t: Seq<char>| sanitize_tag(t);
    let g = |t: Seq<char>| t.len() > 0;
    let m = tags.map_values(f);
    let kept = m.filter(g);
    lemma_unique_properties(kept);
    #[allow(deprecated)]
    m.filter_lemma(g);
    assert forall|i: int| 0 <= i < sanitized_tags(tags).len() implies #[trigger] sanitized_tags(tags)[i].len() > 0 by {
        assert(sanitized_tags(tags).contains(sanitized_tags(tags)[i]));
        assert(kept.contains(sanitized_tags(tags)[i]));
    }
    assert forall|t: Seq<char>| #[trigger] sanitized_tags(tags).contains(t) <==> (t.len() > 0 && exists|j: int|
        0 <= j < tags.len() && sanitize_tag(tags[j]) == t) by {
        if t.len() > 0 && exists|j: int| 0 <= j < tags.len() && sanitize_tag(tags[j]) == t {
            let j = choose|j: int| 0 <= j < tags.len() && sanitize_tag(tags[j]) == t;
            assert(m[j] == t);
            m.lemma_filter_contains(g, j);
        }
        if sanitized_tags(tags).contains(t) {
            assert(kept.contains(t));
            m.lemma_filter_contains_rev(g, t);
            assert(m.contains(t));
            let j = choose|j: int| 0 <= j < m.len() && m[j] == t;
            assert(sanitize_tag(tags[j]) == t);
        }
    }
}

proof fn lemma_unique_of_distinct<A>(s: Seq<A>)
    requires
        s.no_duplicates(),
    ensures
        unique(s) == s,
    decreases s.len(),
{
    if s.len() > 0 {
        let p = s.drop_last();
        assert(p.no_duplicates());
        lemma_unique_of_distinct(p);
        assert(!p.contains(s.last())) by {
            if p.contains(s.last()) {
                let i = choose|i: int| 0 <= i < p.len() && p[i] == s.last();
                assert(s[i] == s[s.len() - 1]);
            }
        }
        assert(p.push(s.last()) =~= s);
    }
}

proof fn lemma_filter_keeps_all<A>(s: Seq<A>, f: spec_fn(A) -> bool)
    requires
        forall|i: int| 0 <= i < s.len() ==> f(#[trigger] s[i]),
    ensures
        s.filter(f) == s,
    decreases s.len(),
{
    if s.len() > 0 {
        let p = s.drop_last();
        lemma_filter_keeps_all(p, f);
        assert(p.push(s.last()) =~= s);
        lemma_filter_push(p, f, s.last());
    } else {
        reveal(Seq::filter);
        assert(s.filter(f) =~= s);
    }
}

/// Sanitizing stored tags again changes nothing, for tags whose stored form is its own
/// lower case (what `str::to_lowercase` does to a lower case text is not documented, so
/// the law is stated for those tags).
pub proof fn lemma_sanitize_tags_idempotent(tags: Seq<Seq<char>>)
    requires
        forall|i: int| 0 <= i < tags.len() ==> lowercase(sanitize_tag(#[trigger] tags[i])) == sanitize_tag(tags[i]),
    ensures
        sanitized_tags(sanitized_tags(tags)) == sanitized_tags(tags),
{
    let s = sanitized_tags(tags);
    lemma_sanitized_tags_properties(tags);
    let f = |t: Seq<char>| sanitize_tag(t);
    let g = |t: Seq<char>| t.len() > 0;
    let m = s.map_values(f);
    assert forall|i: int| 0 <= i < s.len() implies #[trigger] m[i] == s[i] by {
        assert(s.contains(s[i]));
        let j = choose|j: int| 0 <= j < tags.len() && sanitize_tag(tags[j]) == s[i];
        assert(lowercase(sanitize_tag(tags[j])) == sanitize_tag(tags[j]));
        lemma_trim_idempotent(lowercase(tags[j]));
    }
    assert(m =~= s);
    lemma_filter_keeps_all(s, g);
    lemma_unique_of_distinct(s);
}

fn contains_string(v: &Vec<String>, s: &String) -> (r: bool)
    ensures
        r == strings_view(v@).contains(s@),
{
    let mut i: usize = 0;
    while i < v.len()
        invariant
            i <= v.len(),
            forall|j: int| 0 <= j < i ==> v@[j]@ != s@,
        decreases v.len() - i,
    {
        if v[i] == *s {
            assert(strings_view(v@)[i as int] == s@);
            return true;
        }
        i += 1;
    }
    false
}

/// Sanitizes tags: each is lower cased and trimmed, empty ones are dropped, and each
/// remaining tag is kept once, where it first occurs.
pub fn sanitize_tags(tags: Vec<String>) -> (r: Vec<String>)
    ensures
        strings_view(r@) == sanitized_tags(strings_view(tags@)),
{
    let ghost f = |t: Seq<char>| sanitize_tag(t);
    let ghost g = |t: Seq<char>| t.len() > 0;
    let ghost all = strings_view(tags@).map_values(f);
    let mut seen: Vec<String> = Vec::new();
    let mut out: Vec<String> = Vec::new();
    let mut i: usize = 0;
    while i < tags.len()
        invariant
            i <= tags.len(),
            all == strings_view(tags@).map_values(f),
            f == (|t: Seq<char>| sanitize_tag(t)),
            g == (|t: Seq<char>| t.len() > 0),
            strings_view(seen@) == all.take(i as int).filter(g),
            strings_view(out@) == unique(strings_view(seen@)),
        decreases tags.len() - i,
    {
        let lower = to_lowercase(tags[i].as_str());
        let tag = trim_str(lower.as_str());
        assert(strings_view(tags@)[i as int] == tags@[i as int]@);
        assert(tag@ == all[i as int]);
        proof {
            assert(all.take(i + 1) =~= all.take(i as int).push(tag@));
            lemma_filter_push(all.take(i as int), g, tag@);
        }
        if !tag.as_str().is_empty() {
            let ghost before = strings_view(seen@);
            let dup = contains_string(&seen, &tag);
            proof {
                lemma_unique_push(before, tag@);
            }
            if !dup {
                out.push(tag.clone());
            }
            seen.push(tag);
            assert(strings_view(seen@) =~= before.push(tag@));
            assert(strings_view(out@) =~= unique(strings_view(seen@)));
        } else {
            assert(tag@.len() == 0);
        }
        i += 1;
    }
    assert(all.take(tags.len() as int) =~= all);
    out
}


/// Whether a byte is an ASCII letter or digit.
pub open spec fn is_alphanumeric_byte(b: u8) -> bool {
    (48 <= b <= 57) || (65 <= b <= 90) || (97 <= b <= 122)
}

/// Whether a character is an ASCII letter or digit.
pub open spec fn is_alphanumeric_char(c: char) -> bool {
    ('0' <= c <= '9') || ('A' <= c <= 'Z') || ('a' <= c <= 'z')
}

/// `rand::thread_rng().sample(Alphanumeric)`: one byte drawn at random from the ASCII
/// letters and digits. Which byte comes out is left open.
#[verifier::external_body]
fn sample_alphanumeric() -> (b: u8)
    ensures
        is_alphanumeric_byte(b),
{
    rand::thread_rng().sample(rand::distributions::Alphanumeric)
}

/// A random string of `size` ASCII letters and digits.
pub fn create_random_string(size: usize) -> (r: String)
    ensures
        r@.len() == size,
        forall|i: int| 0 <= i < size ==> is_alphanumeric_char(#[trigger] r@[i]),
{
    let mut v: Vec<char> = Vec::new();
    let mut i: usize = 0;
    while i < size
        invariant
            i <= size,
            v@.len() == i,
            forall|j: int| 0 <= j < i ==> is_alphanumeric_char(#[trigger] v@[j]),
        decreases size - i,
    {
        let b = sample_alphanumeric();
        v.push(b as char);
        i += 1;
    }
    string_of(&v)
}

/// What `slug::slugify` returns for a text.
pub uninterp spec fn slug_of(s: Seq<char>) -> Seq<char>;

/// Whether a text has the shape the slug crate documents for its output: only `a-z`,
/// `0-9` and `-`, never two `-` in a row, and no `-` at either end.
pub open spec fn is_slug(s: Seq<char>) -> bool {
    &&& forall|i: int| 0 <= i < s.len() ==> ('a' <= #[trigger] s[i] <= 'z' || '0' <= s[i] <= '9' || s[i] == '-')
    &&& forall|i: int| 0 <= i < s.len() - 1 ==> !(#[trigger] s[i] == '-' && s[i + 1] == '-')
    &&& s.len() > 0 ==> s[0] != '-' && s[s.len() - 1] != '-'
}

/// `slug::slugify`: the slug of a text. The slug crate documents that its output holds
/// only `a-z`, `0-9` and `-`, never two `-` in a row, and no `-` at either end.
#[verifier::external_body]
fn slugify(s: &str) -> (r: String)
    ensures
        r@ == slug_of(s@),
        is_slug(r@),
{
    slug::slugify(s)
}

/// The slug of a text: only `a-z`, `0-9` and `-`, never two `-` in a row, and never a
/// `-` at either end.
pub fn to_slug_case(string: &str) -> (r: String)
    ensures
        r@ == slug_of(string@),
        is_slug(r@),
{
    slugify(string)
}

/// Parses the hexadecimal text form of an identifier.
pub fn to_object_id(id: String) -> (r: Result<ObjectId, Error>)
    ensures
        match r {
            Ok(oid) => parse_object_id_bytes(encode_utf8(id@)) == Ok::<Seq<u8>, ObjectIdError>(oid.bytes@),
            Err(e) => exists|k: ObjectIdError| e == Error::ParseObjectID(k)
                && parse_object_id_bytes(encode_utf8(id@)) == Err::<Seq<u8>, ObjectIdError>(k),
        },
{
    match ObjectId::with_string(id.as_str()) {
        Ok(oid) => Ok(oid),
        Err(k) => Err(Error::ParseObjectID(k)),
    }
}

/// What `url::Url::parse` gives for a text: the serialization of the parsed URL, or
/// `None` where the text is not a URL.
pub uninterp spec fn url_parse(input: Seq<char>) -> Option<Seq<char>>;

/// `url::Url::parse`, with the parsed URL given by its serialization.
#[verifier::external_body]
fn parse_with_url_crate(input: &str) -> (r: Option<String>)
    ensures
        match r {
            Some(s) => url_parse(input@) == Some(s@),
            None => url_parse(input@) is None,
        },
{
    match url::Url::parse(input) {
        Ok(u) => Some(u.into()),
        Err(_) => None,
    }
}

/// `validator::validate_url`. Its source checks that `url::Url::parse` accepts the text.
#[verifier::external_body]
pub(crate) fn validate_url(s: &str) -> (r: bool)
    ensures
        r == (url_parse(s@) is Some),
{
    validator::validate_url(s)
}

/// A parsed absolute URL, held by its serialization.
#[derive(Debug, Clone, PartialEq, Eq)]
pub struct Url {
    serialization: String,
}

impl Url {
    /// The serialization of the URL.
    pub closed spec fn view(&self) -> Seq<char> {
        self.serialization@
    }

    /// The serialization of the URL.
    pub fn as_str(&self) -> (r: &str)
        ensures
            r@ == self.view(),
    {
        self.serialization.as_str()
    }

    /// The serialization of the URL, as a new string.
    pub fn to_string(&self) -> (r: String)
        ensures
            r@ == self.view(),
    {
        self.serialization.clone()
    }
}

/// A text without any `/` at its end.
pub open spec fn strip_trailing_slashes(s: Seq<char>) -> Seq<char>
    decreases s.len(),
{
    if s.len() > 0 && s.last() == '/' {
        strip_trailing_slashes(s.drop_last())
    } else {
        s
    }
}

/// Parses a URL after removing the slashes at its end.
pub fn parse_url(url: &str) -> (r: Result<Url, Error>)
    ensures
        match r {
            Ok(u) => url_parse(strip_trailing_slashes(url@)) == Some(u.view()),
            Err(e) => e == Error::ParseURL && url_parse(strip_trailing_slashes(url@)) is None,
        },
{
    let mut v = chars_of(url);
    while v.len() > 0 && v[v.len() - 1] == '/'
        invariant
            strip_trailing_slashes(v@) == strip_trailing_slashes(url@),
        decreases v.len(),
    {
        assert(v@.drop_last() == v@.take(v@.len() - 1));
        v.pop();
    }
    let stripped = string_of(&v);
    match parse_with_url_crate(stripped.as_str()) {
        Some(s) => Ok(Url { serialization: s }),
        None => Err(Error::ParseURL),
    }
}

} // verus!
