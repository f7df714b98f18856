//! Reading the URLs that a user pastes to import resources into a list.
use vstd::prelude::*;
use crate::text::{chars_of, string_of, trim, trim_chars};
use crate::util::{strings_view, url_parse, validate_url};

verus! {

/// A line without the carriage return that ends it, if any.
pub open spec fn strip_cr(l: Seq<char>) -> Seq<char> {
    if l.len() > 0 && l.last() == '\r' {
        l.drop_last()
    } else {
        l
    }
}

/// Splitting a text at its newlines, read from the left: the lines already ended by a
/// newline (each without a carriage return before that newline), and the characters
/// read since the last newline.
pub open spec fn split_state(s: Seq<char>) -> (Seq<Seq<char>>, Seq<char>)
    decreases s.len(),
{
    if s.len() == 0 {
        (Seq::empty(), Seq::empty())
    } else {
        let (done, cur) = split_state(s.drop_last());
        if s.last() == '\n' {
            (done.push(strip_cr(cur)), Seq::empty())
        } else {
            (done, cur.push(s.last()))
        }
    }
}

/// The lines of a text as `str::lines` gives them: split at each `\n`, a `\r` just
/// before a `\n` removed, and the text after the last `\n` a line when it is not empty.
pub open spec fn lines(s: Seq<char>) -> Seq<Seq<char>> {
    let (done, cur) = split_state(s);
    if cur.len() > 0 {
        done.push(cur)
    } else {
        done
    }
}

/// The number of characters before the first space (the whole length if there is none).
pub open spec fn space_index(s: Seq<char>) -> nat
    decreases s.len(),
{
    if s.len() == 0 {
        0
    } else if s[0] == ' ' {
        0
    } else {
        1 + space_index(s.drop_first())
    }
}

/// The text before the first space: the first item of `str::split(' ')`.
pub open spec fn first_word(s: Seq<char>) -> Seq<char> {
    s.take(space_index(s) as int)
}

/// The URL a pasted line offers: its first word once surrounding white space is removed.
pub open spec fn import_candidate(line: Seq<char>) -> Seq<char> {
    first_word(trim(line))
}

/// The URLs of an import payload, in order: the candidate of each non-empty line of the
/// trimmed payload, kept where it parses as a URL.
pub open spec fn import_urls(payload: Seq<char>) -> Seq<Seq<char>> {
    lines(trim(payload)).filter(|l: Seq<char>| l.len() > 0).map_values(
        |l: Seq<char>| import_candidate(l),
    ).filter(|u: Seq<char>| url_parse(u) is Some)
}

proof fn lemma_space_index_at(s: Seq<char>, i: int)
    requires
        0 <= i <= s.len(),
        forall|j: int| 0 <= j < i ==> #[trigger] s[j] != ' ',
        i == s.len() || s[i] == ' ',
    ensures
        space_index(s) == i,
    decreases i,
{
    if i > 0 {
        lemma_space_index_at(s.drop_first(), i - 1);
    }
}

fn first_word_chars(v: &Vec<char>) -> (r: Vec<char>)
    ensures
        r@ == first_word(v@),
{
    let mut r: Vec<char> = Vec::new();
    let mut i: usize = 0;
    while i < v.len() && v[i] != ' '
        invariant
            i <= v.len(),
            r@ == v@.take(i as int),
            forall|j: int| 0 <= j < i ==> #[trigger] v@[j] != ' ',
        decreases v.len() - i,
    {
        r.push(v[i]);
        i += 1;
        assert(r@ =~= v@.take(i as int));
    }
    proof {
        lemma_space_index_at(v@, i as int);
    }
    r
}

fn strip_cr_chars(v: Vec<char>) -> (r: Vec<char>)
    ensures
        r@ == strip_cr(v@),
{
    let mut v = v;
    if v.len() > 0 && v[v.len() - 1] == '\r' {
        v.pop();
    }
    v
}

/// The lines of a text, as `str::lines` gives them.
pub fn lines_of(v: &Vec<char>) -> (r: Vec<Vec<char>>)
    ensures
        r@.map_values(|l: Vec<char>| l@) == lines(v@),
{
    let mut done: Vec<Vec<char>> = Vec::new();
    let mut cur: Vec<char> = Vec::new();
    let mut i: usize = 0;
    while i < v.len()
        invariant
            i <= v.len(),
            split_state(v@.take(i as int)) == (done@.map_values(|l: Vec<char>| l@), cur@),
        decreases v.len() - i,
    {
        let ghost prev = v@.take(i as int);
        assert(v@.take(i + 1).drop_last() =~= prev);
        let c = v[i];
        if c == '\n' {
            let line = strip_cr_chars(cur);
            done.push(line);
            cur = Vec::new();
        } else {
            cur.push(c);
        }
        i += 1;
        assert(done@.map_values(|l: Vec<char>| l@) =~= split_state(v@.take(i as int)).0);
        assert(cur@ =~= split_state(v@.take(i as int)).1);
    }
    assert(v@.take(v.len() as int) =~= v@);
    if cur.len() > 0 {
        done.push(cur);
        assert(done@.map_values(|l: Vec<char>| l@) =~= lines(v@));
    }
    done
}

/// The URLs to import from a pasted payload: the first word of each non-empty line,
/// kept where it is a valid URL, in the order of the lines.
pub fn parse_import_payload(payload: String) -> (r: Vec<String>)
    ensures
        strings_view(r@) == import_urls(payload@),
{
    let chars = chars_of(payload.as_str());
    let trimmed = trim_chars(&chars);
    let all = lines_of(&trimmed);
    let ghost ne = |l: Seq<char>| l.len() > 0;
    let ghost cand = |l: Seq<char>| import_candidate(l);
    let ghost ok = |u: Seq<char>| url_parse(u) is Some;
    let ghost ls = all@.map_values(|l: Vec<char>| l@);
    let mut out: Vec<String> = Vec::new();
    let mut i: usize = 0;
    while i < all.len()
        invariant
            i <= all.len(),
            ls == all@.map_values(|l: Vec<char>| l@),
            ne == (|l: Seq<char>| l.len() > 0),
            cand == (|l: Seq<char>| import_candidate(l)),
            ok == (|u: Seq<char>| url_parse(u) is Some),
            strings_view(out@) == ls.take(i as int).filter(ne).map_values(cand).filter(ok),
        decreases all.len() - i,
    {
        let ghost before = ls.take(i as int);
        proof {
            assert(ls.take(i + 1) =~= before.push(ls[i as int]));
            reveal(Seq::filter);
            assert(before.push(ls[i as int]).drop_last() =~= before);
        }
        if all[i].len() > 0 {
            let line = trim_chars(&all[i]);
            let word = first_word_chars(&line);
            let url = string_of(&word);
            assert(url@ == cand(ls[i as int]));
            proof {
                assert(before.push(ls[i as int]).filter(ne) == before.filter(ne).push(ls[i as int]));
                assert(before.filter(ne).push(ls[i as int]).map_values(cand) =~= before.filter(
                    ne,
                ).map_values(cand).push(url@));
                let m = before.filter(ne).map_values(cand);
                assert(m.push(url@).drop_last() =~= m);
            }
            if validate_url(url.as_str()) {
                out.push(url);
            }
            assert(strings_view(out@) =~= ls.take(i + 1).filter(ne).map_values(cand).filter(ok));
        } else {
            assert(ls.take(i + 1).filter(ne) == before.filter(ne));
        }
        i += 1;
    }
    assert(ls.take(all.len() as int) =~= ls);
    assert(ls == lines(trim(payload@)));
    out
}

} // verus!
