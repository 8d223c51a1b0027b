//! What the commands of a build print that the build reads back: file lists and checksums.

use crate::runtime::container::{join, joined};
use crate::text::{chars_of, push_char, string_views, trim_start_char};
use vstd::prelude::*;

verus! {

/// The whitespace of ASCII: space, tab, line feed, form feed and carriage return.
pub open spec fn is_ascii_ws(c: char) -> bool {
    c == ' ' || c == '\t' || c == '\n' || c == '\x0C' || c == '\r'
}

/// The words found so far in `s`, and the word being read at its end.
pub open spec fn ws_state(s: Seq<char>) -> (Seq<Seq<char>>, Seq<char>)
    decreases s.len(),
{
    if s.len() == 0 {
        (Seq::empty(), Seq::empty())
    } else {
        let (done, cur) = ws_state(s.drop_last());
        if is_ascii_ws(s.last()) {
            if cur.len() > 0 {
                (done.push(cur), Seq::empty())
            } else {
                (done, Seq::empty())
            }
        } else {
            (done, cur.push(s.last()))
        }
    }
}

/// The words of `s`: the longest runs of characters other than ASCII whitespace, as
/// `str::split_ascii_whitespace` gives them.
pub open spec fn ws_words(s: Seq<char>) -> Seq<Seq<char>> {
    let (done, cur) = ws_state(s);
    if cur.len() > 0 {
        done.push(cur)
    } else {
        done
    }
}

/// The words of `s`.
pub fn split_ascii_whitespace(s: &str) -> (r: Vec<String>)
    ensures
        string_views(r@) == ws_words(s@),
{
    let cs = chars_of(s);
    let mut done: Vec<String> = Vec::new();
    let mut cur = String::new();
    let mut i: usize = 0;
    assert(cs@.take(0) =~= Seq::<char>::empty());
    while i < cs.len()
        invariant
            i <= cs@.len(),
            cs@ == s@,
            (string_views(done@), cur@) == ws_state(cs@.take(i as int)),
        decreases cs@.len() - i,
    {
        assert(cs@.take(i + 1).drop_last() =~= cs@.take(i as int));
        let c = cs[i];
        if c == ' ' || c == '\t' || c == '\n' || c == '\x0C' || c == '\r' {
            let cl = chars_of(cur.as_str());
            if cl.len() > 0 {
                let ghost before = done@;
                let w = cur;
                done.push(w);
                assert(string_views(done@) =~= string_views(before).push(w@));
                cur = String::new();
            } else {
                cur = String::new();
            }
        } else {
            push_char(&mut cur, c);
        }
        i += 1;
    }
    assert(cs@.take(i as int) =~= s@);
    let cl = chars_of(cur.as_str());
    if cl.len() > 0 {
        let ghost before = done@;
        let w = cur;
        done.push(w);
        assert(string_views(done@) =~= string_views(before).push(w@));
    }
    done
}

/// The files that `find . -type f` printed, in chunks: its words, each without the dots it
/// starts with.
pub open spec fn spec_found_files(chunks: Seq<Seq<char>>) -> Seq<Seq<char>> {
    ws_words(joined_all(chunks)).map_values(|w: Seq<char>| trim_start_char(w, '.'))
}

/// The chunks put one after another.
pub open spec fn joined_all(chunks: Seq<Seq<char>>) -> Seq<char> {
    joined(chunks, Seq::empty())
}

/// Reads the files that `find` printed.
pub fn found_files(stdout: &Vec<String>) -> (r: Vec<String>)
    ensures
        string_views(r@) == spec_found_files(string_views(stdout@)),
{
    let all = join(stdout, "");
    proof {
        reveal_strlit("");
        assert(""@ =~= Seq::<char>::empty());
    }
    assert(all@ == joined_all(string_views(stdout@)));
    let words = split_ascii_whitespace(all.as_str());
    let mut out: Vec<String> = Vec::new();
    let mut i: usize = 0;
    let ghost ws = ws_words(all@);
    while i < words.len()
        invariant
            i <= words@.len(),
            string_views(words@) == ws,
            string_views(out@) == ws.take(i as int).map_values(
                |w: Seq<char>| trim_start_char(w, '.'),
            ),
        decreases words@.len() - i,
    {
        let wc = chars_of(words[i].as_str());
        let mut k: usize = 0;
        assert(wc@.skip(0) =~= wc@);
        while k < wc.len() && wc[k] == '.'
            invariant
                k <= wc@.len(),
                trim_start_char(wc@, '.') == trim_start_char(wc@.skip(k as int), '.'),
            decreases wc@.len() - k,
        {
            assert(wc@.skip(k as int).drop_first() =~= wc@.skip(k + 1));
            k += 1;
        }
        let t = crate::text::string_from_chars(&wc, k, wc.len());
        assert(t@ =~= wc@.skip(k as int));
        assert(trim_start_char(wc@.skip(k as int), '.') == wc@.skip(k as int));
        assert(ws[i as int] == wc@);
        let ghost before = out@;
        out.push(t);
        assert(string_views(out@) =~= string_views(before).push(t@));
        assert(ws.take(i + 1).map_values(|w: Seq<char>| trim_start_char(w, '.')) =~= ws.take(
            i as int,
        ).map_values(|w: Seq<char>| trim_start_char(w, '.')).push(trim_start_char(ws[i as int], '.')));
        i += 1;
    }
    assert(ws.take(i as int) =~= ws);
    out
}

/// The checksum that `md5sum` printed, in chunks: its first word.
pub open spec fn spec_first_word(chunks: Seq<Seq<char>>) -> Option<Seq<char>> {
    let ws = ws_words(joined_all(chunks));
    if ws.len() > 0 {
        Some(ws[0])
    } else {
        None
    }
}

/// Reads the checksum that `md5sum` printed.
pub fn first_word(stdout: &Vec<String>) -> (r: Option<String>)
    ensures
        match spec_first_word(string_views(stdout@)) {
            Some(w) => r matches Some(s) && s@ == w,
            None => r is None,
        },
{
    let all = join(stdout, "");
    proof {
        reveal_strlit("");
        assert(""@ =~= Seq::<char>::empty());
    }
    assert(all@ == joined_all(string_views(stdout@)));
    let mut words = split_ascii_whitespace(all.as_str());
    if words.len() > 0 {
        assert(string_views(words@)[0] == words@[0]@);
        Some(words.remove(0))
    } else {
        None
    }
}

} // verus!
