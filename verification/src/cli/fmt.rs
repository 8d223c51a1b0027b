//! What the log output shows: the parts of events a filter string hides, and which events are
//! logged at all.

use crate::text::chars_of;
use vstd::prelude::*;

verus! {

/// The separator put between the fields of an event unless another one is chosen.
pub const DEFAULT_FIELD_DELIM: &'static str = ", ";

/// Which parts of events the log output hides.
#[derive(Debug, Clone, Copy)]
pub struct FmtFilter {
    pub hide_date: bool,
    pub hide_fields: bool,
    pub hide_level: bool,
    pub hide_spans: bool,
    pub delimiter: &'static str,
}

/// `c` in ASCII lowercase.
pub open spec fn ascii_lower(c: char) -> char {
    if 'A' <= c <= 'Z' {
        ((c as u8) + 32) as u8 as char
    } else {
        c
    }
}

/// Some character of `s` is `c` in any case.
pub open spec fn has_flag(s: Seq<char>, c: char) -> bool {
    exists|i: int| 0 <= i < s.len() && ascii_lower(s[i]) == c
}

impl FmtFilter {
    /// Nothing hidden, fields separated by `DEFAULT_FIELD_DELIM`.
    pub fn default() -> (f: Self)
        ensures
            !f.hide_date && !f.hide_fields && !f.hide_level && !f.hide_spans,
            f.delimiter@ == DEFAULT_FIELD_DELIM@,
    {
        FmtFilter {
            hide_date: false,
            hide_fields: false,
            hide_level: false,
            hide_spans: false,
            delimiter: DEFAULT_FIELD_DELIM,
        }
    }

    /// Reads a filter string: `d` hides the date, `f` the fields, `l` the level and `s` the
    /// spans, in either case; other characters are ignored.
    pub fn from(filter: &str) -> (f: Self)
        ensures
            f.hide_date == has_flag(filter@, 'd'),
            f.hide_fields == has_flag(filter@, 'f'),
            f.hide_level == has_flag(filter@, 'l'),
            f.hide_spans == has_flag(filter@, 's'),
            f.delimiter@ == DEFAULT_FIELD_DELIM@,
    {
        let mut f = FmtFilter::default();
        let cs = chars_of(filter);
        let mut i: usize = 0;
        while i < cs.len()
            invariant
                i <= cs@.len(),
                cs@ == filter@,
                f.delimiter@ == DEFAULT_FIELD_DELIM@,
                f.hide_date == has_flag(cs@.take(i as int), 'd'),
                f.hide_fields == has_flag(cs@.take(i as int), 'f'),
                f.hide_level == has_flag(cs@.take(i as int), 'l'),
                f.hide_spans == has_flag(cs@.take(i as int), 's'),
            decreases cs@.len() - i,
        {
            let c = cs[i];
            let lower = if 'A' <= c && c <= 'Z' {
                ((c as u8) + 32u8) as char
            } else {
                c
            };
            assert(lower == ascii_lower(c));
            let ghost t = cs@.take(i + 1);
            assert(t[i as int] == c);
            assert forall|x: char| has_flag(t, x) == (has_flag(cs@.take(i as int), x) || ascii_lower(c)
                == x) by {
                if has_flag(t, x) {
                    let k = choose|k: int| 0 <= k < t.len() && ascii_lower(t[k]) == x;
                    if k < i {
                        assert(cs@.take(i as int)[k] == t[k]);
                    }
                }
                if has_flag(cs@.take(i as int), x) {
                    let k = choose|k: int|
                        0 <= k < cs@.take(i as int).len() && ascii_lower(cs@.take(i as int)[k]) == x;
                    assert(t[k] == cs@.take(i as int)[k]);
                }
            }
            if lower == 'd' {
                f.hide_date = true;
            } else if lower == 'f' {
                f.hide_fields = true;
            } else if lower == 'l' {
                f.hide_level = true;
            } else if lower == 's' {
                f.hide_spans = true;
            }
            i += 1;
        }
        assert(cs@.take(i as int) =~= filter@);
        f
    }
}

/// Which events are logged: the filter given by `RUST_LOG` unless the output is quiet (then
/// nothing); without one, errors only when quiet, everything when debugging, and otherwise
/// informational events and above.
pub open spec fn spec_log_filter(rust_log: Option<Seq<char>>, quiet: bool, debug: bool) -> Seq<
    char,
> {
    match rust_log {
        Some(f) => if quiet {
            Seq::empty()
        } else {
            f
        },
        None => if quiet {
            "pkger=error"@
        } else if debug {
            "pkger=trace"@
        } else {
            "pkger=info"@
        },
    }
}

/// The log filter for the given `RUST_LOG` value and options.
pub fn log_filter(rust_log: Option<String>, quiet: bool, debug: bool) -> (r: String)
    ensures
        r@ == spec_log_filter(
            match rust_log {
                Some(f) => Some(f@),
                None => None,
            },
            quiet,
            debug,
        ),
{
    match rust_log {
        Some(f) => if quiet {
            String::new()
        } else {
            f
        },
        None => if quiet {
            "pkger=error".to_owned()
        } else if debug {
            "pkger=trace".to_owned()
        } else {
            "pkger=info".to_owned()
        },
    }
}

/// `c` in ASCII uppercase.
pub open spec fn ascii_upper(c: char) -> char {
    if 'a' <= c <= 'z' {
        ((c as u8) - 32) as u8 as char
    } else {
        c
    }
}

/// What a filter string hides depends only on which letters it holds, in any case: putting
/// its parts in another order, repeating it, or changing the case of its letters hides the
/// same parts.
pub proof fn lemma_filter_by_letters(a: Seq<char>, b: Seq<char>, x: char)
    ensures
        has_flag(a + b, x) == has_flag(b + a, x),
        has_flag(a + a, x) == has_flag(a, x),
        has_flag(a.map_values(|c: char| ascii_upper(c)), x) == has_flag(a, x),
{
    let ab = a + b;
    let ba = b + a;
    if has_flag(ab, x) {
        let i = choose|i: int| 0 <= i < ab.len() && ascii_lower(ab[i]) == x;
        if i < a.len() {
            assert(ba[b.len() + i] == ab[i]);
        } else {
            assert(ba[i - a.len()] == ab[i]);
        }
    }
    if has_flag(ba, x) {
        let i = choose|i: int| 0 <= i < ba.len() && ascii_lower(ba[i]) == x;
        if i < b.len() {
            assert(ab[a.len() + i] == ba[i]);
        } else {
            assert(ab[i - b.len()] == ba[i]);
        }
    }
    let aa = a + a;
    if has_flag(aa, x) {
        let i = choose|i: int| 0 <= i < aa.len() && ascii_lower(aa[i]) == x;
        if i >= a.len() {
            assert(a[i - a.len()] == aa[i]);
        } else {
            assert(a[i] == aa[i]);
        }
    }
    if has_flag(a, x) {
        let i = choose|i: int| 0 <= i < a.len() && ascii_lower(a[i]) == x;
        assert(aa[i] == a[i]);
    }
    let u = a.map_values(|c: char| ascii_upper(c));
    assert forall|c: char| ascii_lower(ascii_upper(c)) == ascii_lower(c) by {
        if 'a' <= c <= 'z' {
            assert(ascii_upper(c) as int == c as int - 32);
            assert(ascii_lower(ascii_upper(c)) == c);
        }
    }
    if has_flag(u, x) {
        let i = choose|i: int| 0 <= i < u.len() && ascii_lower(u[i]) == x;
        assert(ascii_lower(a[i]) == x);
    }
    if has_flag(a, x) {
        let i = choose|i: int| 0 <= i < a.len() && ascii_lower(a[i]) == x;
        assert(ascii_lower(u[i]) == x);
    }
}

} // verus!
