//! The control file of a DEB package built from a TOML recipe, and the architecture names the
//! packaging formats use for it.

use crate::strmap::str_eq;
use crate::runtime::container::joined;
use crate::text::{
    append_str, chars_of, contains_infix, ends_with, ends_with_exec, occurs_at, string_from_chars,
    string_views,
};
use crate::value::Value;
use vstd::prelude::*;

verus! {

/// The metadata of a TOML recipe as written.
#[derive(Debug)]
pub struct MetadataRep {
    pub name: String,
    pub version: String,
    pub arch: String,
    pub revision: String,
    pub description: String,
    pub license: String,
    pub source: String,
    pub images: Vec<Value>,
    /// Git repository as source
    pub git: Option<String>,
    pub depends: Option<Vec<String>>,
    pub obsoletes: Option<Vec<String>>,
    pub conflicts: Option<Vec<String>>,
    pub provides: Option<Vec<String>>,
    /// Directories to leave out of the package
    pub exclude: Option<Vec<String>>,
    pub maintainer: Option<String>,
    pub section: Option<String>,
    pub priority: Option<String>,
}

/// `s` without every copy of `p` at its end.
pub open spec fn trim_end_str(s: Seq<char>, p: Seq<char>) -> Seq<char>
    decreases s.len(),
{
    if p.len() > 0 && s.len() >= p.len() && ends_with(s, p) {
        trim_end_str(s.take(s.len() - p.len()), p)
    } else {
        s
    }
}

/// Each item followed by `, `.
pub open spec fn comma_terminated(items: Seq<Seq<char>>) -> Seq<char>
    decreases items.len(),
{
    if items.len() == 0 {
        Seq::empty()
    } else {
        comma_terminated(items.drop_last()) + items.last() + ", "@
    }
}

/// The line `label` followed by the items separated by `, ` (the separators at the end of the
/// list taken away), when there is a list; nothing otherwise.
pub open spec fn list_line(label: Seq<char>, items: Option<Vec<String>>) -> Seq<char> {
    match items {
        Some(v) => label + trim_end_str(comma_terminated(string_views(v@)), ", "@) + seq!['\n'],
        None => Seq::empty(),
    }
}

/// The architecture of the control file: `amd64` for `x86_64`, `all` for anything else.
pub open spec fn control_arch(arch: Seq<char>) -> Seq<char> {
    if arch == "x86_64"@ {
        "amd64"@
    } else {
        "all"@
    }
}

/// The lines of the control file before the lists: package, version, architecture, section
/// and priority.
pub open spec fn control_head(info: MetadataRep) -> Seq<char> {
    "Package: "@ + info.name@ + "\nVersion: "@ + info.version@ + "-"@ + info.revision@
        + "\nArchitecture: "@ + control_arch(info.arch@) + "\n"@ + "Section: "@ + match info.section {
        Some(s) => s@,
        None => "custom"@,
    } + "\nPriority: "@ + match info.priority {
        Some(p) => p@,
        None => "optional"@,
    } + seq!['\n']
}

/// The lines of the control file after the lists: maintainer and description.
pub open spec fn control_tail(info: MetadataRep) -> Seq<char> {
    "Maintainer: "@ + match info.maintainer {
        Some(m) => m@,
        None => "null <null@email.com>"@,
    } + "\nDescription: "@ + info.description@ + "\n"@
}

/// The control file of the package `info` describes.
pub open spec fn spec_deb_control(info: MetadataRep) -> Seq<char> {
    control_head(info) + list_line("Depends: "@, info.depends) + list_line(
        "Conflicts: "@,
        info.conflicts,
    ) + list_line("Breaks: "@, info.obsoletes) + list_line("Provides: "@, info.provides)
        + control_tail(info)
}

/// A list whose last item is neither empty nor ends with `, ` (so its separators can be told
/// from its text).
pub open spec fn plain_list(items: Seq<Seq<char>>) -> bool {
    items.len() == 0 || (items.last().len() > 0 && !ends_with(items.last(), ", "@))
}

/// Each item followed by `, ` is the items joined by `, ` and one more `, `.
proof fn lemma_comma_terminated_joined(items: Seq<Seq<char>>)
    requires
        items.len() > 0,
    ensures
        comma_terminated(items) == joined(items, ", "@) + ", "@,
    decreases items.len(),
{
    if items.len() == 1 {
        assert(items.drop_last() =~= Seq::<Seq<char>>::empty());
        assert(comma_terminated(items.drop_last()) == Seq::<char>::empty());
        assert(comma_terminated(items) == comma_terminated(items.drop_last()) + items.last() + ", "@);
        assert(joined(items, ", "@) == items[0]);
        assert(comma_terminated(items) =~= joined(items, ", "@) + ", "@);
    } else {
        lemma_comma_terminated_joined(items.drop_last());
        assert(comma_terminated(items) == comma_terminated(items.drop_last()) + items.last() + ", "@);
        assert(joined(items, ", "@) == joined(items.drop_last(), ", "@) + ", "@ + items.last());
        assert(comma_terminated(items) =~= joined(items, ", "@) + ", "@);
    }
}

/// The text of a plain list in a control line is its items joined by `, `.
pub proof fn lemma_list_text(items: Seq<Seq<char>>)
    requires
        plain_list(items),
    ensures
        trim_end_str(comma_terminated(items), ", "@) == joined(items, ", "@),
{
    reveal_strlit(", ");
    if items.len() == 0 {
        assert(comma_terminated(items) =~= Seq::<char>::empty());
    } else {
        lemma_comma_terminated_joined(items);
        let j = joined(items, ", "@);
        let s = j + ", "@;
        assert(ends_with(s, ", "@)) by {
            assert(s.subrange(s.len() - 2, s.len() as int) =~= ", "@);
        }
        assert(s.take(s.len() - 2) =~= j);
        let last = items.last();
        if items.len() == 1 {
            assert(j == last);
        } else {
            assert(j == joined(items.drop_last(), ", "@) + ", "@ + last);
        }
        if j.len() >= 2 && ends_with(j, ", "@) {
            assert(j.subrange(j.len() - 2, j.len() as int) == ", "@);
            if last.len() >= 2 {
                assert(last.subrange(last.len() - 2, last.len() as int) =~= j.subrange(
                    j.len() - 2,
                    j.len() as int,
                ));
                assert(ends_with(last, ", "@));
            } else {
                assert(items.len() > 1);
                assert(j[j.len() - 2] == ' ');
                assert(j.subrange(j.len() - 2, j.len() as int)[0] == ',');
            }
        }
        assert(trim_end_str(s, ", "@) == trim_end_str(j, ", "@));
    }
}

/// A line that stands after a line break occurs, with that break, in the text.
proof fn lemma_line_in(pre: Seq<char>, line: Seq<char>, post: Seq<char>)
    requires
        pre.len() > 0,
        pre.last() == '\n',
    ensures
        contains_infix(pre + line + post, seq!['\n'] + line),
{
    let s = pre + line + post;
    let i = pre.len() - 1;
    assert(s.subrange(i, i + 1 + line.len()) =~= seq!['\n'] + line);
    assert(occurs_at(s, seq!['\n'] + line, i));
}

/// A list line put after a line break is found, with that break, in the text; a plain list
/// shows as its items joined by `, `.
proof fn lemma_list_line_in(
    pre: Seq<char>,
    label: Seq<char>,
    items: Option<Vec<String>>,
    post: Seq<char>,
)
    requires
        pre.len() > 0,
        pre.last() == '\n',
    ensures
        items is Some ==> contains_infix(pre + list_line(label, items) + post, seq!['\n'] + list_line(label, items)),
        items matches Some(v) ==> plain_list(string_views(v@)) ==> contains_infix(
            pre + list_line(label, items) + post,
            seq!['\n'] + label + joined(string_views(v@), ", "@) + seq!['\n'],
        ),
        (pre + list_line(label, items)).len() > 0,
        (pre + list_line(label, items)).last() == '\n',
{
    let line = list_line(label, items);
    lemma_line_in(pre, line, post);
    if let Some(v) = items {
        if plain_list(string_views(v@)) {
            lemma_list_text(string_views(v@));
            assert(seq!['\n'] + line =~= seq!['\n'] + label + joined(string_views(v@), ", "@)
                + seq!['\n']);
        }
        assert((pre + line).last() == line.last());
    } else {
        assert(pre + line =~= pre);
    }
}

proof fn lemma_head_ends_line(info: MetadataRep)
    ensures
        control_head(info).len() > 0,
        control_head(info).last() == '\n',
{
}

/// Every list a recipe gives appears in the control file on a line of its own, under its
/// field: `Depends`, `Conflicts`, `Breaks` (for what it obsoletes) and `Provides`, the items
/// separated by `, `.
pub proof fn lemma_control_lists(info: MetadataRep)
    ensures
        info.depends matches Some(v) ==> contains_infix(
            spec_deb_control(info),
            seq!['\n'] + list_line("Depends: "@, info.depends),
        ),
        info.conflicts matches Some(v) ==> contains_infix(
            spec_deb_control(info),
            seq!['\n'] + list_line("Conflicts: "@, info.conflicts),
        ),
        info.obsoletes matches Some(v) ==> contains_infix(
            spec_deb_control(info),
            seq!['\n'] + list_line("Breaks: "@, info.obsoletes),
        ),
        info.provides matches Some(v) ==> contains_infix(
            spec_deb_control(info),
            seq!['\n'] + list_line("Provides: "@, info.provides),
        ),
        info.depends matches Some(v) ==> plain_list(string_views(v@)) ==> contains_infix(
            spec_deb_control(info),
            seq!['\n'] + "Depends: "@ + joined(string_views(v@), ", "@) + seq!['\n'],
        ),
        info.conflicts matches Some(v) ==> plain_list(string_views(v@)) ==> contains_infix(
            spec_deb_control(info),
            seq!['\n'] + "Conflicts: "@ + joined(string_views(v@), ", "@) + seq!['\n'],
        ),
        info.obsoletes matches Some(v) ==> plain_list(string_views(v@)) ==> contains_infix(
            spec_deb_control(info),
            seq!['\n'] + "Breaks: "@ + joined(string_views(v@), ", "@) + seq!['\n'],
        ),
        info.provides matches Some(v) ==> plain_list(string_views(v@)) ==> contains_infix(
            spec_deb_control(info),
            seq!['\n'] + "Provides: "@ + joined(string_views(v@), ", "@) + seq!['\n'],
        ),
{
    let head = control_head(info);
    let ld = list_line("Depends: "@, info.depends);
    let lc = list_line("Conflicts: "@, info.conflicts);
    let lb = list_line("Breaks: "@, info.obsoletes);
    let lp = list_line("Provides: "@, info.provides);
    let tail = control_tail(info);
    let s = spec_deb_control(info);
    lemma_head_ends_line(info);
    lemma_list_line_in(head, "Depends: "@, info.depends, lc + lb + lp + tail);
    assert(head + ld + (lc + lb + lp + tail) =~= s);
    lemma_list_line_in(head + ld, "Conflicts: "@, info.conflicts, lb + lp + tail);
    assert(head + ld + lc + (lb + lp + tail) =~= s);
    lemma_list_line_in(head + ld + lc, "Breaks: "@, info.obsoletes, lp + tail);
    assert(head + ld + lc + lb + (lp + tail) =~= s);
    lemma_list_line_in(head + ld + lc + lb, "Provides: "@, info.provides, tail);
}

/// `s` without every copy of `p` at its end.
pub fn trim_end_matches(s: &str, p: &str) -> (r: String)
    ensures
        r@ == trim_end_str(s@, p@),
{
    let cs = chars_of(s);
    let ps = chars_of(p);
    let mut end: usize = cs.len();
    let mut cur = string_from_chars(&cs, 0, end);
    let mut cur_cs = chars_of(cur.as_str());
    assert(cs@.take(end as int) =~= cs@);
    while ps.len() > 0 && cur_cs.len() >= ps.len() && ends_with_exec(&cur_cs, &ps)
        invariant
            end <= cs@.len(),
            cs@ == s@,
            ps@ == p@,
            cur@ == s@.take(end as int),
            cur_cs@ == cur@,
            trim_end_str(s@, p@) == trim_end_str(cur@, p@),
        decreases end,
    {
        end = end - ps.len();
        assert(cur@.take(cur@.len() - p@.len()) =~= s@.take(end as int));
        cur = string_from_chars(&cs, 0, end);
        cur_cs = chars_of(cur.as_str());
    }
    cur
}

/// Each item followed by `, `.
fn comma_terminated_exec(items: &Vec<String>) -> (r: String)
    ensures
        r@ == comma_terminated(string_views(items@)),
{
    let mut out = String::new();
    let mut i: usize = 0;
    assert(string_views(items@.take(0)) =~= Seq::<Seq<char>>::empty());
    while i < items.len()
        invariant
            i <= items@.len(),
            out@ == comma_terminated(string_views(items@.take(i as int))),
        decreases items@.len() - i,
    {
        assert(string_views(items@.take(i + 1)).drop_last() =~= string_views(items@.take(i as int)));
        append_str(&mut out, items[i].as_str());
        append_str(&mut out, ", ");
        i += 1;
    }
    assert(items@.take(i as int) =~= items@);
    out
}

/// Appends the line `label` with the items, when there is a list.
fn push_list_line(control: &mut String, label: &str, items: &Option<Vec<String>>)
    ensures
        final(control)@ == old(control)@ + list_line(label@, *items),
{
    match items {
        Some(v) => {
            append_str(control, label);
            let list = comma_terminated_exec(v);
            let trimmed = trim_end_matches(list.as_str(), ", ");
            append_str(control, trimmed.as_str());
            crate::text::push_char(control, '\n');
        },
        None => {
            assert(old(control)@ + Seq::<char>::empty() =~= old(control)@);
        },
    }
}

/// Writes the control file of the package `info` describes.
pub fn generate_deb_control(info: &MetadataRep) -> (r: String)
    ensures
        r@ == spec_deb_control(*info),
        info.depends matches Some(v) ==> plain_list(string_views(v@)) ==> contains_infix(
            r@,
            seq!['\n'] + "Depends: "@ + joined(string_views(v@), ", "@) + seq!['\n'],
        ),
        info.conflicts matches Some(v) ==> plain_list(string_views(v@)) ==> contains_infix(
            r@,
            seq!['\n'] + "Conflicts: "@ + joined(string_views(v@), ", "@) + seq!['\n'],
        ),
        info.obsoletes matches Some(v) ==> plain_list(string_views(v@)) ==> contains_infix(
            r@,
            seq!['\n'] + "Breaks: "@ + joined(string_views(v@), ", "@) + seq!['\n'],
        ),
        info.provides matches Some(v) ==> plain_list(string_views(v@)) ==> contains_infix(
            r@,
            seq!['\n'] + "Provides: "@ + joined(string_views(v@), ", "@) + seq!['\n'],
        ),
{
    let control = deb_control_text(info);
    proof {
        lemma_control_lists(*info);
    }
    control
}

/// The text of the control file of the package `info` describes.
fn deb_control_text(info: &MetadataRep) -> (r: String)
    ensures
        r@ == spec_deb_control(*info),
{
    let arch = if str_eq(info.arch.as_str(), "x86_64") {
        "amd64"
    } else {
        "all"
    };
    let mut control = String::new();
    append_str(&mut control, "Package: ");
    append_str(&mut control, info.name.as_str());
    append_str(&mut control, "\nVersion: ");
    append_str(&mut control, info.version.as_str());
    append_str(&mut control, "-");
    append_str(&mut control, info.revision.as_str());
    append_str(&mut control, "\nArchitecture: ");
    append_str(&mut control, arch);
    append_str(&mut control, "\n");
    append_str(&mut control, "Section: ");
    match &info.section {
        Some(section) => append_str(&mut control, section.as_str()),
        None => append_str(&mut control, "custom"),
    }
    append_str(&mut control, "\nPriority: ");
    match &info.priority {
        Some(priority) => append_str(&mut control, priority.as_str()),
        None => append_str(&mut control, "optional"),
    }
    crate::text::push_char(&mut control, '\n');
    push_list_line(&mut control, "Depends: ", &info.depends);
    push_list_line(&mut control, "Conflicts: ", &info.conflicts);
    push_list_line(&mut control, "Breaks: ", &info.obsoletes);
    push_list_line(&mut control, "Provides: ", &info.provides);
    append_str(&mut control, "Maintainer: ");
    match &info.maintainer {
        Some(maintainer) => append_str(&mut control, maintainer.as_str()),
        None => append_str(&mut control, "null <null@email.com>"),
    }
    append_str(&mut control, "\nDescription: ");
    append_str(&mut control, info.description.as_str());
    append_str(&mut control, "\n");
    control
}

/// The DEB name of an architecture: `amd64` for `amd64` or `x86_64`, `i386` for `x86` or
/// `i386`, any other name as given, and `all` when none is given.
pub open spec fn spec_deb_arch(arch: Option<Seq<char>>) -> Seq<char> {
    match arch {
        None => "all"@,
        Some(a) => if a == "amd64"@ || a == "x86_64"@ {
            "amd64"@
        } else if a == "x86"@ || a == "i386"@ {
            "i386"@
        } else {
            a
        },
    }
}

/// The RPM name of an architecture: `x86_64` for `amd64` or `x86_64`, `x86` for `x86` or
/// `i386`, any other name as given, and `noarch` when none is given.
pub open spec fn spec_rpm_arch(arch: Option<Seq<char>>) -> Seq<char> {
    match arch {
        None => "noarch"@,
        Some(a) => if a == "amd64"@ || a == "x86_64"@ {
            "x86_64"@
        } else if a == "x86"@ || a == "i386"@ {
            "x86"@
        } else {
            a
        },
    }
}

/// The optional architecture as characters.
pub open spec fn opt_view(o: Option<String>) -> Option<Seq<char>> {
    match o {
        Some(s) => Some(s@),
        None => None,
    }
}

/// The DEB name of the recipe's architecture.
pub fn deb_arch(arch: &Option<String>) -> (r: &str)
    ensures
        r@ == spec_deb_arch(opt_view(*arch)),
{
    match arch {
        Some(a) => {
            let s = a.as_str();
            if str_eq(s, "amd64") || str_eq(s, "x86_64") {
                "amd64"
            } else if str_eq(s, "x86") || str_eq(s, "i386") {
                "i386"
            } else {
                s
            }
        },
        None => "all",
    }
}

/// The RPM name of the recipe's architecture.
pub fn rpm_arch(arch: &Option<String>) -> (r: &str)
    ensures
        r@ == spec_rpm_arch(opt_view(*arch)),
{
    match arch {
        Some(a) => {
            let s = a.as_str();
            if str_eq(s, "amd64") || str_eq(s, "x86_64") {
                "x86_64"
            } else if str_eq(s, "x86") || str_eq(s, "i386") {
                "x86"
            } else {
                s
            }
        },
        None => "noarch",
    }
}

} // verus!
