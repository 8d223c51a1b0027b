//! Jobs of the command line tool: what they report, the IDs of the containers they run in, and
//! the tools a build needs in its image.

use crate::recipe::document::Recipe;
use crate::recipe::metadata::os::str_views;
use crate::recipe::metadata::BuildTarget;
use crate::runtime::container::{lemma_ascii_prefix, CONTAINER_ID_LEN};
use vstd::utf8::{decode_utf8, is_ascii_chars_encode_utf8, is_char_boundary};
use crate::text::{chars_of, ends_with, ends_with_exec, starts_with, starts_with_exec};
use vstd::prelude::*;
use vstd::string::*;

verus! {

broadcast use vstd::string::group_string_axioms;

/// What a finished job reports.
#[derive(Debug)]
pub enum JobResult {
    Success { id: String, output: String },
    Failure { id: String, reason: String },
}

impl JobResult {
    pub fn success(id: String, output: String) -> (r: Self)
        ensures
            r == (JobResult::Success { id, output }),
    {
        JobResult::Success { id, output }
    }

    pub fn failure(id: String, reason: String) -> (r: Self)
        ensures
            r == (JobResult::Failure { id, reason }),
    {
        JobResult::Failure { id, reason }
    }
}

/// The significant part of a container ID: its first `CONTAINER_ID_LEN` bytes, which must
/// exist and end a character.
pub fn convert_id(id: &str) -> (r: &str)
    requires
        id.spec_bytes().len() >= CONTAINER_ID_LEN,
        is_char_boundary(id.spec_bytes(), CONTAINER_ID_LEN as int),
    ensures
        r.spec_bytes() == id.spec_bytes().take(CONTAINER_ID_LEN as int),
        r@ == decode_utf8(id.spec_bytes().take(CONTAINER_ID_LEN as int)),
        id.is_ascii() ==> r@ == id@.take(CONTAINER_ID_LEN as int),
{
    broadcast use vstd::utf8::encode_utf8_decode_utf8;

    let (head, _tail) = id.split_at(CONTAINER_ID_LEN);
    assert(head.spec_bytes() =~= id.spec_bytes().take(CONTAINER_ID_LEN as int));
    proof {
        if id.is_ascii() {
            is_ascii_chars_encode_utf8(id@);
            lemma_ascii_prefix(id@, head@, CONTAINER_ID_LEN as int);
        }
    }
    head
}

/// The tool that builds packages of `target`, if the build needs one: `rpm-build` for RPM,
/// `dpkg` for DEB and `gzip` for GZIP.
pub open spec fn target_tool(target: BuildTarget) -> Option<Seq<char>> {
    match target {
        BuildTarget::Rpm => Some("rpm-build"@),
        BuildTarget::Deb => Some("dpkg"@),
        BuildTarget::Gzip => Some("gzip"@),
        _ => None,
    }
}

/// The tools a build needs: `tar`, the tool of the target, and `git` for a git source, or for
/// another source `curl` when it is fetched over http and `zip` when it is a zip archive.
pub open spec fn spec_pkger_deps(target: BuildTarget, git: bool, source: Option<Seq<char>>) -> Set<
    Seq<char>,
> {
    let base = set!["tar"@];
    let with_tool = match target_tool(target) {
        Some(t) => base.insert(t),
        None => base,
    };
    if git {
        with_tool.insert("git"@)
    } else {
        match source {
            Some(src) => {
                let a = if starts_with(src, "http"@) {
                    with_tool.insert("curl"@)
                } else {
                    with_tool
                };
                if ends_with(src, ".zip"@) {
                    a.insert("zip"@)
                } else {
                    a
                }
            },
            None => with_tool,
        }
    }
}

/// Adds `item` to `out` unless it is there already.
fn add_unique(out: &mut Vec<&'static str>, item: &'static str)
    requires
        str_views(old(out)@).no_duplicates(),
    ensures
        str_views(final(out)@).no_duplicates(),
        str_views(final(out)@).to_set() == str_views(old(out)@).to_set().insert(item@),
{
    let ghost before = str_views(out@);
    let mut i: usize = 0;
    while i < out.len()
        invariant
            i <= out@.len(),
            str_views(out@) == before,
            before.no_duplicates(),
            forall|k: int| 0 <= k < i ==> before[k] != item@,
        decreases out@.len() - i,
    {
        if crate::strmap::str_eq(out[i], item) {
            assert(before[i as int] == item@);
            assert(before.to_set().contains(item@));
            assert(before.to_set().insert(item@) =~= before.to_set());
            return;
        }
        i += 1;
    }
    out.push(item);
    assert(str_views(out@) =~= before.push(item@));
    proof {
        before.lemma_push_to_set_commute(item@);
        assert(!before.contains(item@)) by {
            if before.contains(item@) {
                let k = choose|k: int| 0 <= k < before.len() && before[k] == item@;
                assert(before[k] != item@);
            }
        }
        assert forall|a: int, b: int|
            0 <= a < b < before.push(item@).len() implies before.push(item@)[a] != before.push(
            item@,
        )[b] by {
            if b == before.len() {
                assert(before[a] != item@);
            } else {
                assert(before[a] != before[b]);
            }
        }
    }
}

/// The tools a build of `recipe` for `target` needs in its image, each once.
pub fn pkger_deps(target: &BuildTarget, recipe: &Recipe) -> (r: Vec<&'static str>)
    ensures
        str_views(r@).no_duplicates(),
        str_views(r@).to_set() == spec_pkger_deps(
            *target,
            recipe.metadata.git is Some,
            match recipe.metadata.source {
                Some(s) => Some(s@),
                None => None,
            },
        ),
{
    let mut deps: Vec<&'static str> = Vec::new();
    assert(str_views(deps@) =~= Seq::<Seq<char>>::empty());
    assert(str_views(deps@).to_set() =~= Set::<Seq<char>>::empty());
    add_unique(&mut deps, "tar");
    assert(Set::<Seq<char>>::empty().insert("tar"@) =~= set!["tar"@]);
    match target {
        BuildTarget::Rpm => add_unique(&mut deps, "rpm-build"),
        BuildTarget::Deb => add_unique(&mut deps, "dpkg"),
        BuildTarget::Gzip => add_unique(&mut deps, "gzip"),
        _ => {},
    }
    if recipe.metadata.git.is_some() {
        add_unique(&mut deps, "git");
    } else if let Some(src) = &recipe.metadata.source {
        let cs = chars_of(src.as_str());
        let http = chars_of("http");
        let zip = chars_of(".zip");
        if starts_with_exec(&cs, &http) {
            add_unique(&mut deps, "curl");
        }
        if ends_with_exec(&cs, &zip) {
            add_unique(&mut deps, "zip");
        }
    }
    deps
}

} // verus!
