//! Build images: when an image built before can be used again, and the Dockerfile of an image
//! with the dependencies of a recipe installed.

use crate::build::commands::{lemma_install_line, unprompted_install};
use crate::cli::os::{spec_install_args, spec_pm_name, spec_update_repos_args, PackageManager};
use crate::recipe::metadata::os::str_views;
use crate::runtime::container::{join, joined};
use crate::recipe::metadata::deps::{list_contains, str_list_contains};
use crate::text::{append_str, string_views};
use vstd::prelude::*;

verus! {

/// Whether an image built before can be used again: it must still exist, and have been built
/// with the dependencies wanted now (with none, when the recipe wants none).
pub open spec fn spec_reuse_image(
    cached_deps: Set<Seq<char>>,
    wanted: Option<Set<Seq<char>>>,
    exists: bool,
) -> bool {
    match wanted {
        Some(w) => w == cached_deps && exists,
        None => cached_deps.is_empty() && exists,
    }
}

/// Whether the set of `a` equals the set of `b`.
fn same_set(a: &Vec<String>, b: &Vec<&str>) -> (r: bool)
    ensures
        r == (string_views(a@).to_set() == str_views(b@).to_set()),
{
    let ghost sa = string_views(a@).to_set();
    let ghost sb = str_views(b@).to_set();
    let mut i: usize = 0;
    while i < a.len()
        invariant
            i <= a@.len(),
            sa == string_views(a@).to_set(),
            sb == str_views(b@).to_set(),
            forall|k: int| 0 <= k < i ==> sb.contains(#[trigger] string_views(a@)[k]),
        decreases a@.len() - i,
    {
        if !str_list_contains(b, a[i].as_str()) {
            assert(sa.contains(string_views(a@)[i as int]));
            return false;
        }
        i += 1;
    }
    let mut j: usize = 0;
    while j < b.len()
        invariant
            j <= b@.len(),
            sa == string_views(a@).to_set(),
            sb == str_views(b@).to_set(),
            forall|k: int| 0 <= k < a@.len() ==> sb.contains(#[trigger] string_views(a@)[k]),
            forall|k: int| 0 <= k < j ==> sa.contains(#[trigger] str_views(b@)[k]),
        decreases b@.len() - j,
    {
        if !list_contains(a, b[j]) {
            assert(sb.contains(str_views(b@)[j as int]));
            return false;
        }
        j += 1;
    }
    proof {
        assert forall|x: Seq<char>| sa.contains(x) == sb.contains(x) by {
            if sa.contains(x) {
                let k = choose|k: int| 0 <= k < string_views(a@).len() && string_views(a@)[k] == x;
                assert(sb.contains(string_views(a@)[k]));
            }
            if sb.contains(x) {
                let k = choose|k: int| 0 <= k < str_views(b@).len() && str_views(b@)[k] == x;
                assert(sa.contains(str_views(b@)[k]));
            }
        }
        assert(sa =~= sb);
    }
    true
}

/// Whether an image built before, with `cached_deps`, can be used again for a build that
/// wants `wanted` (`None` when the recipe has no build dependencies), given whether the image
/// still exists.
pub fn reuse_image(cached_deps: &Vec<String>, wanted: Option<&Vec<&str>>, exists: bool) -> (r: bool)
    ensures
        r == spec_reuse_image(
            string_views(cached_deps@).to_set(),
            match wanted {
                Some(w) => Some(str_views(w@).to_set()),
                None => None,
            },
            exists,
        ),
{
    match wanted {
        Some(w) => same_set(cached_deps, w) && exists,
        None => {
            proof {
                if cached_deps@.len() > 0 {
                    assert(string_views(cached_deps@)[0] == cached_deps@[0]@);
                    assert(string_views(cached_deps@).to_set().contains(cached_deps@[0]@));
                } else {
                    assert(string_views(cached_deps@).to_set() =~= Set::<Seq<char>>::empty());
                }
            }
            cached_deps.len() == 0 && exists
        },
    }
}

/// The Dockerfile of the image `image:tag` with `deps` installed by its package manager: it
/// updates the repositories, then installs the dependencies.
pub open spec fn spec_cache_dockerfile(
    image: Seq<char>,
    tag: Seq<char>,
    pm: PackageManager,
    deps: Seq<Seq<char>>,
) -> Seq<char> {
    "\nFROM "@ + image + ":"@ + tag + "\nRUN "@ + spec_pm_name(pm) + " "@ + joined(
        spec_update_repos_args(pm),
        " "@,
    ) + "\nRUN "@ + spec_pm_name(pm) + " "@ + joined(spec_install_args(pm), " "@) + " "@ + joined(
        deps,
        " "@,
    ) + "\n"@
}

/// Owned copies of the strings.
fn owned(v: Vec<&'static str>) -> (r: Vec<String>)
    ensures
        string_views(r@) == str_views(v@),
{
    crate::recipe::package::to_strings(&v)
}

/// The Dockerfile of the image `image:tag` with `deps` installed.
pub fn cache_dockerfile(image: &str, tag: &str, pm: &PackageManager, deps: &Vec<String>) -> (r:
    String)
    ensures
        r@ == spec_cache_dockerfile(image@, tag@, *pm, string_views(deps@)),
        exists|pre: Seq<char>, line: Seq<char>|
            r@ == pre + "\nRUN "@ + line + "\n"@ && unprompted_install(
                *pm,
                string_views(deps@),
                line,
            ),
{
    proof {
        let ds = string_views(deps@);
        let line = spec_pm_name(*pm) + " "@ + joined(spec_install_args(*pm), " "@) + " "@ + joined(
            ds,
            " "@,
        );
        let pre = "\nFROM "@ + image@ + ":"@ + tag@ + "\nRUN "@ + spec_pm_name(*pm) + " "@ + joined(
            spec_update_repos_args(*pm),
            " "@,
        );
        lemma_install_line(*pm, ds);
        assert(spec_cache_dockerfile(image@, tag@, *pm, ds) =~= pre + "\nRUN "@ + line + "\n"@);
    }
    let name = pm.as_ref();
    let update = join(&owned(pm.update_repos_args()), " ");
    let install = join(&owned(pm.install_args()), " ");
    let deps_line = join(deps, " ");
    let mut d = String::new();
    append_str(&mut d, "\nFROM ");
    append_str(&mut d, image);
    append_str(&mut d, ":");
    append_str(&mut d, tag);
    append_str(&mut d, "\nRUN ");
    append_str(&mut d, name);
    append_str(&mut d, " ");
    append_str(&mut d, update.as_str());
    append_str(&mut d, "\nRUN ");
    append_str(&mut d, name);
    append_str(&mut d, " ");
    append_str(&mut d, install.as_str());
    append_str(&mut d, " ");
    append_str(&mut d, deps_line.as_str());
    append_str(&mut d, "\n");
    d
}

} // verus!
