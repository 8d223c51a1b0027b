//! What a build command asks for: which recipes, on which images or simple targets, through
//! which container runtime.

use crate::cli::config::Config;
use crate::recipe::metadata::deps::list_contains;
use crate::text::string_views;
use vstd::prelude::*;

verus! {

/// The options of a build command.
#[derive(Clone, Debug)]
pub struct BuildOpts {
    /// Recipes to build; all when empty.
    pub recipes: Vec<String>,
    /// Targets to build on the default images of each target.
    pub simple: Option<Vec<String>>,
    /// Images to build on, among the custom images.
    pub images: Option<Vec<String>>,
    /// URI of the container runtime.
    pub docker: Option<String>,
}

/// What a build does.
#[derive(Clone, Debug)]
pub struct BuildPlan {
    /// The recipes to build, in the order asked; `None` for all of them.
    pub recipes: Option<Vec<String>>,
    pub simple_targets: Vec<String>,
    /// The custom images to build on; all when empty.
    pub images_filter: Vec<String>,
    /// URI of the container runtime; `None` for the default one.
    pub docker_uri: Option<String>,
    /// Whether there is anything to build.
    pub proceed: bool,
}

/// The requested names that are available, each once, in the order first asked.
pub open spec fn selected_names(requested: Seq<Seq<char>>, available: Seq<Seq<char>>) -> Seq<
    Seq<char>,
>
    decreases requested.len(),
{
    if requested.len() == 0 {
        Seq::empty()
    } else {
        let pre = selected_names(requested.drop_last(), available);
        let r = requested.last();
        if available.contains(r) && !pre.contains(r) {
            pre.push(r)
        } else {
            pre
        }
    }
}

/// The requested images that exist, in the order asked (an image asked twice is kept twice).
pub open spec fn existing_images(requested: Seq<Seq<char>>, existing: Seq<Seq<char>>) -> Seq<
    Seq<char>,
>
    decreases requested.len(),
{
    if requested.len() == 0 {
        Seq::empty()
    } else {
        let pre = existing_images(requested.drop_last(), existing);
        if existing.contains(requested.last()) {
            pre.push(requested.last())
        } else {
            pre
        }
    }
}

/// Options given on the command line win over the configuration: a build that goes on talks
/// to the runtime the options name, and without one to the runtime of the configuration; with
/// no recipes named, every recipe is built.
pub proof fn lemma_options_over_config(
    p: BuildPlan,
    opts: BuildOpts,
    available: Seq<Seq<char>>,
    user_images: Option<Seq<Seq<char>>>,
    config_docker: Option<String>,
)
    requires
        plan_of(p, opts, available, user_images, config_docker),
        p.proceed,
    ensures
        opts.docker matches Some(u) ==> p.docker_uri == Some(u),
        opts.docker is None ==> p.docker_uri == config_docker,
        opts.recipes@.len() == 0 ==> p.recipes is None,
{
}

/// Whether `v` holds `x`.
fn names_contain(v: &Vec<String>, x: &str) -> (b: bool)
    ensures
        b == string_views(v@).contains(x@),
{
    let b = list_contains(v, x);
    assert(crate::recipe::metadata::deps::set_of(*v) == string_views(v@).to_set());
    b
}

/// The requested names that are available, each once.
pub fn select_names(requested: &Vec<String>, available: &Vec<String>) -> (r: Vec<String>)
    ensures
        string_views(r@) == selected_names(string_views(requested@), string_views(available@)),
{
    let mut out: Vec<String> = Vec::new();
    let mut i: usize = 0;
    assert(string_views(requested@).take(0) =~= Seq::<Seq<char>>::empty());
    assert(string_views(out@) =~= Seq::<Seq<char>>::empty());
    while i < requested.len()
        invariant
            i <= requested@.len(),
            string_views(out@) == selected_names(
                string_views(requested@).take(i as int),
                string_views(available@),
            ),
        decreases requested@.len() - i,
    {
        assert(string_views(requested@).take(i + 1).drop_last() =~= string_views(requested@).take(
            i as int,
        ));
        assert(string_views(requested@).take(i + 1).last() == requested@[i as int]@);
        let name = requested[i].as_str();
        if names_contain(available, name) && !names_contain(&out, name) {
            let ghost before = out@;
            out.push(requested[i].clone());
            assert(string_views(out@) =~= string_views(before).push(name@));
        }
        i += 1;
    }
    assert(string_views(requested@).take(i as int) =~= string_views(requested@));
    out
}

/// The requested images that exist.
pub fn filter_images(requested: &Vec<String>, existing: &Vec<String>) -> (r: Vec<String>)
    ensures
        string_views(r@) == existing_images(string_views(requested@), string_views(existing@)),
{
    let mut out: Vec<String> = Vec::new();
    let mut i: usize = 0;
    assert(string_views(requested@).take(0) =~= Seq::<Seq<char>>::empty());
    assert(string_views(out@) =~= Seq::<Seq<char>>::empty());
    while i < requested.len()
        invariant
            i <= requested@.len(),
            string_views(out@) == existing_images(
                string_views(requested@).take(i as int),
                string_views(existing@),
            ),
        decreases requested@.len() - i,
    {
        assert(string_views(requested@).take(i + 1).drop_last() =~= string_views(requested@).take(
            i as int,
        ));
        assert(string_views(requested@).take(i + 1).last() == requested@[i as int]@);
        if names_contain(existing, requested[i].as_str()) {
            let ghost before = out@;
            out.push(requested[i].clone());
            assert(string_views(out@) =~= string_views(before).push(requested@[i as int]@));
        }
        i += 1;
    }
    assert(string_views(requested@).take(i as int) =~= string_views(requested@));
    out
}

/// `p` is what the build options ask for, given the recipes and custom images there are and
/// the runtime URI of the configuration: the recipes named (all when none is), and nothing to
/// build when none of them exists; the simple targets when given, otherwise the images asked
/// for that exist, and nothing to build when images are asked for but there are no custom
/// images; the runtime URI of the options, else of the configuration, else the default.
pub open spec fn plan_of(
    p: BuildPlan,
    opts: BuildOpts,
    available: Seq<Seq<char>>,
    user_images: Option<Seq<Seq<char>>>,
    config_docker: Option<String>,
) -> bool {
    let selected = selected_names(string_views(opts.recipes@), available);
    if opts.recipes@.len() > 0 && selected.len() == 0 {
        &&& !p.proceed
        &&& p.recipes matches Some(r) && r@.len() == 0
    } else {
        &&& (if opts.recipes@.len() > 0 {
            p.recipes matches Some(r) && string_views(r@) == selected
        } else {
            p.recipes is None
        })
        &&& match opts.simple {
            Some(t) => p.simple_targets@ == t@ && p.images_filter@.len() == 0 && p.proceed && p.docker_uri
                == match opts.docker {
                Some(u) => Some(u),
                None => config_docker,
            },
            None => match opts.images {
                Some(imgs) => match user_images {
                    Some(existing) => {
                        &&& p.simple_targets@.len() == 0
                        &&& string_views(p.images_filter@) == existing_images(
                            string_views(imgs@),
                            existing,
                        )
                        &&& p.proceed
                        &&& p.docker_uri == match opts.docker {
                            Some(u) => Some(u),
                            None => config_docker,
                        }
                    },
                    None => !p.proceed,
                },
                None => p.simple_targets@.len() == 0 && p.images_filter@.len() == 0 && p.proceed
                    && p.docker_uri == match opts.docker {
                    Some(u) => Some(u),
                    None => config_docker,
                },
            },
        }
    }
}

/// Decides what a build does from its options.
pub fn plan_build(
    opts: &BuildOpts,
    available: &Vec<String>,
    user_images: &Option<Vec<String>>,
    config: &Config,
) -> (p: BuildPlan)
    ensures
        plan_of(
            p,
            *opts,
            string_views(available@),
            match user_images {
                Some(v) => Some(string_views(v@)),
                None => None,
            },
            config.docker,
        ),
{
    let mut recipes: Option<Vec<String>> = None;
    if opts.recipes.len() > 0 {
        let selected = select_names(&opts.recipes, available);
        if selected.len() == 0 {
            return BuildPlan {
                recipes: Some(selected),
                simple_targets: Vec::new(),
                images_filter: Vec::new(),
                docker_uri: None,
                proceed: false,
            };
        }
        recipes = Some(selected);
    }
    let docker_uri = match &opts.docker {
        Some(u) => Some(u.clone()),
        None => match &config.docker {
            Some(u) => Some(u.clone()),
            None => None,
        },
    };
    match &opts.simple {
        Some(targets) => BuildPlan {
            recipes,
            simple_targets: crate::recipe::package::clone_strings(targets),
            images_filter: Vec::new(),
            docker_uri,
            proceed: true,
        },
        None => match &opts.images {
            Some(imgs) => match user_images {
                Some(existing) => BuildPlan {
                    recipes,
                    simple_targets: Vec::new(),
                    images_filter: filter_images(imgs, existing),
                    docker_uri,
                    proceed: true,
                },
                None => BuildPlan {
                    recipes,
                    simple_targets: Vec::new(),
                    images_filter: Vec::new(),
                    docker_uri: None,
                    proceed: false,
                },
            },
            None => BuildPlan {
                recipes,
                simple_targets: Vec::new(),
                images_filter: Vec::new(),
                docker_uri,
                proceed: true,
            },
        },
    }
}

} // verus!
