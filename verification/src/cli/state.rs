//! The saved state of the images built so far: for each recipe and the image and target it is
//! built on, what was recorded of the image that was made.

use crate::cli::metadata::ImageTarget;
use crate::cli::os::Os;
use crate::recipe::metadata::BuildTarget;
use crate::recipe::package::clone_strings;
use crate::strmap::str_eq;
use vstd::prelude::*;

verus! {

/// The file the state is kept in unless another one is given.
pub const DEFAULT_STATE_FILE: &'static str = ".pkger.state";

/// A recipe paired with the image, and the target, it is built on.
#[derive(Clone, Debug)]
pub struct RecipeTarget {
    name: String,
    image_target: ImageTarget,
}

/// What identifies a recipe target: the recipe's name, the image and the target.
pub struct SpecRecipeTarget {
    pub name: Seq<char>,
    pub image: Seq<char>,
    pub target: BuildTarget,
}

impl View for RecipeTarget {
    type V = SpecRecipeTarget;

    closed spec fn view(&self) -> SpecRecipeTarget {
        SpecRecipeTarget {
            name: self.name@,
            image: self.image_target.image@,
            target: self.image_target.target,
        }
    }
}

impl RecipeTarget {
    pub fn new(name: String, image_target: ImageTarget) -> (r: Self)
        ensures
            r@ == (SpecRecipeTarget {
                name: name@,
                image: image_target.image@,
                target: image_target.target,
            }),
    {
        Self { name, image_target }
    }

    /// A copy with the same name, image and target.
    pub fn duplicate(&self) -> (r: Self)
        ensures
            r@ == self@,
    {
        Self {
            name: self.name.clone(),
            image_target: ImageTarget {
                image: self.image_target.image.clone(),
                target: self.image_target.target,
            },
        }
    }

    /// Whether two recipe targets name the same recipe, image and target.
    pub fn same(&self, other: &Self) -> (b: bool)
        ensures
            b == (self@ == other@),
    {
        str_eq(self.name.as_str(), other.name.as_str()) && str_eq(
            self.image_target.image.as_str(),
            other.image_target.image.as_str(),
        ) && same_target(self.image_target.target, other.image_target.target)
    }
}

/// Whether two build targets are the same.
pub fn same_target(a: BuildTarget, b: BuildTarget) -> (r: bool)
    ensures
        r == (a == b),
{
    match (a, b) {
        (BuildTarget::Rpm, BuildTarget::Rpm) => true,
        (BuildTarget::Deb, BuildTarget::Deb) => true,
        (BuildTarget::Gzip, BuildTarget::Gzip) => true,
        (BuildTarget::Pkg, BuildTarget::Pkg) => true,
        (BuildTarget::Apk, BuildTarget::Apk) => true,
        _ => false,
    }
}

/// A copy of a system description.
pub fn duplicate_os(os: &Os) -> (r: Os)
    ensures
        r == *os,
{
    match os {
        Os::Arch(v) => Os::Arch(v.clone()),
        Os::Centos(v) => Os::Centos(v.clone()),
        Os::Debian(v) => Os::Debian(v.clone()),
        Os::Fedora(v) => Os::Fedora(v.clone()),
        Os::Redhat(v) => Os::Redhat(v.clone()),
        Os::Ubuntu(v) => Os::Ubuntu(v.clone()),
        Os::Unknown => Os::Unknown,
    }
}

/// What was recorded of an image made for a recipe target: its ID, the image it was made from,
/// its tag, its system, when it was made (in seconds since the Unix epoch), the dependencies
/// installed in it and whether it was made for a simple build.
#[derive(Clone, Debug)]
pub struct ImageState {
    pub id: String,
    pub image: String,
    pub tag: String,
    pub os: Os,
    pub timestamp: u64,
    pub deps: Vec<String>,
    pub simple: bool,
}

/// What an image state holds, each text by its characters.
pub struct SpecImageState {
    pub id: Seq<char>,
    pub image: Seq<char>,
    pub tag: Seq<char>,
    pub os: Os,
    pub timestamp: u64,
    pub deps: Seq<String>,
    pub simple: bool,
}

impl View for ImageState {
    type V = SpecImageState;

    open spec fn view(&self) -> SpecImageState {
        SpecImageState {
            id: self.id@,
            image: self.image@,
            tag: self.tag@,
            os: self.os,
            timestamp: self.timestamp,
            deps: self.deps@,
            simple: self.simple,
        }
    }
}

impl ImageState {
    /// A copy with the same fields.
    pub fn duplicate(&self) -> (r: Self)
        ensures
            r@ == self@,
    {
        ImageState {
            id: self.id.clone(),
            image: self.image.clone(),
            tag: self.tag.clone(),
            os: duplicate_os(&self.os),
            timestamp: self.timestamp,
            deps: clone_strings(&self.deps),
            simple: self.simple,
        }
    }
}

/// The states of a list of entries, a later entry for the same target replacing an earlier one.
pub open spec fn state_map(es: Seq<(RecipeTarget, ImageState)>) -> Map<
    SpecRecipeTarget,
    SpecImageState,
>
    decreases es.len(),
{
    if es.len() == 0 {
        Map::empty()
    } else {
        state_map(es.drop_last()).insert(es.last().0@, es.last().1@)
    }
}

/// No target occurs twice among the entries.
pub open spec fn targets_distinct(es: Seq<(RecipeTarget, ImageState)>) -> bool {
    forall|i: int, j: int| 0 <= i < j < es.len() ==> es[i].0@ != es[j].0@
}

proof fn lemma_state_map_absent(es: Seq<(RecipeTarget, ImageState)>, k: SpecRecipeTarget)
    requires
        forall|j: int| 0 <= j < es.len() ==> es[j].0@ != k,
    ensures
        !state_map(es).contains_key(k),
    decreases es.len(),
{
    if es.len() > 0 {
        lemma_state_map_absent(es.drop_last(), k);
    }
}

proof fn lemma_state_map_at(es: Seq<(RecipeTarget, ImageState)>, i: int)
    requires
        targets_distinct(es),
        0 <= i < es.len(),
    ensures
        state_map(es).contains_key(es[i].0@),
        state_map(es)[es[i].0@] == es[i].1@,
    decreases es.len(),
{
    if i < es.len() - 1 {
        lemma_state_map_at(es.drop_last(), i);
    }
}

proof fn lemma_state_map_update(
    es: Seq<(RecipeTarget, ImageState)>,
    i: int,
    e: (RecipeTarget, ImageState),
)
    requires
        targets_distinct(es),
        0 <= i < es.len(),
        e.0@ == es[i].0@,
    ensures
        state_map(es.update(i, e)) == state_map(es).insert(e.0@, e.1@),
    decreases es.len(),
{
    let u = es.update(i, e);
    if i == es.len() - 1 {
        assert(u.drop_last() =~= es.drop_last());
        assert(state_map(u) =~= state_map(es).insert(e.0@, e.1@));
    } else {
        assert(u.drop_last() =~= es.drop_last().update(i, e));
        lemma_state_map_update(es.drop_last(), i, e);
        assert(es.last().0@ != e.0@);
        assert(state_map(u) =~= state_map(es).insert(e.0@, e.1@));
    }
}

/// The saved states of the images, by recipe target, and the file they are kept in.
#[derive(Debug)]
pub struct ImagesState {
    images: Vec<(RecipeTarget, ImageState)>,
    pub state_file: String,
}

impl View for ImagesState {
    type V = Map<SpecRecipeTarget, SpecImageState>;

    closed spec fn view(&self) -> Map<SpecRecipeTarget, SpecImageState> {
        state_map(self.images@)
    }
}

impl ImagesState {
    /// The file the states are kept in.
    pub closed spec fn spec_state_file(&self) -> Seq<char> {
        self.state_file@
    }

    /// Each recipe target has at most one entry.
    pub closed spec fn wf(&self) -> bool {
        targets_distinct(self.images@)
    }

    /// No states, kept in the default state file.
    pub fn default() -> (s: Self)
        ensures
            s.wf(),
            s@ == Map::<SpecRecipeTarget, SpecImageState>::empty(),
            s.spec_state_file() == DEFAULT_STATE_FILE@,
    {
        let s = ImagesState { images: Vec::new(), state_file: String::from_str(DEFAULT_STATE_FILE) };
        assert(s@ =~= Map::<SpecRecipeTarget, SpecImageState>::empty());
        s
    }

    /// The state saved for a recipe target, if any.
    pub fn get(&self, target: &RecipeTarget) -> (r: Option<&ImageState>)
        requires
            self.wf(),
        ensures
            match r {
                Some(s) => self@.contains_key(target@) && self@[target@] == s@,
                None => !self@.contains_key(target@),
            },
    {
        let mut i: usize = 0;
        while i < self.images.len()
            invariant
                self.wf(),
                i <= self.images@.len(),
                forall|j: int| 0 <= j < i ==> self.images@[j].0@ != target@,
            decreases self.images@.len() - i,
        {
            if self.images[i].0.same(target) {
                proof {
                    lemma_state_map_at(self.images@, i as int);
                }
                return Some(&self.images[i].1);
            }
            i += 1;
        }
        proof {
            lemma_state_map_absent(self.images@, target@);
        }
        None
    }

    /// Records `state` as the state of the image of `target`, replacing what was saved for it.
    pub fn update(&mut self, target: &RecipeTarget, state: &ImageState)
        requires
            old(self).wf(),
        ensures
            final(self).wf(),
            final(self)@ == old(self)@.insert(target@, state@),
            final(self).spec_state_file() == old(self).spec_state_file(),
    {
        let entry = (target.duplicate(), state.duplicate());
        let mut i: usize = 0;
        while i < self.images.len()
            invariant
                self.images@ == old(self).images@,
                self.state_file == old(self).state_file,
                targets_distinct(self.images@),
                entry.0@ == target@,
                entry.1@ == state@,
                i <= self.images@.len(),
                forall|j: int| 0 <= j < i ==> self.images@[j].0@ != target@,
            decreases self.images@.len() - i,
        {
            if self.images[i].0.same(target) {
                proof {
                    lemma_state_map_update(self.images@, i as int, entry);
                }
                self.images.set(i, entry);
                assert(targets_distinct(self.images@));
                return;
            }
            i += 1;
        }
        let ghost before = self.images@;
        self.images.push(entry);
        assert(self.images@.drop_last() =~= before);
        assert(targets_distinct(self.images@));
    }
}

} // verus!
