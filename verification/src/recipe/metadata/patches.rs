//! Patches applied to the sources of a recipe, common to all images or given per image.

use crate::strmap::{str_eq, StrMap};
use crate::text::string_views;
use crate::value::{collect_strings, lookup, string_list, ParseError, Value};
use vstd::prelude::*;

verus! {

/// The key under which the patches of every image are kept.
pub const COMMON_PATCHES_KEY: &'static str = "all";

#[derive(Clone, Debug, PartialEq, Eq, PartialOrd, Ord)]
pub struct Patch {
    patch: String,
    strip: u8,
    images: Option<Vec<String>>,
}

pub struct SpecPatch {
    pub patch: Seq<char>,
    pub strip: u8,
    pub images: Option<Seq<Seq<char>>>,
}

impl View for Patch {
    type V = SpecPatch;

    closed spec fn view(&self) -> SpecPatch {
        SpecPatch {
            patch: self.patch@,
            strip: self.strip,
            images: match self.images {
                Some(v) => Some(string_views(v@)),
                None => None,
            },
        }
    }
}

/// The strip level a patch table gives: absent means 0, otherwise an integer from 0 to 255.
pub open spec fn spec_strip_level(v: Option<Value>) -> Result<u8, ParseError> {
    match v {
        None => Ok(0),
        Some(Value::Int(n)) => if 0 <= n <= 255 {
            Ok(n as u8)
        } else {
            Err(ParseError::InvalidStripLevel)
        },
        Some(_) => Err(ParseError::InvalidStripLevel),
    }
}

/// The images a patch table limits the patch to: absent or null means no limit, otherwise a
/// list of strings.
pub open spec fn spec_patch_images(v: Option<Value>) -> Result<
    Option<Seq<Seq<char>>>,
    ParseError,
> {
    match v {
        None => Ok(None),
        Some(Value::Null) => Ok(None),
        Some(Value::Sequence(items)) => match string_list(items@) {
            Some(l) => Ok(Some(l)),
            None => Err(ParseError::InvalidPatchImages),
        },
        Some(_) => Err(ParseError::InvalidPatchImages),
    }
}

/// The patch a document value describes: a string names a patch applied with strip level 0;
/// a table gives a string `patch`, and may give `strip` and `images`. Other entries of the
/// table are ignored.
pub open spec fn spec_patch_from_value(v: Value) -> Result<SpecPatch, ParseError> {
    match v {
        Value::String(p) => Ok(SpecPatch { patch: p@, strip: 0, images: None }),
        Value::Mapping(es) => match lookup(es@, "patch"@) {
            Some(Value::String(p)) => match spec_strip_level(lookup(es@, "strip"@)) {
                Ok(strip) => match spec_patch_images(lookup(es@, "images"@)) {
                    Ok(images) => Ok(SpecPatch { patch: p@, strip, images }),
                    Err(e) => Err(e),
                },
                Err(e) => Err(e),
            },
            _ => Err(ParseError::PatchNameMissing),
        },
        _ => Err(ParseError::PatchNotStringOrMapping),
    }
}

impl Patch {
    pub fn new(patch: String, strip: u8, images: Option<Vec<String>>) -> (p: Self)
        ensures
            p@.patch == patch@,
            p@.strip == strip,
            p@.images == match images {
                Some(v) => Some(string_views(v@)),
                None => None::<Seq<Seq<char>>>,
            },
    {
        Self { patch, strip, images }
    }

    pub fn images(&self) -> (r: Option<&[String]>)
        ensures
            match self@.images {
                Some(l) => r matches Some(s) && string_views(s@) == l,
                None => r is None,
            },
    {
        match &self.images {
            Some(v) => Some(v.as_slice()),
            None => None,
        }
    }

    pub fn patch(&self) -> (r: &str)
        ensures
            r@ == self@.patch,
    {
        self.patch.as_str()
    }

    pub fn strip_level(&self) -> (r: u8)
        ensures
            r == self@.strip,
    {
        self.strip
    }

    /// Reads a patch from a document value.
    pub fn from_value(value: &Value) -> (r: Result<Self, ParseError>)
        ensures
            match spec_patch_from_value(*value) {
                Ok(p) => r matches Ok(x) && x@ == p,
                Err(e) => r == Err::<Self, ParseError>(e),
            },
    {
        match value {
            Value::String(p) => Ok(Patch::new(p.clone(), 0, None)),
            Value::Mapping(_) => {
                let name = match value.get("patch") {
                    Some(Value::String(p)) => p.clone(),
                    _ => {
                        return Err(ParseError::PatchNameMissing);
                    },
                };
                let strip: u8 = match value.get("strip") {
                    None => 0,
                    Some(Value::Int(n)) => {
                        if 0 <= *n && *n <= 255 {
                            *n as u8
                        } else {
                            return Err(ParseError::InvalidStripLevel);
                        }
                    },
                    Some(_) => {
                        return Err(ParseError::InvalidStripLevel);
                    },
                };
                let images = match value.get("images") {
                    None => None,
                    Some(Value::Null) => None,
                    Some(Value::Sequence(items)) => match collect_strings(items) {
                        Some(v) => Some(v),
                        None => {
                            return Err(ParseError::InvalidPatchImages);
                        },
                    },
                    Some(_) => {
                        return Err(ParseError::InvalidPatchImages);
                    },
                };
                Ok(Patch::new(name, strip, images))
            },
            _ => Err(ParseError::PatchNotStringOrMapping),
        }
    }
}

/// Patches by image name.
pub type PatchesMap = Map<Seq<char>, Seq<SpecPatch>>;

/// The views of a list of patches.
pub open spec fn patch_views(v: Seq<Patch>) -> Seq<SpecPatch> {
    v.map_values(|p: Patch| p@)
}

/// The views of a list of borrowed patches.
pub open spec fn ref_views(v: Seq<&Patch>) -> Seq<SpecPatch> {
    v.map_values(|p: &Patch| p@)
}

/// The view of a map of patch lists.
pub open spec fn patches_view(m: StrMap<Vec<Patch>>) -> PatchesMap {
    m@.map_values(|v: Vec<Patch>| patch_views(v@))
}

/// Patches before any are given: an empty common list.
pub open spec fn default_patches() -> PatchesMap {
    map![COMMON_PATCHES_KEY@ => Seq::<SpecPatch>::empty()]
}

/// The patches a list of values describes, in order; the first bad one decides the error.
pub open spec fn patch_list(items: Seq<Value>) -> Result<Seq<SpecPatch>, ParseError>
    decreases items.len(),
{
    if items.len() == 0 {
        Ok(Seq::empty())
    } else {
        match patch_list(items.drop_last()) {
            Ok(l) => match spec_patch_from_value(items.last()) {
                Ok(p) => Ok(l.push(p)),
                Err(e) => Err(e),
            },
            Err(e) => Err(e),
        }
    }
}

/// Adds one entry of a patch table: the list of patches of one image, replacing any before.
pub open spec fn patches_add_entry(m: PatchesMap, e: (Value, Value)) -> Result<
    PatchesMap,
    ParseError,
> {
    match e.1 {
        Value::Sequence(items) => match patch_list(items@) {
            Err(x) => Err(x),
            Ok(l) => match e.0 {
                Value::String(name) => Ok(m.insert(name@, l)),
                _ => Err(ParseError::ImageNameNotString),
            },
        },
        _ => Err(ParseError::PatchesNotSequence),
    }
}

/// The patches a table gives, entry after entry; the first bad entry decides the error.
pub open spec fn patches_from_entries(es: Seq<(Value, Value)>) -> Result<PatchesMap, ParseError>
    decreases es.len(),
{
    if es.len() == 0 {
        Ok(default_patches())
    } else {
        match patches_from_entries(es.drop_last()) {
            Ok(m) => patches_add_entry(m, es.last()),
            Err(e) => Err(e),
        }
    }
}

/// The patches a document value gives: a table by image, or a list common to all images.
pub open spec fn spec_patches_from_value(v: Value) -> Result<PatchesMap, ParseError> {
    match v {
        Value::Mapping(es) => patches_from_entries(es@),
        Value::Sequence(items) => match patch_list(items@) {
            Ok(l) => Ok(map![COMMON_PATCHES_KEY@ => l]),
            Err(e) => Err(e),
        },
        _ => Err(ParseError::NotMappingOrSequence),
    }
}

/// The patches stored for `image`, none when it has no entry.
pub open spec fn patches_of(m: PatchesMap, image: Seq<char>) -> Seq<SpecPatch> {
    if m.contains_key(image) {
        m[image]
    } else {
        Seq::empty()
    }
}

/// The patches applied on `image`: the common ones first, then its own (the common list is
/// not repeated when `image` is the common key).
pub open spec fn resolved_patches(m: PatchesMap, image: Seq<char>) -> Seq<SpecPatch> {
    patches_of(m, COMMON_PATCHES_KEY@) + if image != COMMON_PATCHES_KEY@ {
        patches_of(m, image)
    } else {
        Seq::empty()
    }
}

#[derive(Clone, Debug)]
pub struct Patches {
    inner: StrMap<Vec<Patch>>,
}

impl View for Patches {
    type V = PatchesMap;

    closed spec fn view(&self) -> PatchesMap {
        patches_view(self.inner)
    }
}

/// Reads every patch of a list.
pub fn read_patch_list(items: &Vec<Value>) -> (r: Result<Vec<Patch>, ParseError>)
    ensures
        match patch_list(items@) {
            Ok(l) => r matches Ok(v) && patch_views(v@) == l,
            Err(e) => r == Err::<Vec<Patch>, ParseError>(e),
        },
{
    let mut out: Vec<Patch> = Vec::new();
    let mut i: usize = 0;
    assert(items@.take(0) =~= Seq::<Value>::empty());
    assert(patch_views(out@) =~= Seq::<SpecPatch>::empty());
    while i < items.len()
        invariant
            i <= items@.len(),
            patch_list(items@.take(i as int)) == Ok::<Seq<SpecPatch>, ParseError>(
                patch_views(out@),
            ),
        decreases items@.len() - i,
    {
        assert(items@.take(i + 1).drop_last() =~= items@.take(i as int));
        assert(items@.take(i + 1).last() == items@[i as int]);
        let ghost before = out@;
        match Patch::from_value(&items[i]) {
            Ok(p) => {
                out.push(p);
                assert(patch_views(out@) =~= patch_views(before).push(p@));
            },
            Err(e) => {
                proof {
                    lemma_patch_list_prefix_err(items@, i as int + 1);
                }
                return Err(e);
            },
        }
        i += 1;
    }
    assert(items@.take(i as int) =~= items@);
    Ok(out)
}

/// Once a prefix of a patch list fails, the whole list fails with the same error.
pub proof fn lemma_patch_list_prefix_err(items: Seq<Value>, k: int)
    requires
        0 <= k <= items.len(),
        patch_list(items.take(k)) is Err,
    ensures
        patch_list(items) == patch_list(items.take(k)),
    decreases items.len() - k,
{
    if k < items.len() {
        assert(items.take(k + 1).drop_last() =~= items.take(k));
        lemma_patch_list_prefix_err(items, k + 1);
    } else {
        assert(items.take(k) =~= items);
    }
}

/// Once a prefix of a patch table fails, the whole table fails with the same error.
pub proof fn lemma_patches_prefix_err(es: Seq<(Value, Value)>, k: int)
    requires
        0 <= k <= es.len(),
        patches_from_entries(es.take(k)) is Err,
    ensures
        patches_from_entries(es) == patches_from_entries(es.take(k)),
    decreases es.len() - k,
{
    if k < es.len() {
        assert(es.take(k + 1).drop_last() =~= es.take(k));
        lemma_patches_prefix_err(es, k + 1);
    } else {
        assert(es.take(k) =~= es);
    }
}

/// Appends references to all of `items` to `out`.
fn push_all<'a>(out: &mut Vec<&'a Patch>, items: &'a Vec<Patch>)
    ensures
        ref_views(final(out)@) == ref_views(old(out)@) + patch_views(
            items@,
        ),
{
    let ghost start = ref_views(old(out)@);
    let mut i: usize = 0;
    assert(patch_views(items@).take(0) =~= Seq::<SpecPatch>::empty());
    assert(ref_views(out@) =~= start + patch_views(items@).take(0));
    while i < items.len()
        invariant
            i <= items@.len(),
            ref_views(out@) == start + patch_views(items@).take(i as int),
        decreases items@.len() - i,
    {
        let ghost before = out@;
        out.push(&items[i]);
        assert(ref_views(out@) =~= ref_views(before).push(items@[i as int]@));
        assert(patch_views(items@).take(i + 1) =~= patch_views(items@).take(i as int).push(
            items@[i as int]@,
        ));
        assert(ref_views(out@) =~= start + patch_views(items@).take(i + 1));
        i += 1;
    }
    assert(patch_views(items@).take(items@.len() as int) =~= patch_views(items@));
}

impl Patches {
    pub closed spec fn wf(&self) -> bool {
        self.inner.wf()
    }

    /// Patches with an empty common list.
    pub fn default() -> (p: Self)
        ensures
            p.wf(),
            p@ == default_patches(),
    {
        let mut inner = StrMap::new();
        let empty: Vec<Patch> = Vec::new();
        assert(patch_views(empty@) =~= Seq::<SpecPatch>::empty());
        let ghost before = inner@;
        inner.insert(String::from_str(COMMON_PATCHES_KEY), empty);
        let p = Patches { inner };
        assert(inner@ =~= before.insert(COMMON_PATCHES_KEY@, empty));
        assert(p@ =~= default_patches());
        p
    }

    /// Reads patches from a document value: a table of lists by image name, or a list common
    /// to all images.
    pub fn from_value(value: &Value) -> (r: Result<Self, ParseError>)
        ensures
            match spec_patches_from_value(*value) {
                Ok(m) => r matches Ok(p) && p.wf() && p@ == m,
                Err(e) => r == Err::<Self, ParseError>(e),
            },
    {
        match value {
            Value::Mapping(es) => {
                let mut patches = Self::default();
                let mut i: usize = 0;
                assert(es@.take(0) =~= Seq::<(Value, Value)>::empty());
                while i < es.len()
                    invariant
                        *value == Value::Mapping(*es),
                        i <= es@.len(),
                        patches.wf(),
                        patches_from_entries(es@.take(i as int)) == Ok::<PatchesMap, ParseError>(
                            patches@,
                        ),
                    decreases es@.len() - i,
                {
                    let ghost m = patches@;
                    assert(es@.take(i + 1).drop_last() =~= es@.take(i as int));
                    assert(es@.take(i + 1).last() == es@[i as int]);
                    let (image, image_patches) = &es[i];
                    match image_patches {
                        Value::Sequence(items) => {
                            let list = match read_patch_list(items) {
                                Ok(l) => l,
                                Err(e) => {
                                    proof {
                                        lemma_patches_prefix_err(es@, i as int + 1);
                                    }
                                    return Err(e);
                                },
                            };
                            let name = match image {
                                Value::String(name) => name.clone(),
                                _ => {
                                    proof {
                                        lemma_patches_prefix_err(es@, i as int + 1);
                                    }
                                    return Err(ParseError::ImageNameNotString);
                                },
                            };
                            let ghost old_inner = patches.inner@;
                            let ghost k = name@;
                            let ghost l = list;
                            patches.inner.insert(name, list);
                            assert(patches.inner@ == old_inner.insert(k, l));
                            assert(patches@ =~= m.insert(k, patch_views(l@)));
                        },
                        _ => {
                            proof {
                                lemma_patches_prefix_err(es@, i as int + 1);
                            }
                            return Err(ParseError::PatchesNotSequence);
                        },
                    }
                    i += 1;
                }
                assert(es@.take(i as int) =~= es@);
                Ok(patches)
            },
            Value::Sequence(array) => {
                match read_patch_list(array) {
                    Ok(list) => {
                        let mut patches = Self::default();
                        let ghost old_inner = patches.inner@;
                        let ghost l = list;
                        assert(patches@.dom() == old_inner.dom());
                        assert(default_patches().dom() =~= set![COMMON_PATCHES_KEY@]);
                        patches.inner.insert(String::from_str(COMMON_PATCHES_KEY), list);
                        assert(patches.inner@ == old_inner.insert(COMMON_PATCHES_KEY@, l));
                        assert(patches_view(patches.inner).dom() =~= set![COMMON_PATCHES_KEY@]);
                        assert(patches@ =~= map![COMMON_PATCHES_KEY@ => patch_views(l@)]);
                        Ok(patches)
                    },
                    Err(e) => Err(e),
                }
            },
            _ => Err(ParseError::NotMappingOrSequence),
        }
    }

    /// The patches applied on `image`: the common ones, then its own.
    pub fn resolve_names(&self, image: &str) -> (r: Vec<&Patch>)
        requires
            self.wf(),
        ensures
            ref_views(r@) == resolved_patches(self@, image@),
    {
        let mut patches: Vec<&Patch> = Vec::new();
        assert(ref_views(patches@) =~= Seq::<SpecPatch>::empty());
        if let Some(common_patches) = self.inner.get(COMMON_PATCHES_KEY) {
            push_all(&mut patches, common_patches);
        }
        assert(ref_views(patches@) =~= patches_of(self@, COMMON_PATCHES_KEY@));
        if !str_eq(image, COMMON_PATCHES_KEY) {
            if let Some(image_patches) = self.inner.get(image) {
                push_all(&mut patches, image_patches);
            }
        }
        assert(ref_views(patches@) =~= resolved_patches(self@, image@));
        patches
    }

    pub fn inner(&self) -> (r: &StrMap<Vec<Patch>>)
        ensures
            patches_view(*r) == self@,
            r.wf() == self.wf(),
    {
        &self.inner
    }

    pub fn inner_mut(&mut self) -> (r: &mut StrMap<Vec<Patch>>)
        ensures
            patches_view(*r) == old(self)@,
            r.wf() == old(self).wf(),
            patches_view(*final(r)) == final(self)@,
            final(r).wf() == final(self).wf(),
    {
        &mut self.inner
    }
}

/// The common patches come first for every image, and the common key itself gets them once.
pub proof fn lemma_common_patches_first(m: PatchesMap, image: Seq<char>)
    ensures
        resolved_patches(m, image).subrange(0, patches_of(m, COMMON_PATCHES_KEY@).len() as int)
            == patches_of(m, COMMON_PATCHES_KEY@),
        image == COMMON_PATCHES_KEY@ ==> resolved_patches(m, image) == patches_of(
            m,
            COMMON_PATCHES_KEY@,
        ),
{
    assert(resolved_patches(m, image).subrange(0, patches_of(m, COMMON_PATCHES_KEY@).len() as int)
        =~= patches_of(m, COMMON_PATCHES_KEY@));
    if image == COMMON_PATCHES_KEY@ {
        assert(resolved_patches(m, image) =~= patches_of(m, COMMON_PATCHES_KEY@));
    }
}

} // verus!
