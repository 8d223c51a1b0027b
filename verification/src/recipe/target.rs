//! A recipe paired with the image it is built on.

use super::metadata::{BuildTarget, ImageTarget, Os};
use vstd::prelude::*;

verus! {

#[derive(Clone, Debug, Eq, PartialEq, Hash)]
pub struct RecipeTarget {
    name: String,
    image_target: ImageTarget,
}

impl RecipeTarget {
    pub closed spec fn spec_name(&self) -> Seq<char> {
        self.name@
    }

    pub closed spec fn spec_image_target(&self) -> ImageTarget {
        self.image_target
    }

    pub fn new(name: String, image_target: ImageTarget) -> (r: Self)
        ensures
            r.spec_name() == name@,
            r.spec_image_target() == image_target,
    {
        Self { name, image_target }
    }

    pub fn build_target(&self) -> (r: &BuildTarget)
        ensures
            *r == self.spec_image_target().build_target,
    {
        &self.image_target.build_target
    }

    pub fn recipe(&self) -> (r: &str)
        ensures
            r@ == self.spec_name(),
    {
        self.name.as_str()
    }

    pub fn image(&self) -> (r: &str)
        ensures
            r@ == self.spec_image_target().image@,
    {
        self.image_target.image.as_str()
    }

    pub fn image_os(&self) -> (r: &Option<Os>)
        ensures
            *r == self.spec_image_target().os,
    {
        &self.image_target.os
    }
}

} // verus!
