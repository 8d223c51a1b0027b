//! Images that a recipe is built on, with the target built there.

use super::os::Os;
use super::target::{spec_target_from_name, BuildTarget};
use crate::text::spec_to_lowercase;
use crate::value::{lookup, ParseError, Value};
use vstd::prelude::*;

verus! {

#[derive(Clone, Debug, Eq, PartialEq, Hash)]
pub struct ImageTarget {
    pub image: String,
    pub build_target: BuildTarget,
    pub os: Option<Os>,
}

/// What an image entry of a recipe says: the image name, the target and, if given, the name
/// of the system (its distribution recognized as `Os::new` does, with no version; it must name a
/// known distribution).
pub struct SpecImageTarget {
    pub image: Seq<char>,
    pub build_target: BuildTarget,
    pub os: Option<Seq<char>>,
}

/// Whether an image target agrees with what its entry says.
pub open spec fn image_target_matches(t: ImageTarget, s: SpecImageTarget) -> bool {
    &&& t.image@ == s.image
    &&& t.build_target == s.build_target
    &&& match s.os {
        Some(name) => t.os matches Some(os) && os@.distribution
            == super::os::spec_distro_in(spec_to_lowercase(name)) && os@.version is None,
        None => t.os is None,
    }
}

/// The image target an entry describes: a string names an image built into the default
/// target; a table needs a string `name` and may give a string `target` and a string `os`.
pub open spec fn spec_image_target_from_value(v: Value) -> Result<SpecImageTarget, ParseError> {
    match v {
        Value::Mapping(es) => match lookup(es@, "name"@) {
            Some(Value::String(name)) => {
                let target = match lookup(es@, "target"@) {
                    Some(Value::String(t)) => spec_target_from_name(t@),
                    Some(_) => Err(ParseError::TargetNotString),
                    None => Ok(BuildTarget::Gzip),
                };
                match target {
                    Err(e) => Err(e),
                    Ok(t) => match lookup(es@, "os"@) {
                        Some(Value::String(os)) => if super::os::spec_distro_in(
                            spec_to_lowercase(os@),
                        ) == super::os::Distro::Unknown {
                            Err(ParseError::UnknownOs)
                        } else {
                            Ok(SpecImageTarget { image: name@, build_target: t, os: Some(os@) })
                        },
                        Some(_) => Err(ParseError::OsNotString),
                        None => Ok(SpecImageTarget { image: name@, build_target: t, os: None }),
                    },
                }
            },
            Some(_) => Err(ParseError::ImageNameFieldNotString),
            None => Err(ParseError::MissingImageName),
        },
        Value::String(image) => Ok(
            SpecImageTarget { image: image@, build_target: BuildTarget::Gzip, os: None },
        ),
        _ => Err(ParseError::ImageNotMappingOrString),
    }
}

impl ImageTarget {
    /// An image target; an error when `os` is given and names no known distribution.
    pub fn new(image: String, build_target: BuildTarget, os: Option<&str>) -> (r: Result<
        Self,
        ParseError,
    >)
        ensures
            match os {
                Some(o) => if super::os::spec_distro_in(spec_to_lowercase(o@))
                    == super::os::Distro::Unknown {
                    r == Err::<Self, ParseError>(ParseError::UnknownOs)
                } else {
                    r matches Ok(t) && image_target_matches(
                        t,
                        SpecImageTarget { image: image@, build_target, os: Some(o@) },
                    )
                },
                None => r matches Ok(t) && image_target_matches(
                    t,
                    SpecImageTarget { image: image@, build_target, os: None },
                ),
            },
    {
        let os = match os {
            Some(name) => match Os::new(name, None) {
                Ok(o) => Some(o),
                Err(e) => {
                    return Err(e);
                },
            },
            None => None,
        };
        Ok(Self { image, build_target, os })
    }

    pub fn from_value(value: &Value) -> (r: Result<Self, ParseError>)
        ensures
            match spec_image_target_from_value(*value) {
                Ok(s) => r matches Ok(t) && image_target_matches(t, s),
                Err(e) => r == Err::<Self, ParseError>(e),
            },
    {
        match value {
            Value::Mapping(_) => match value.get("name") {
                Some(Value::String(image)) => {
                    let target = match value.get("target") {
                        Some(Value::String(t)) => BuildTarget::try_from_name(t.as_str()),
                        Some(_) => Err(ParseError::TargetNotString),
                        None => Ok(BuildTarget::default()),
                    };
                    match target {
                        Err(e) => Err(e),
                        Ok(t) => match value.get("os") {
                            Some(Value::String(os)) => ImageTarget::new(
                                image.clone(),
                                t,
                                Some(os.as_str()),
                            ),
                            Some(_) => Err(ParseError::OsNotString),
                            None => ImageTarget::new(image.clone(), t, None),
                        },
                    }
                },
                Some(_) => Err(ParseError::ImageNameFieldNotString),
                None => Err(ParseError::MissingImageName),
            },
            Value::String(image) => ImageTarget::new(image.clone(), BuildTarget::default(), None),
            _ => Err(ParseError::ImageNotMappingOrString),
        }
    }
}

} // verus!
