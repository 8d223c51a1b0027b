//! Steps of a TOML recipe and the package targets they run on.

use crate::recipe::metadata::BuildTarget;
use crate::text::string_views;
use crate::value::{collect_strings, lookup, string_list, ParseError, Value};
use vstd::prelude::*;

verus! {

/// One step of a recipe: a command, the images it is limited to and the package targets it is
/// limited to.
///
/// Examples:
/// "echo 123"
///
/// { cmd = "echo 123", images = ["centos8", "debian10"] }
///
/// { cmd = "echo 321", rpm = true } # execute only when building rpm target
#[derive(Clone, Debug)]
pub struct Cmd {
    pub cmd: String,
    pub images: Vec<String>,
    pub rpm: Option<bool>,
    pub deb: Option<bool>,
    pub pkg: Option<bool>,
    pub gzip: Option<bool>,
}

/// What a step table gives for a target flag: absent is `None`, a boolean is kept, anything
/// else is an error.
pub open spec fn spec_flag(v: Option<Value>) -> Result<Option<bool>, ParseError> {
    match v {
        None => Ok(None),
        Some(Value::Bool(b)) => Ok(Some(b)),
        Some(_) => Err(ParseError::FlagNotBool),
    }
}

/// What a step table gives for the images: absent is none, otherwise a list of strings.
pub open spec fn spec_step_images(v: Option<Value>) -> Result<Seq<Seq<char>>, ParseError> {
    match v {
        None => Ok(Seq::empty()),
        Some(Value::Sequence(items)) => match string_list(items@) {
            Some(l) => Ok(l),
            None => Err(ParseError::ImageNotString),
        },
        Some(_) => Err(ParseError::ImagesNotSequence),
    }
}

/// `c` is the step `v` describes: a string is a bare command; a table needs a string `cmd`
/// and may give `images` and the flags `rpm`, `deb`, `pkg` and `gzip`, checked in that order.
pub open spec fn step_of_value(c: Cmd, v: Value) -> bool {
    match v {
        Value::String(s) => c.cmd@ == s@ && c.images@.len() == 0 && c.rpm is None && c.deb is None
            && c.pkg is None && c.gzip is None,
        Value::Mapping(es) => {
            &&& lookup(es@, "cmd"@) matches Some(Value::String(s)) && c.cmd@ == s@
            &&& spec_step_images(lookup(es@, "images"@)) == Ok::<Seq<Seq<char>>, ParseError>(
                string_views(c.images@),
            )
            &&& spec_flag(lookup(es@, "rpm"@)) == Ok::<Option<bool>, ParseError>(c.rpm)
            &&& spec_flag(lookup(es@, "deb"@)) == Ok::<Option<bool>, ParseError>(c.deb)
            &&& spec_flag(lookup(es@, "pkg"@)) == Ok::<Option<bool>, ParseError>(c.pkg)
            &&& spec_flag(lookup(es@, "gzip"@)) == Ok::<Option<bool>, ParseError>(c.gzip)
        },
        _ => false,
    }
}

/// The error reading the step `v` meets, if any.
pub open spec fn step_error(v: Value) -> Option<ParseError> {
    match v {
        Value::String(_) => None,
        Value::Mapping(es) => match lookup(es@, "cmd"@) {
            None => Some(ParseError::MissingCmd),
            Some(Value::String(_)) => if spec_step_images(lookup(es@, "images"@)) is Err {
                Some(spec_step_images(lookup(es@, "images"@))->Err_0)
            } else if spec_flag(lookup(es@, "rpm"@)) is Err || spec_flag(lookup(es@, "deb"@)) is Err
                || spec_flag(lookup(es@, "pkg"@)) is Err || spec_flag(lookup(es@, "gzip"@)) is Err {
                Some(ParseError::FlagNotBool)
            } else {
                None
            },
            Some(_) => Some(ParseError::CmdNotString),
        },
        _ => Some(ParseError::StepNotStringOrMapping),
    }
}

/// Whether the step runs when building `target`: a step without flags runs on every target,
/// otherwise on the targets whose flag is true.
pub open spec fn spec_should_run_on(c: Cmd, target: BuildTarget) -> bool {
    if c.rpm is None && c.deb is None && c.pkg is None && c.gzip is None {
        true
    } else {
        match target {
            BuildTarget::Rpm => c.rpm == Some(true),
            BuildTarget::Deb => c.deb == Some(true),
            BuildTarget::Pkg => c.pkg == Some(true),
            BuildTarget::Gzip => c.gzip == Some(true),
            BuildTarget::Apk => false,
        }
    }
}

/// Reads a target flag of a step table.
fn read_flag(v: Option<&Value>) -> (r: Result<Option<bool>, ParseError>)
    ensures
        r == spec_flag(
            match v {
                Some(x) => Some(*x),
                None => None,
            },
        ),
{
    match v {
        None => Ok(None),
        Some(Value::Bool(b)) => Ok(Some(*b)),
        Some(_) => Err(ParseError::FlagNotBool),
    }
}

impl Cmd {
    /// A step made of a bare command.
    pub fn from(s: &str) -> (c: Self)
        ensures
            c.cmd@ == s@,
            c.images@.len() == 0,
            c.rpm is None && c.deb is None && c.pkg is None && c.gzip is None,
    {
        Cmd { cmd: s.to_owned(), images: Vec::new(), rpm: None, deb: None, pkg: None, gzip: None }
    }

    /// Reads a step from a TOML value.
    pub fn try_from_value(value: &Value) -> (r: Result<Self, ParseError>)
        ensures
            match step_error(*value) {
                Some(e) => r == Err::<Self, ParseError>(e),
                None => r matches Ok(c) && step_of_value(c, *value),
            },
    {
        match value {
            Value::String(s) => Ok(Cmd::from(s.as_str())),
            Value::Mapping(_) => {
                let cmd = match value.get("cmd") {
                    None => {
                        return Err(ParseError::MissingCmd);
                    },
                    Some(Value::String(s)) => s.clone(),
                    Some(_) => {
                        return Err(ParseError::CmdNotString);
                    },
                };
                let images = match value.get("images") {
                    None => {
                        let v: Vec<String> = Vec::new();
                        assert(string_views(v@) =~= Seq::<Seq<char>>::empty());
                        v
                    },
                    Some(Value::Sequence(items)) => match collect_strings(items) {
                        Some(v) => v,
                        None => {
                            return Err(ParseError::ImageNotString);
                        },
                    },
                    Some(_) => {
                        return Err(ParseError::ImagesNotSequence);
                    },
                };
                let rpm = read_flag(value.get("rpm"))?;
                let deb = read_flag(value.get("deb"))?;
                let pkg = read_flag(value.get("pkg"))?;
                let gzip = read_flag(value.get("gzip"))?;
                Ok(Cmd { cmd, images, rpm, deb, pkg, gzip })
            },
            _ => Err(ParseError::StepNotStringOrMapping),
        }
    }

    /// Whether the step runs when building `target`.
    pub fn should_run_on(&self, target: &BuildTarget) -> (b: bool)
        ensures
            b == spec_should_run_on(*self, *target),
    {
        if self.rpm.is_none() && self.deb.is_none() && self.pkg.is_none() && self.gzip.is_none() {
            return true;
        }
        match target {
            BuildTarget::Rpm => self.rpm == Some(true),
            BuildTarget::Deb => self.deb == Some(true),
            BuildTarget::Pkg => self.pkg == Some(true),
            BuildTarget::Gzip => self.gzip == Some(true),
            BuildTarget::Apk => false,
        }
    }
}

} // verus!
