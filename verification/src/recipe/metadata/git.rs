//! Git repositories as recipe sources.

use crate::value::{lookup, ParseError, Value};
use vstd::prelude::*;
use vstd::string::*;

verus! {

#[derive(Clone, Debug, PartialEq, Eq)]
pub struct GitSource {
    url: String,
    // defaults to master
    branch: String,
}

pub struct SpecGitSource {
    pub url: Seq<char>,
    pub branch: Seq<char>,
}

impl View for GitSource {
    type V = SpecGitSource;

    closed spec fn view(&self) -> SpecGitSource {
        SpecGitSource { url: self.url@, branch: self.branch@ }
    }
}

/// The git source a document value describes: a string is a repository URL on branch `master`;
/// a table needs a string `url` and may give a string `branch`.
pub open spec fn spec_git_from_value(v: Value) -> Result<SpecGitSource, ParseError> {
    match v {
        Value::Mapping(es) => match lookup(es@, "url"@) {
            Some(Value::String(url)) => match lookup(es@, "branch"@) {
                Some(Value::String(branch)) => Ok(SpecGitSource { url: url@, branch: branch@ }),
                Some(_) => Err(ParseError::BranchNotString),
                None => Ok(SpecGitSource { url: url@, branch: "master"@ }),
            },
            Some(_) => Err(ParseError::UrlNotString),
            None => Err(ParseError::MissingUrl),
        },
        Value::String(url) => Ok(SpecGitSource { url: url@, branch: "master"@ }),
        _ => Err(ParseError::GitNotMappingOrString),
    }
}

impl GitSource {
    /// A repository URL on the given branch, `master` when none is given.
    pub fn new(url: String, branch: Option<String>) -> (g: Self)
        ensures
            g@.url == url@,
            g@.branch == match branch {
                Some(b) => b@,
                None => "master"@,
            },
    {
        Self {
            url,
            branch: match branch {
                Some(b) => b,
                None => String::from_str("master"),
            },
        }
    }

    /// A repository URL on branch `master`.
    pub fn from(s: &str) -> (g: Self)
        ensures
            g@.url == s@,
            g@.branch == "master"@,
    {
        Self { url: String::from_str(s), branch: String::from_str("master") }
    }

    pub fn from_value(value: &Value) -> (r: Result<Self, ParseError>)
        ensures
            match spec_git_from_value(*value) {
                Ok(g) => r matches Ok(x) && x@ == g,
                Err(e) => r == Err::<Self, ParseError>(e),
            },
    {
        match value {
            Value::Mapping(_) => match value.get("url") {
                Some(Value::String(url)) => match value.get("branch") {
                    Some(Value::String(branch)) => Ok(
                        GitSource::new(url.clone(), Some(branch.clone())),
                    ),
                    Some(_) => Err(ParseError::BranchNotString),
                    None => Ok(GitSource::new(url.clone(), None)),
                },
                Some(_) => Err(ParseError::UrlNotString),
                None => Err(ParseError::MissingUrl),
            },
            Value::String(s) => Ok(Self::from(s.as_str())),
            _ => Err(ParseError::GitNotMappingOrString),
        }
    }

    pub fn url(&self) -> (r: &str)
        ensures
            r@ == self@.url,
    {
        self.url.as_str()
    }

    pub fn branch(&self) -> (r: &str)
        ensures
            r@ == self@.branch,
    {
        self.branch.as_str()
    }
}

} // verus!
