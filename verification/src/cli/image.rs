//! Build images kept on disk, each a directory with a Dockerfile, and what an image tells of
//! its operating system.

use crate::strmap::StrMap;
use crate::text::{
    chars_of, lines, spec_lines, split_char, split_char_str, starts_with, starts_with_exec,
    string_from_chars, string_views, trim_char, trim_char_spec, trim_end_char,
};
use vstd::prelude::*;

verus! {

/// The first of `ls` that starts with `prefix`.
pub open spec fn first_with_prefix(ls: Seq<Seq<char>>, prefix: Seq<char>) -> Option<Seq<char>>
    decreases ls.len(),
{
    if ls.len() == 0 {
        None
    } else if starts_with(ls[0], prefix) {
        Some(ls[0])
    } else {
        first_with_prefix(ls.drop_first(), prefix)
    }
}

/// The value that `KEY=value` lines give `key`: the rest of the first line that starts with
/// `key=`, without the quotes at its ends when it starts with one.
pub open spec fn spec_extract_key(out: Seq<char>, key: Seq<char>) -> Option<Seq<char>> {
    let prefix = key.push('=');
    match first_with_prefix(spec_lines(out), prefix) {
        None => None,
        Some(line) => {
            let rest = line.skip(prefix.len() as int);
            if rest.len() > 0 && rest[0] == '"' {
                Some(trim_char_spec(rest, '"'))
            } else {
                Some(rest)
            }
        },
    }
}

/// Reads the value of `key` from `KEY=value` lines, such as those of `/etc/os-release`.
pub fn extract_key(out: &str, key: &str) -> (r: Option<String>)
    ensures
        match spec_extract_key(out@, key@) {
            Some(v) => r matches Some(s) && s@ == v,
            None => r is None,
        },
{
    let mut prefix = chars_of(key);
    prefix.push('=');
    let ls = lines(out);
    let ghost sl = spec_lines(out@);
    let mut i: usize = 0;
    assert(sl.skip(0) =~= sl);
    while i < ls.len()
        invariant
            i <= ls@.len(),
            crate::text::string_views(ls@) == sl,
            sl == spec_lines(out@),
            prefix@ == key@.push('='),
            first_with_prefix(sl, prefix@) == first_with_prefix(sl.skip(i as int), prefix@),
        decreases ls@.len() - i,
    {
        let line = chars_of(ls[i].as_str());
        assert(sl[i as int] == ls@[i as int]@);
        let ghost rest_seq = sl.skip(i as int);
        assert(rest_seq.drop_first() =~= sl.skip(i + 1));
        assert(rest_seq[0] == sl[i as int]);
        if starts_with_exec(&line, &prefix) {
            let rest = string_from_chars(&line, prefix.len(), line.len());
            assert(rest@ =~= sl[i as int].skip(prefix@.len() as int));
            assert(first_with_prefix(rest_seq, prefix@) == Some(sl[i as int]));
            let rc = chars_of(rest.as_str());
            assert(line@ == sl[i as int]);
            assert(first_with_prefix(sl, key@.push('=')) == Some(sl[i as int]));
            let ghost want = spec_extract_key(out@, key@);
            if rc.len() > 0 && rc[0] == '"' {
                let t = trim_char(rest.as_str(), '"');
                assert(want == Some(t@));
                return Some(t);
            }
            assert(want == Some(rest@));
            return Some(rest);
        }
        i += 1;
    }
    assert(sl.skip(i as int) =~= Seq::<Seq<char>>::empty());
    None
}

/// The value of an `/etc/os-release` line after its key: without the carriage returns at its
/// end, then without the quotes at either end.
pub open spec fn os_release_value(rest: Seq<char>) -> Seq<char> {
    trim_char_spec(trim_end_char(rest, '\r'), '"')
}

/// The system name (`ID=`) and version (`VERSION_ID=`) that the lines of `/etc/os-release`
/// give; a later line replaces an earlier one.
pub open spec fn spec_os_release(ls: Seq<Seq<char>>) -> (Option<Seq<char>>, Option<Seq<char>>)
    decreases ls.len(),
{
    if ls.len() == 0 {
        (None, None)
    } else {
        let (id, version) = spec_os_release(ls.drop_last());
        let line = ls.last();
        if starts_with(line, "ID="@) {
            (Some(os_release_value(line.skip(3))), version)
        } else if starts_with(line, "VERSION_ID="@) {
            (id, Some(os_release_value(line.skip(11))))
        } else {
            (id, version)
        }
    }
}

/// The characters of `s` without the characters `c` at its end.
fn trim_end_chars(s: &Vec<char>, c: char) -> (r: String)
    ensures
        r@ == trim_end_char(s@, c),
{
    let mut j: usize = s.len();
    assert(s@.take(j as int) =~= s@);
    while j > 0 && s[j - 1] == c
        invariant
            j <= s@.len(),
            trim_end_char(s@, c) == trim_end_char(s@.take(j as int), c),
        decreases j,
    {
        assert(s@.take(j as int).drop_last() =~= s@.take(j - 1));
        j -= 1;
    }
    string_from_chars(s, 0, j)
}

/// Reads the system name and version from the output of `cat /etc/os-release`.
pub fn os_release_fields(out: &str) -> (r: (Option<String>, Option<String>))
    ensures
        ({
            let (id, version) = spec_os_release(split_char(out@, '\n'));
            &&& match id {
                Some(v) => r.0 matches Some(x) && x@ == v,
                None => r.0 is None,
            }
            &&& match version {
                Some(v) => r.1 matches Some(x) && x@ == v,
                None => r.1 is None,
            }
        }),
{
    let ls = split_char_str(out, '\n');
    let ghost sl = split_char(out@, '\n');
    let id_key = chars_of("ID=");
    let version_key = chars_of("VERSION_ID=");
    proof {
        reveal_strlit("ID=");
        reveal_strlit("VERSION_ID=");
    }
    let mut id: Option<String> = None;
    let mut version: Option<String> = None;
    let mut i: usize = 0;
    assert(sl.take(0) =~= Seq::<Seq<char>>::empty());
    while i < ls.len()
        invariant
            i <= ls@.len(),
            string_views(ls@) == sl,
            id_key@ == "ID="@,
            version_key@ == "VERSION_ID="@,
            id_key@.len() == 3,
            version_key@.len() == 11,
            ({
                let (sid, sver) = spec_os_release(sl.take(i as int));
                &&& match sid {
                    Some(v) => id matches Some(x) && x@ == v,
                    None => id is None,
                }
                &&& match sver {
                    Some(v) => version matches Some(x) && x@ == v,
                    None => version is None,
                }
            }),
        decreases ls@.len() - i,
    {
        assert(sl.take(i + 1).drop_last() =~= sl.take(i as int));
        assert(sl.take(i + 1).last() == ls@[i as int]@);
        let line = chars_of(ls[i].as_str());
        if starts_with_exec(&line, &id_key) {
            let rest = string_from_chars(&line, 3, line.len());
            let rc = chars_of(rest.as_str());
            let trimmed = trim_end_chars(&rc, '\r');
            id = Some(trim_char(trimmed.as_str(), '"'));
            assert(rest@ =~= line@.skip(3));
        } else if starts_with_exec(&line, &version_key) {
            let rest = string_from_chars(&line, 11, line.len());
            let rc = chars_of(rest.as_str());
            let trimmed = trim_end_chars(&rc, '\r');
            version = Some(trim_char(trimmed.as_str(), '"'));
            assert(rest@ =~= line@.skip(11));
        }
        i += 1;
    }
    assert(sl.take(i as int) =~= sl);
    (id, version)
}

/// A name for what `Path::file_name` gives for a path: its final component, if it has a
/// normal one.
pub uninterp spec fn spec_file_name(path: Seq<char>) -> Option<Seq<char>>;

/// Trusted: calls `std::path::Path::file_name`, whose result depends on the path alone; a
/// name taken from a `&str` path is valid UTF-8, so converting it loses nothing.
#[verifier::external_body]
fn file_name(path: &str) -> (r: Option<String>)
    ensures
        match spec_file_name(path@) {
            Some(n) => r matches Some(s) && s@ == n,
            None => r is None,
        },
{
    std::path::Path::new(path).file_name().map(|n| n.to_string_lossy().to_string())
}

/// Why a directory is not a build image.
#[derive(Clone, Copy, Debug, PartialEq, Eq, Structural)]
pub enum ImageError {
    /// The directory holds no Dockerfile.
    MissingDockerfile,
}

/// A build image on disk: a directory with a Dockerfile, named after the directory.
#[derive(Clone, Debug)]
pub struct FsImage {
    pub name: String,
    pub path: String,
}

impl FsImage {
    /// The image kept in the directory `path`, given whether the directory holds a
    /// Dockerfile.
    pub fn new(path: String, has_dockerfile: bool) -> (r: Result<FsImage, ImageError>)
        requires
            has_dockerfile ==> spec_file_name(path@) is Some,
        ensures
            !has_dockerfile ==> r == Err::<FsImage, ImageError>(ImageError::MissingDockerfile),
            has_dockerfile ==> (r matches Ok(img) && img.path == path && img.name@
                == spec_file_name(path@)->Some_0),
    {
        if !has_dockerfile {
            return Err(ImageError::MissingDockerfile);
        }
        match file_name(path.as_str()) {
            Some(name) => Ok(FsImage { name, path }),
            None => Err(ImageError::MissingDockerfile),
        }
    }

    /// The image kept in the directory `path`, or nothing when the path has no final name.
    pub fn try_new(path: String, has_dockerfile: bool) -> (r: Option<Result<FsImage, ImageError>>)
        ensures
            has_dockerfile && spec_file_name(path@) is None ==> r is None,
            !has_dockerfile ==> r == Some(Err::<FsImage, ImageError>(ImageError::MissingDockerfile)),
            has_dockerfile && spec_file_name(path@) is Some ==> (r matches Some(Ok(img)) && img.path
                == path && img.name@ == spec_file_name(path@)->Some_0),
    {
        if has_dockerfile {
            match file_name(path.as_str()) {
                None => {
                    return None;
                },
                Some(_) => {},
            }
        }
        Some(FsImage::new(path, has_dockerfile))
    }
}

/// The build images found in a directory, by the name of their entry.
#[derive(Debug)]
pub struct FsImages {
    inner: StrMap<FsImage>,
    path: String,
}

impl FsImages {
    pub closed spec fn wf(&self) -> bool {
        self.inner.wf()
    }

    /// The images found so far, by name.
    pub closed spec fn found(&self) -> Map<Seq<char>, FsImage> {
        self.inner@
    }

    pub closed spec fn dir(&self) -> Seq<char> {
        self.path@
    }

    /// The images of the directory `path`, none loaded yet.
    pub fn new(path: String) -> (r: Self)
        ensures
            r.wf(),
            r.found() == Map::<Seq<char>, FsImage>::empty(),
            r.dir() == path@,
    {
        FsImages { inner: StrMap::new(), path }
    }

    /// The directory the images are kept in.
    pub fn path(&self) -> (r: &str)
        ensures
            r@ == self.dir(),
    {
        self.path.as_str()
    }

    /// Records the images read from the entries of the directory, each under the name of its
    /// entry; a later entry of the same name replaces an earlier one.
    pub fn load(&mut self, read: Vec<(String, FsImage)>)
        requires
            old(self).wf(),
        ensures
            final(self).wf(),
            final(self).dir() == old(self).dir(),
            forall|k: Seq<char>|
                #![trigger final(self).found().contains_key(k)]
                final(self).found().contains_key(k) <==> (old(self).found().contains_key(k)
                    || exists|i: int| 0 <= i < read@.len() && read@[i].0@ == k),
    {
        let mut i: usize = 0;
        while i < read.len()
            invariant
                i <= read@.len(),
                self.wf(),
                self.dir() == old(self).dir(),
                forall|k: Seq<char>|
                    #![trigger self.found().contains_key(k)]
                    self.found().contains_key(k) <==> (old(self).found().contains_key(k)
                        || exists|j: int| 0 <= j < i && read@[j].0@ == k),
            decreases read@.len() - i,
        {
            let (name, image) = &read[i];
            let ghost before = self.found();
            self.inner.insert(name.clone(), image.clone());
            assert forall|k: Seq<char>| #![trigger self.found().contains_key(k)]
                self.found().contains_key(k) <==> (old(self).found().contains_key(k) || exists|
                    j: int,
                | 0 <= j < i + 1 && read@[j].0@ == k) by {
                if k == read@[i as int].0@ {
                    assert(0 <= i < i + 1 && read@[i as int].0@ == k);
                } else {
                    assert(self.found().contains_key(k) == before.contains_key(k));
                    if exists|j: int| 0 <= j < i + 1 && read@[j].0@ == k {
                        let j = choose|j: int| 0 <= j < i + 1 && read@[j].0@ == k;
                        assert(j != i);
                        assert(0 <= j < i && read@[j].0@ == k);
                    }
                }
            }
            i += 1;
        }
    }

    /// The images found, by name.
    pub fn images(&self) -> (r: &StrMap<FsImage>)
        ensures
            r@ == self.found(),
            r.wf() == self.wf(),
    {
        &self.inner
    }
}

} // verus!
