//! Options of containers and of commands executed in them, and their output.

use crate::recipe::envs::Env;
use crate::text::{append_str, chars_of, push_char, string_views};
use vstd::prelude::*;
use vstd::string::*;
use vstd::utf8::{decode_utf8, encode_utf8, encode_utf8_decode_utf8, is_ascii_chars, is_ascii_chars_encode_utf8, is_char_boundary, valid_utf8};

verus! {

broadcast use vstd::string::group_string_axioms;

/// Length of the significant characters of a container ID.
pub const CONTAINER_ID_LEN: usize = 12;

/// The shell a command runs in unless another one is chosen.
pub const DEFAULT_SHELL: &'static str = "/bin/sh";

/// The significant part of a container ID, given by its UTF-8 bytes: its first
/// `CONTAINER_ID_LEN` bytes.
pub open spec fn spec_truncate(id: Seq<u8>) -> Seq<u8> {
    if id.len() > CONTAINER_ID_LEN {
        id.take(CONTAINER_ID_LEN as int)
    } else {
        id
    }
}

/// The first `n` bytes of an ASCII text are its first `n` characters.
pub proof fn lemma_ascii_prefix(s: Seq<char>, r: Seq<char>, n: int)
    requires
        is_ascii_chars(s),
        0 <= n <= s.len(),
        encode_utf8(r) == encode_utf8(s).take(n),
    ensures
        r == s.take(n),
{
    is_ascii_chars_encode_utf8(s);
    let p = s.take(n);
    assert(is_ascii_chars(p));
    is_ascii_chars_encode_utf8(p);
    assert(encode_utf8(p) =~= encode_utf8(s).take(n));
    encode_utf8_decode_utf8(p);
    encode_utf8_decode_utf8(r);
}

/// Shortens a container ID to its significant part, cutting its UTF-8 text after the
/// `CONTAINER_ID_LEN`th byte, which must then end a character.
pub fn truncate(id: &str) -> (r: &str)
    requires
        id.spec_bytes().len() > CONTAINER_ID_LEN ==> is_char_boundary(
            id.spec_bytes(),
            CONTAINER_ID_LEN as int,
        ),
    ensures
        r.spec_bytes() == spec_truncate(id.spec_bytes()),
        r@ == decode_utf8(spec_truncate(id.spec_bytes())),
        id.is_ascii() ==> r@ == (if id@.len() > CONTAINER_ID_LEN {
            id@.take(CONTAINER_ID_LEN as int)
        } else {
            id@
        }),
{
    broadcast use vstd::utf8::encode_utf8_decode_utf8;

    let n = id.as_bytes().len();
    if n > CONTAINER_ID_LEN {
        let (head, _tail) = id.split_at(CONTAINER_ID_LEN);
        assert(head.spec_bytes() =~= spec_truncate(id.spec_bytes()));
        proof {
            if id.is_ascii() {
                is_ascii_chars_encode_utf8(id@);
                lemma_ascii_prefix(id@, head@, CONTAINER_ID_LEN as int);
            }
        }
        head
    } else {
        proof {
            if id.is_ascii() {
                is_ascii_chars_encode_utf8(id@);
            }
        }
        id
    }
}

/// Characters a container name may hold: `[a-zA-Z0-9_.-]`.
pub open spec fn valid_name_char(c: char) -> bool {
    ('a' <= c && c <= 'z') || ('A' <= c && c <= 'Z') || ('0' <= c && c <= '9') || c == '-' || c
        == '.' || c == '_'
}

/// A name with every character that a container name may not hold left out.
pub open spec fn spec_fix_name(s: Seq<char>) -> Seq<char>
    decreases s.len(),
{
    if s.len() == 0 {
        Seq::empty()
    } else if valid_name_char(s.last()) {
        spec_fix_name(s.drop_last()).push(s.last())
    } else {
        spec_fix_name(s.drop_last())
    }
}

/// Removes the characters that a container name may not hold.
pub fn fix_name(name: &str) -> (r: String)
    ensures
        r@ == spec_fix_name(name@),
{
    let cs = chars_of(name);
    let mut out = String::new();
    let mut i: usize = 0;
    assert(name@.take(0) =~= Seq::<char>::empty());
    while i < cs.len()
        invariant
            i <= cs@.len(),
            cs@ == name@,
            out@ == spec_fix_name(name@.take(i as int)),
        decreases cs@.len() - i,
    {
        let c = cs[i];
        assert(name@.take(i + 1).drop_last() =~= name@.take(i as int));
        assert(name@.take(i + 1).last() == c);
        if ('a' <= c && c <= 'z') || ('A' <= c && c <= 'Z') || ('0' <= c && c <= '9') || c == '-'
            || c == '.' || c == '_' {
            push_char(&mut out, c);
        }
        i += 1;
    }
    assert(name@.take(i as int) =~= name@);
    out
}

/// The parts joined into one text, with `sep` between each two.
pub open spec fn joined(parts: Seq<Seq<char>>, sep: Seq<char>) -> Seq<char>
    decreases parts.len(),
{
    if parts.len() == 0 {
        Seq::empty()
    } else if parts.len() == 1 {
        parts[0]
    } else {
        joined(parts.drop_last(), sep) + sep + parts.last()
    }
}

/// Joins the strings, with `sep` between each two.
pub fn join(parts: &Vec<String>, sep: &str) -> (r: String)
    ensures
        r@ == joined(string_views(parts@), sep@),
{
    let mut out = String::new();
    let mut i: usize = 0;
    assert(string_views(parts@.take(0)) =~= Seq::<Seq<char>>::empty());
    while i < parts.len()
        invariant
            i <= parts@.len(),
            out@ == joined(string_views(parts@.take(i as int)), sep@),
        decreases parts@.len() - i,
    {
        let ghost before = string_views(parts@.take(i as int));
        if i > 0 {
            append_str(&mut out, sep);
        }
        append_str(&mut out, parts[i].as_str());
        assert(string_views(parts@.take(i + 1)) =~= before.push(parts@[i as int]@));
        assert(string_views(parts@.take(i + 1)).drop_last() =~= before);
        i += 1;
    }
    assert(parts@.take(i as int) =~= parts@);
    out
}

/// What a command run in a container printed, and how it exited.
#[derive(Debug)]
pub struct Output<T> {
    pub stdout: Vec<T>,
    pub stderr: Vec<T>,
    pub exit_code: u64,
}

/// A piece of what a running command printed, on one of its two streams.
pub enum Chunk {
    StdOut(Vec<u8>),
    StdErr(Vec<u8>),
}

/// A chunk of output that is not valid UTF-8.
#[derive(Clone, Copy, Debug, PartialEq, Eq, Structural)]
pub struct InvalidUtf8;

/// Decodes UTF-8 bytes.
///
/// Trusted: calls `std::str::from_utf8`, which std documents as succeeding exactly on valid
/// UTF-8, and then gives the characters the bytes encode.
#[verifier::external_body]
fn decode_utf8_bytes(bytes: &[u8]) -> (r: Option<String>)
    ensures
        r is Some <==> valid_utf8(bytes@),
        r matches Some(s) ==> s@ == decode_utf8(bytes@),
{
    match std::str::from_utf8(bytes) {
        Ok(s) => Some(s.to_string()),
        Err(_) => None,
    }
}

impl<T> Output<T> {
    /// Nothing printed yet, exit code 0.
    pub fn new() -> (o: Self)
        ensures
            o.stdout@ == Seq::<T>::empty(),
            o.stderr@ == Seq::<T>::empty(),
            o.exit_code == 0,
    {
        Output { stdout: Vec::new(), stderr: Vec::new(), exit_code: 0 }
    }
}

impl Output<String> {
    /// The lines printed on standard output when the command exited with 0; otherwise an error
    /// that holds what it printed on standard error, one chunk per line.
    pub fn as_result(self) -> (r: Result<Vec<String>, String>)
        ensures
            self.exit_code == 0 ==> r == Ok::<Vec<String>, String>(self.stdout),
            self.exit_code != 0 ==> (r matches Err(e) && e@ == joined(
                string_views(self.stderr@),
                "\n"@,
            )),
    {
        if self.exit_code != 0 {
            Err(join(&self.stderr, "\n"))
        } else {
            Ok(self.stdout)
        }
    }

    /// Records a chunk of what the command printed, decoded as UTF-8, on its stream.
    pub fn push_chunk(&mut self, chunk: Chunk) -> (r: Result<(), InvalidUtf8>)
        ensures
            match chunk {
                Chunk::StdOut(b) => if valid_utf8(b@) {
                    r is Ok && final(self).exit_code == old(self).exit_code
                        && final(self).stderr == old(self).stderr
                        && string_views(final(self).stdout@) == string_views(old(self).stdout@).push(
                        decode_utf8(b@),
                    )
                } else {
                    r is Err && *final(self) == *old(self)
                },
                Chunk::StdErr(b) => if valid_utf8(b@) {
                    r is Ok && final(self).exit_code == old(self).exit_code
                        && final(self).stdout == old(self).stdout
                        && string_views(final(self).stderr@) == string_views(old(self).stderr@).push(
                        decode_utf8(b@),
                    )
                } else {
                    r is Err && *final(self) == *old(self)
                },
            },
    {
        match chunk {
            Chunk::StdOut(b) => match decode_utf8_bytes(b.as_slice()) {
                Some(s) => {
                    let ghost before = self.stdout@;
                    self.stdout.push(s);
                    assert(string_views(self.stdout@) =~= string_views(before).push(
                        decode_utf8(b@),
                    ));
                    Ok(())
                },
                None => Err(InvalidUtf8),
            },
            Chunk::StdErr(b) => match decode_utf8_bytes(b.as_slice()) {
                Some(s) => {
                    let ghost before = self.stderr@;
                    self.stderr.push(s);
                    assert(string_views(self.stderr@) =~= string_views(before).push(
                        decode_utf8(b@),
                    ));
                    Ok(())
                },
                None => Err(InvalidUtf8),
            },
        }
    }
}

impl Output<u8> {
    /// Records a chunk of what the command printed, as bytes, on its stream.
    pub fn push_chunk(&mut self, chunk: Chunk)
        ensures
            final(self).exit_code == old(self).exit_code,
            match chunk {
                Chunk::StdOut(b) => final(self).stdout@ == old(self).stdout@ + b@
                    && final(self).stderr == old(self).stderr,
                Chunk::StdErr(b) => final(self).stderr@ == old(self).stderr@ + b@
                    && final(self).stdout == old(self).stdout,
            },
    {
        match chunk {
            Chunk::StdOut(mut b) => self.stdout.append(&mut b),
            Chunk::StdErr(mut b) => self.stderr.append(&mut b),
        }
    }
}

/// Options of a container to create.
#[derive(Clone, Debug)]
pub struct CreateOpts {
    pub image: String,
    pub name: Option<String>,
    pub cmd: Option<Vec<String>>,
    pub entrypoint: Option<Vec<String>>,
    pub labels: Option<Vec<(String, String)>>,
    pub volumes: Option<Vec<String>>,
    pub env: Option<Env>,
    pub working_dir: Option<String>,
}

impl CreateOpts {
    /// A container of `image`, with nothing else set.
    pub fn new(image: String) -> (o: Self)
        ensures
            o == (CreateOpts {
                image,
                name: None,
                cmd: None,
                entrypoint: None,
                labels: None,
                volumes: None,
                env: None,
                working_dir: None,
            }),
    {
        CreateOpts {
            image,
            name: None,
            cmd: None,
            entrypoint: None,
            labels: None,
            volumes: None,
            env: None,
            working_dir: None,
        }
    }

    pub fn name(self, name: String) -> (o: Self)
        ensures
            o == (CreateOpts { name: Some(name), ..self }),
    {
        CreateOpts { name: Some(name), ..self }
    }

    pub fn cmd(self, command: Vec<String>) -> (o: Self)
        ensures
            o == (CreateOpts { cmd: Some(command), ..self }),
    {
        CreateOpts { cmd: Some(command), ..self }
    }

    pub fn entrypoint(self, entrypoint: Vec<String>) -> (o: Self)
        ensures
            o == (CreateOpts { entrypoint: Some(entrypoint), ..self }),
    {
        CreateOpts { entrypoint: Some(entrypoint), ..self }
    }

    pub fn labels(self, labels: Vec<(String, String)>) -> (o: Self)
        ensures
            o == (CreateOpts { labels: Some(labels), ..self }),
    {
        CreateOpts { labels: Some(labels), ..self }
    }

    pub fn volumes(self, volumes: Vec<String>) -> (o: Self)
        ensures
            o == (CreateOpts { volumes: Some(volumes), ..self }),
    {
        CreateOpts { volumes: Some(volumes), ..self }
    }

    pub fn env(self, env: Env) -> (o: Self)
        ensures
            o == (CreateOpts { env: Some(env), ..self }),
    {
        CreateOpts { env: Some(env), ..self }
    }

    pub fn working_dir(self, working_dir: String) -> (o: Self)
        ensures
            o == (CreateOpts { working_dir: Some(working_dir), ..self }),
    {
        CreateOpts { working_dir: Some(working_dir), ..self }
    }
}

/// Options of a command to execute in a running container.
#[derive(Clone, Debug)]
pub struct ExecOpts<'opts> {
    pub cmd: &'opts str,
    pub allocate_tty: bool,
    pub attach_stdout: bool,
    pub attach_stderr: bool,
    pub privileged: bool,
    pub shell: &'opts str,
    pub user: Option<&'opts str>,
    pub working_dir: Option<&'opts str>,
    pub env: Option<Env>,
}

impl<'opts> ExecOpts<'opts> {
    /// An empty command run by the default shell with both output streams attached, no tty,
    /// no privileges, no user, directory or environment of its own.
    pub fn new() -> (o: Self)
        ensures
            o.cmd@ == Seq::<char>::empty(),
            !o.allocate_tty,
            o.attach_stdout,
            o.attach_stderr,
            !o.privileged,
            o.shell@ == DEFAULT_SHELL@,
            o.user is None,
            o.working_dir is None,
            o.env is None,
    {
        proof {
            reveal_strlit("");
        }
        ExecOpts {
            cmd: "",
            allocate_tty: false,
            attach_stdout: true,
            attach_stderr: true,
            privileged: false,
            shell: DEFAULT_SHELL,
            user: None,
            working_dir: None,
            env: None,
        }
    }

    pub fn cmd(self, command: &'opts str) -> (o: Self)
        ensures
            o == (ExecOpts { cmd: command, ..self }),
    {
        ExecOpts { cmd: command, ..self }
    }

    pub fn tty(self, allocate: bool) -> (o: Self)
        ensures
            o == (ExecOpts { allocate_tty: allocate, ..self }),
    {
        ExecOpts { allocate_tty: allocate, ..self }
    }

    pub fn attach_stdout(self, attach: bool) -> (o: Self)
        ensures
            o == (ExecOpts { attach_stdout: attach, ..self }),
    {
        ExecOpts { attach_stdout: attach, ..self }
    }

    pub fn attach_stderr(self, attach: bool) -> (o: Self)
        ensures
            o == (ExecOpts { attach_stderr: attach, ..self }),
    {
        ExecOpts { attach_stderr: attach, ..self }
    }

    pub fn privileged(self, privileged: bool) -> (o: Self)
        ensures
            o == (ExecOpts { privileged, ..self }),
    {
        ExecOpts { privileged, ..self }
    }

    pub fn user(self, user: &'opts str) -> (o: Self)
        ensures
            o == (ExecOpts { user: Some(user), ..self }),
    {
        ExecOpts { user: Some(user), ..self }
    }

    pub fn shell(self, shell: &'opts str) -> (o: Self)
        ensures
            o == (ExecOpts { shell, ..self }),
    {
        ExecOpts { shell, ..self }
    }

    pub fn working_dir(self, working_dir: &'opts str) -> (o: Self)
        ensures
            o == (ExecOpts { working_dir: Some(working_dir), ..self }),
    {
        ExecOpts { working_dir: Some(working_dir), ..self }
    }

    /// The command line that runs the command: the shell, `-c` and the command.
    pub fn command(&self) -> (r: Vec<&'opts str>)
        ensures
            r@.len() == 3,
            r@[0]@ == self.shell@,
            r@[1]@ == "-c"@,
            r@[2]@ == self.cmd@,
    {
        let mut r: Vec<&'opts str> = Vec::new();
        r.push(self.shell);
        r.push("-c");
        r.push(self.cmd);
        r
    }
}

} // verus!
