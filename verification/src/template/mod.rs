//! Rendering of `$NAME` and `${ NAME }` variables inside recipe text.

pub mod lexer;
pub mod parser;

use crate::strmap::StrMap;
use parser::Parser;
use vstd::prelude::*;
use vstd::string::*;

verus! {

// ---------------------------------------------------------------------------------------------
// Character classes
// ---------------------------------------------------------------------------------------------

/// Whether `c` is an ASCII whitespace character (`char::is_ascii_whitespace`).
pub open spec fn spec_is_ascii_whitespace(c: char) -> bool {
    c == ' ' || c == '\t' || c == '\n' || c == '\x0C' || c == '\r'
}

/// Whether `c` is an ASCII letter or digit (`char::is_ascii_alphanumeric`).
pub open spec fn spec_is_ascii_alphanumeric(c: char) -> bool {
    ('a' <= c <= 'z') || ('A' <= c <= 'Z') || ('0' <= c <= '9')
}

/// Characters allowed in a variable name.
pub open spec fn spec_is_name_char(c: char) -> bool {
    spec_is_ascii_alphanumeric(c) || c == '_' || c == '-'
}

pub fn is_ascii_whitespace(c: char) -> (r: bool)
    ensures
        r == spec_is_ascii_whitespace(c),
{
    c == ' ' || c == '\t' || c == '\n' || c == '\x0C' || c == '\r'
}

pub fn is_ascii_alphanumeric(c: char) -> (r: bool)
    ensures
        r == spec_is_ascii_alphanumeric(c),
{
    ('a' <= c && c <= 'z') || ('A' <= c && c <= 'Z') || ('0' <= c && c <= '9')
}

// ---------------------------------------------------------------------------------------------
// Scanning model shared by the lexer and the parser
// ---------------------------------------------------------------------------------------------

/// The character at `p`, or `'\0'` past the end of the text.
pub open spec fn char_at(s: Seq<char>, p: int) -> char {
    if 0 <= p < s.len() {
        s[p]
    } else {
        '\0'
    }
}

/// The first position at or after `p` that does not hold a name character.
pub open spec fn skip_name(s: Seq<char>, p: int) -> int
    decreases s.len() - p,
{
    if 0 <= p < s.len() && spec_is_name_char(s[p]) {
        skip_name(s, p + 1)
    } else {
        p
    }
}

/// The first position at or after `p` that holds a `$`, or the end of the text.
pub open spec fn skip_text(s: Seq<char>, p: int) -> int
    decreases s.len() - p,
{
    if 0 <= p < s.len() && s[p] != '$' {
        skip_text(s, p + 1)
    } else {
        p
    }
}

/// Abstract token: the matched text of a variable and its name, a run of plain text, or the
/// end of the input.
pub enum SpecToken {
    Variable { text: Seq<char>, name: Seq<char> },
    Text(Seq<char>),
    Eof,
}

impl SpecToken {
    /// The slice of the input that the token covers.
    pub open spec fn covered(self) -> Seq<char> {
        match self {
            SpecToken::Variable { text, name: _ } => text,
            SpecToken::Text(t) => t,
            SpecToken::Eof => Seq::empty(),
        }
    }
}

/// Start of the name inside `${`: one blank right after the brace is skipped.
pub open spec fn braced_name_start(s: Seq<char>, start: int) -> int {
    if char_at(s, start + 2) == ' ' {
        start + 3
    } else {
        start + 2
    }
}

/// Scans a braced variable `${ name }` whose `$` stands at `start` and whose `{` follows it.
/// A name is closed by `}` or by one whitespace character and `}`; anything else makes the
/// scanned part plain text.
pub open spec fn scan_braced(s: Seq<char>, start: int) -> (SpecToken, int) {
    let b = braced_name_start(s, start);
    let q = skip_name(s, b);
    if char_at(s, q) == '}' {
        (SpecToken::Variable { text: s.subrange(start, q + 1), name: s.subrange(b, q) }, q + 1)
    } else if q + 1 < s.len() && spec_is_ascii_whitespace(s[q]) && s[q + 1] == '}' {
        (SpecToken::Variable { text: s.subrange(start, q + 2), name: s.subrange(b, q) }, q + 2)
    } else {
        (SpecToken::Text(s.subrange(start, q)), q)
    }
}

/// Scans a run of plain text starting at `pos`, up to the next `$` or the end.
pub open spec fn scan_text(s: Seq<char>, pos: int) -> (SpecToken, int) {
    let e = skip_text(s, pos);
    (SpecToken::Text(s.subrange(pos, e)), e)
}

// ---------------------------------------------------------------------------------------------
// Tokens
// ---------------------------------------------------------------------------------------------

/// A variable found in the text: the whole matched text (`${ NAME }`) and the bare name.
#[derive(Debug, PartialEq)]
pub struct Variable<'text> {
    text: &'text str,
    name: &'text str,
}

pub struct SpecVariable {
    pub text: Seq<char>,
    pub name: Seq<char>,
}

impl<'text> View for Variable<'text> {
    type V = SpecVariable;

    closed spec fn view(&self) -> SpecVariable {
        SpecVariable { text: self.text@, name: self.name@ }
    }
}

impl<'text> Variable<'text> {
    pub fn new(text: &'text str, name: &'text str) -> (v: Self)
        ensures
            v@.text == text@,
            v@.name == name@,
    {
        Self { text, name }
    }

    pub fn name(&self) -> (r: &str)
        ensures
            r@ == self@.name,
    {
        self.name
    }

    pub fn text(&self) -> (r: &str)
        ensures
            r@ == self@.text,
    {
        self.text
    }

    pub fn is_valid_name_char(ch: char) -> (r: bool)
        ensures
            r == spec_is_name_char(ch),
    {
        is_ascii_alphanumeric(ch) || ch == '_' || ch == '-'
    }
}

#[derive(Debug, PartialEq)]
pub enum Token<'text> {
    Variable(Variable<'text>),
    Text(&'text str),
    EOF,
}

impl<'text> View for Token<'text> {
    type V = SpecToken;

    open spec fn view(&self) -> SpecToken {
        match self {
            Token::Variable(v) => SpecToken::Variable { text: v@.text, name: v@.name },
            Token::Text(t) => SpecToken::Text(t@),
            Token::EOF => SpecToken::Eof,
        }
    }
}

// ---------------------------------------------------------------------------------------------
// Rendering
// ---------------------------------------------------------------------------------------------

/// What one token contributes to the rendered text.
pub open spec fn render_token(t: SpecToken, vars: Map<Seq<char>, String>) -> Seq<char> {
    match t {
        SpecToken::Variable { text, name } => if vars.contains_key(name) {
            vars[name]@
        } else {
            text
        },
        SpecToken::Text(t) => t,
        SpecToken::Eof => Seq::empty(),
    }
}

/// The text rendered from position `pos` on: every variable whose name is defined in `vars`
/// is replaced by its value, everything else is kept as it is.
pub open spec fn render_from(s: Seq<char>, pos: int, vars: Map<Seq<char>, String>) -> Seq<
    char,
>
    decreases s.len() - pos,
{
    if pos < 0 || pos >= s.len() {
        Seq::empty()
    } else {
        let (t, next) = parser::parser_scan(s, pos);
        if pos < next <= s.len() {
            render_token(t, vars) + render_from(s, next, vars)
        } else {
            Seq::empty()
        }
    }
}

/// Renders `text`, replacing each variable whose name `vars` defines by its value.
pub fn render(text: &str, vars: &StrMap<String>) -> (rendered: String)
    requires
        text.is_ascii(),
        vars.wf(),
    ensures
        rendered@ == render_from(text@, 0, vars@),
{
    let mut parser = Parser::new(text);
    let mut rendered = String::new();
    loop
        invariant
            vars.wf(),
            parser.wf(),
            parser@.text == text@,
            0 <= parser@.pos <= text@.len(),
            render_from(text@, 0, vars@) == rendered@ + render_from(text@, parser@.pos, vars@),
        ensures
            rendered@ == render_from(text@, 0, vars@),
        decreases text@.len() - parser@.pos,
    {
        let ghost pos = parser@.pos;
        let ghost before = rendered@;
        proof {
            parser::lemma_parser_scan_progress(text@, pos);
        }
        let token = parser.next_token();
        match token {
            Token::Text(txt) => {
                rendered.append(txt);
            },
            Token::Variable(var) => {
                match vars.get(var.name()) {
                    Some(value) => rendered.append(value.as_str()),
                    None => rendered.append(var.text()),
                }
            },
            Token::EOF => {
                assert(rendered@ =~= rendered@ + render_from(text@, parser@.pos, vars@));
                break ;
            },
        }
        proof {
            assert(rendered@ == before + render_token(token@, vars@));
            assert(render_from(text@, pos, vars@) == render_token(token@, vars@) + render_from(
                text@,
                parser@.pos,
                vars@,
            ));
            assert(before + render_token(token@, vars@) + render_from(text@, parser@.pos, vars@)
                =~= before + (render_token(token@, vars@) + render_from(text@, parser@.pos, vars@)));
        }
    }
    rendered
}

} // verus!

verus! {

// ---------------------------------------------------------------------------------------------
// Laws
// ---------------------------------------------------------------------------------------------

/// The tokens that the parser reads from `pos` on, concatenated, give back the text from `pos`
/// to the end: tokenizing loses and adds nothing.
pub proof fn lemma_parser_tokens_cover_text(s: Seq<char>, pos: int)
    requires
        0 <= pos <= s.len(),
    ensures
        render_from(s, pos, Map::empty()) == s.subrange(pos, s.len() as int),
    decreases s.len() - pos,
{
    if pos < s.len() {
        parser::lemma_parser_scan_progress(s, pos);
        let (t, next) = parser::parser_scan(s, pos);
        lemma_parser_tokens_cover_text(s, next);
        assert(render_token(t, Map::empty()) == t.covered());
        assert(s.subrange(pos, next) + s.subrange(next, s.len() as int) =~= s.subrange(
            pos,
            s.len() as int,
        ));
    } else {
        assert(s.subrange(pos, s.len() as int) =~= Seq::<char>::empty());
    }
}

/// Rendering with no variables defined gives the text back unchanged.
pub proof fn lemma_render_without_vars(s: Seq<char>)
    ensures
        render_from(s, 0, Map::empty()) == s,
{
    lemma_parser_tokens_cover_text(s, 0);
    assert(s.subrange(0, s.len() as int) =~= s);
}

/// Text without a `$` renders to itself whatever the variables are.
pub proof fn lemma_render_plain_text(s: Seq<char>, vars: Map<Seq<char>, String>)
    requires
        forall|i: int| 0 <= i < s.len() ==> s[i] != '$',
    ensures
        render_from(s, 0, vars) == s,
{
    if s.len() > 0 {
        parser::lemma_skip_text_bounds(s, 0);
        let e = skip_text(s, 0);
        assert(e == s.len());
        assert(s.subrange(0, e) =~= s);
        assert(render_from(s, e, vars) =~= Seq::<char>::empty());
        assert(render_from(s, 0, vars) =~= s + Seq::<char>::empty());
    }
}

/// The tokens that the lexer reads, one after the other, cover the text from `pos` to the end.
pub open spec fn lexer_covered_from(s: Seq<char>, pos: int) -> Seq<char>
    decreases s.len() - pos,
{
    if pos < 0 || pos >= s.len() {
        Seq::empty()
    } else {
        let (t, next) = lexer::lexer_scan(s, pos);
        if pos < next <= s.len() {
            t.covered() + lexer_covered_from(s, next)
        } else {
            Seq::empty()
        }
    }
}

/// Concatenating what the lexer's tokens cover gives back the text: nothing is lost or added.
pub proof fn lemma_lexer_tokens_cover_text(s: Seq<char>, pos: int)
    requires
        0 <= pos <= s.len(),
    ensures
        lexer_covered_from(s, pos) == s.subrange(pos, s.len() as int),
    decreases s.len() - pos,
{
    if pos < s.len() {
        lexer::lemma_lexer_scan_progress(s, pos);
        let (t, next) = lexer::lexer_scan(s, pos);
        lemma_lexer_tokens_cover_text(s, next);
        assert(s.subrange(pos, next) + s.subrange(next, s.len() as int) =~= s.subrange(
            pos,
            s.len() as int,
        ));
    } else {
        assert(s.subrange(pos, s.len() as int) =~= Seq::<char>::empty());
    }
}

} // verus!
