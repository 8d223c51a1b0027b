//! Tokenizer for recipe text that knows `${ NAME }` variables only; a `$` that opens no brace
//! forms a two-character text token with the character after it.

use super::{
    char_at, is_ascii_whitespace, scan_braced, scan_text, skip_name, skip_text,
    spec_is_ascii_whitespace, spec_is_name_char, SpecToken, Token, Variable,
};
use super::parser::{lemma_skip_name_bounds, lemma_skip_text_bounds};
use vstd::prelude::*;
use vstd::string::*;

verus! {

/// A `$` that opens no brace: it and the character after it (if any) are plain text.
pub open spec fn scan_dollar(s: Seq<char>, start: int) -> (SpecToken, int) {
    let e = if start + 1 < s.len() {
        start + 2
    } else {
        start + 1
    };
    (SpecToken::Text(s.subrange(start, e)), e)
}

/// The token that the lexer reads at `pos` and the position after it.
pub open spec fn lexer_scan(s: Seq<char>, pos: int) -> (SpecToken, int) {
    if char_at(s, pos) == '$' {
        if char_at(s, pos + 1) == '{' {
            scan_braced(s, pos)
        } else {
            scan_dollar(s, pos)
        }
    } else if pos == s.len() {
        (SpecToken::Eof, pos)
    } else {
        scan_text(s, pos)
    }
}

/// Each token read before the end covers the text from `pos` to the next position, and that
/// position lies further on; at the end the lexer stays put and reports `Eof`.
pub proof fn lemma_lexer_scan_progress(s: Seq<char>, pos: int)
    requires
        0 <= pos <= s.len(),
    ensures
        pos < s.len() ==> pos < lexer_scan(s, pos).1 <= s.len(),
        pos < s.len() ==> lexer_scan(s, pos).0.covered() == s.subrange(pos, lexer_scan(s, pos).1),
        pos < s.len() ==> lexer_scan(s, pos).0 !is Eof,
        pos == s.len() ==> lexer_scan(s, pos) == (SpecToken::Eof, pos),
{
    if pos < s.len() {
        if s[pos] == '$' {
            if char_at(s, pos + 1) == '{' {
                lemma_skip_name_bounds(s, super::braced_name_start(s, pos));
            }
        } else {
            lemma_skip_text_bounds(s, pos);
        }
    }
}

pub struct Lexer<'text> {
    text: &'text str,
    pos: usize,
    len: usize,
}

pub struct SpecLexer {
    pub text: Seq<char>,
    pub pos: int,
}

impl<'text> View for Lexer<'text> {
    type V = SpecLexer;

    closed spec fn view(&self) -> SpecLexer {
        SpecLexer { text: self.text@, pos: self.pos as int }
    }
}

impl<'text> Lexer<'text> {
    /// The lexer reads ASCII text and its position lies within it.
    pub closed spec fn wf(&self) -> bool {
        &&& self.text.is_ascii()
        &&& self.len == self.text@.len()
        &&& self.pos <= self.len
    }

    pub fn new(text: &'text str) -> (l: Self)
        requires
            text.is_ascii(),
        ensures
            l.wf(),
            l@.text == text@,
            l@.pos == 0,
    {
        Self { text, pos: 0, len: text.unicode_len() }
    }

    /// Reads the next token. Past the end of the text every call gives `EOF`.
    pub fn next_token(&mut self) -> (t: Token<'text>)
        requires
            old(self).wf(),
        ensures
            final(self).wf(),
            final(self)@.text == old(self)@.text,
            (t@, final(self)@.pos) == lexer_scan(old(self)@.text, old(self)@.pos),
    {
        self.parse_token()
    }

    /// Starts reading the text again from its beginning.
    pub fn restart(&mut self)
        requires
            old(self).wf(),
        ensures
            final(self).wf(),
            final(self)@.text == old(self)@.text,
            final(self)@.pos == 0,
    {
        self.pos = 0;
    }

    fn next_pos(&mut self) -> (moved: bool)
        requires
            old(self).wf(),
        ensures
            final(self).wf(),
            final(self).text == old(self).text,
            final(self).len == old(self).len,
            moved == (old(self).pos < old(self).len),
            final(self).pos == if moved {
                old(self).pos + 1
            } else {
                old(self).pos as int
            },
    {
        if self.pos < self.len {
            self.pos += 1;
            true
        } else {
            false
        }
    }

    fn peek(&self) -> (c: Option<char>)
        requires
            self.wf(),
        ensures
            self.pos + 1 < self.len ==> c == Some(self.text@[self.pos + 1]),
            self.pos + 1 >= self.len ==> c.is_none(),
    {
        if self.pos < self.len && self.pos + 1 < self.len {
            Some(self.text.get_ascii(self.pos + 1) as char)
        } else {
            None
        }
    }

    fn cur(&self) -> (c: char)
        requires
            self.wf(),
        ensures
            c == char_at(self.text@, self.pos as int),
    {
        if self.pos < self.len {
            self.text.get_ascii(self.pos) as char
        } else {
            '\0'
        }
    }

    fn is_eof(&self) -> (b: bool)
        requires
            self.wf(),
        ensures
            b == (self.pos == self.text@.len()),
    {
        self.pos == self.len
    }

    fn slice(&self, from: usize, to: usize) -> (r: &'text str)
        requires
            self.wf(),
            from <= to <= self.len,
        ensures
            r@ == self.text@.subrange(from as int, to as int),
    {
        self.text.substring_ascii(from, to)
    }

    fn parse_token(&mut self) -> (t: Token<'text>)
        requires
            old(self).wf(),
        ensures
            final(self).wf(),
            final(self)@.text == old(self)@.text,
            (t@, final(self)@.pos) == lexer_scan(old(self)@.text, old(self)@.pos),
    {
        if self.cur() == '$' {
            self.next_pos();
            self.parse_variable()
        } else if self.is_eof() {
            Token::EOF
        } else {
            self.parse_text()
        }
    }

    fn parse_variable(&mut self) -> (t: Token<'text>)
        requires
            old(self).wf(),
            1 <= old(self).pos <= old(self).len,
            old(self).text@[old(self).pos - 1] == '$',
        ensures
            final(self).wf(),
            final(self)@.text == old(self)@.text,
            (t@, final(self)@.pos) == lexer_scan(old(self)@.text, old(self).pos - 1),
    {
        let ghost s = self.text@;
        let var_start = self.pos - 1;

        if self.cur() == '{' {
            self.next_pos();
            if self.cur() == ' ' {
                self.next_pos();
            }
            let name_start = self.pos;
            proof {
                assert(name_start == super::braced_name_start(s, var_start as int));
                lemma_skip_name_bounds(s, name_start as int);
            }
            while Variable::is_valid_name_char(self.cur())
                invariant
                    self.wf(),
                    self.text@ == s,
                    name_start <= self.pos <= skip_name(s, name_start as int),
                    var_start + 2 <= name_start <= self.len,
                    var_start as int == old(self).pos - 1,
                    name_start == super::braced_name_start(s, var_start as int),
                    name_start <= skip_name(s, name_start as int) <= s.len(),
                    forall|j: int|
                        name_start <= j < skip_name(s, name_start as int) ==> spec_is_name_char(
                            #[trigger] s[j],
                        ),
                    skip_name(s, name_start as int) < s.len() ==> !spec_is_name_char(
                        s[skip_name(s, name_start as int)],
                    ),
                decreases self.len - self.pos,
            {
                self.next_pos();
            }
            let name_end = self.pos;
            let cur = self.cur();
            proof {
                    assert(name_end == skip_name(s, name_start as int));
            }
            if cur == '}' {
                self.next_pos();
                Token::Variable(
                    Variable::new(self.slice(var_start, self.pos), self.slice(name_start, name_end)),
                )
            } else if is_ascii_whitespace(cur) && self.peek() == Some('}') {
                self.next_pos();
                self.next_pos();
                Token::Variable(
                    Variable::new(self.slice(var_start, self.pos), self.slice(name_start, name_end)),
                )
            } else {
                Token::Text(self.slice(var_start, self.pos))
            }
        } else {
            self.next_pos();

            Token::Text(self.slice(var_start, self.pos))
        }
    }

    fn parse_text(&mut self) -> (t: Token<'text>)
        requires
            old(self).wf(),
            old(self).pos < old(self).len,
            old(self).text@[old(self).pos as int] != '$',
        ensures
            final(self).wf(),
            final(self)@.text == old(self)@.text,
            (t@, final(self)@.pos) == scan_text(old(self)@.text, old(self).pos as int),
    {
        let ghost s = self.text@;
        let start = self.pos;
        proof {
            lemma_skip_text_bounds(s, start as int);
        }
        while self.pos < self.len && self.cur() != '$'
            invariant
                self.wf(),
                self.text@ == s,
                start <= self.pos <= skip_text(s, start as int),
                start as int == old(self).pos,
                skip_text(s, start as int) <= s.len(),
                forall|j: int| start <= j < skip_text(s, start as int) ==> #[trigger] s[j] != '$',
                skip_text(s, start as int) < s.len() ==> s[skip_text(s, start as int)] == '$',
            decreases self.len - self.pos,
        {
            self.next_pos();
        }
        Token::Text(self.slice(start, self.pos))
    }
}

} // verus!
