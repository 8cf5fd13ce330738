//! Tokenization of the input text.
//!
//! The lexer walks a character sequence and exposes one token at a time:
//! control-sequence names (backslash-introduced identifiers), single
//! literal characters, whitespace, and the end of the input.  The
//! functions `token_at`, `token_end` and `skip_ws` are the mathematical
//! description of that walk; the executable `Lexer` is proved to follow it.

use vstd::prelude::*;
use vstd::string::StrSliceExecFns;

verus! {

/// Whitespace characters that the lexer skips between tokens.
pub open spec fn is_ws_char(c: char) -> bool {
    c == ' ' || c == '\t' || c == '\n' || c == '\r'
}

/// Characters that may form a control-sequence name.
pub open spec fn is_name_char(c: char) -> bool {
    ('a' <= c && c <= 'z') || ('A' <= c && c <= 'Z')
}

fn is_ws_char_exec(c: char) -> (b: bool)
    ensures
        b == is_ws_char(c),
{
    c == ' ' || c == '\t' || c == '\n' || c == '\r'
}

fn is_name_char_exec(c: char) -> (b: bool)
    ensures
        b == is_name_char(c),
{
    ('a' <= c && c <= 'z') || ('A' <= c && c <= 'Z')
}

/// A lexical token.
#[derive(Debug)]
pub enum Token {
    /// A control-sequence name, without its introducing backslash.
    ControlSequence(Vec<char>),
    /// A single literal character.
    Symbol(char),
    /// A single whitespace character.
    Whitespace,
    /// The end of the input.
    End,
}

/// The mathematical value of a token: a name is a character sequence.
pub enum STok {
    ControlSequence(Seq<char>),
    Symbol(char),
    Whitespace,
    End,
}

impl View for Token {
    type V = STok;

    open spec fn view(&self) -> STok {
        match self {
            Token::ControlSequence(name) => STok::ControlSequence(name@),
            Token::Symbol(c) => STok::Symbol(*c),
            Token::Whitespace => STok::Whitespace,
            Token::End => STok::End,
        }
    }
}

/// Index just past the run of name characters that starts at `i`.
pub open spec fn name_end(s: Seq<char>, i: nat) -> nat
    decreases s.len() - i,
{
    if i < s.len() && is_name_char(s[i as int]) {
        name_end(s, i + 1)
    } else {
        i
    }
}

/// The token that starts at position `i` of the input.
///
/// A backslash followed by a run of name characters is that name; a
/// backslash followed by any other character names that single character;
/// a backslash at the very end of the input carries an empty name.
pub open spec fn token_at(s: Seq<char>, i: nat) -> STok {
    if i >= s.len() {
        STok::End
    } else if s[i as int] == '\\' {
        let e = name_end(s, i + 1);
        if e > i + 1 {
            STok::ControlSequence(s.subrange(i + 1 as int, e as int))
        } else if i + 1 < s.len() {
            STok::ControlSequence(s.subrange(i + 1 as int, i + 2 as int))
        } else {
            STok::ControlSequence(Seq::empty())
        }
    } else if is_ws_char(s[i as int]) {
        STok::Whitespace
    } else {
        STok::Symbol(s[i as int])
    }
}

/// Index just past the token that starts at position `i`.
pub open spec fn token_end(s: Seq<char>, i: nat) -> nat {
    if i >= s.len() {
        i
    } else if s[i as int] == '\\' {
        let e = name_end(s, i + 1);
        if e > i + 1 {
            e
        } else if i + 1 < s.len() {
            i + 2
        } else {
            i + 1
        }
    } else {
        i + 1
    }
}

/// Index of the first non-whitespace position at or after `i`.
pub open spec fn skip_ws(s: Seq<char>, i: nat) -> nat
    decreases s.len() - i,
{
    if i < s.len() && is_ws_char(s[i as int]) {
        skip_ws(s, i + 1)
    } else {
        i
    }
}

pub proof fn lemma_name_end(s: Seq<char>, i: nat)
    ensures
        i <= name_end(s, i),
        i <= s.len() ==> name_end(s, i) <= s.len(),
    decreases s.len() - i,
{
    if i < s.len() && is_name_char(s[i as int]) {
        lemma_name_end(s, i + 1);
    }
}

/// Every token other than the end marker occupies at least one character,
/// and no token runs past the end of the input.
pub proof fn lemma_token_end(s: Seq<char>, i: nat)
    ensures
        i < s.len() ==> i < token_end(s, i) && token_end(s, i) <= s.len(),
        i >= s.len() ==> token_end(s, i) == i,
{
    if i < s.len() && s[i as int] == '\\' {
        lemma_name_end(s, i + 1);
    }
}

pub proof fn lemma_skip_ws(s: Seq<char>, i: nat)
    ensures
        i <= skip_ws(s, i),
        i <= s.len() ==> skip_ws(s, i) <= s.len(),
        token_at(s, skip_ws(s, i)) != STok::Whitespace,
        skip_ws(s, skip_ws(s, i)) == skip_ws(s, i),
    decreases s.len() - i,
{
    if i < s.len() && is_ws_char(s[i as int]) {
        lemma_skip_ws(s, i + 1);
    }
}

/// Whether a token terminates the enclosing expression: the end of the
/// input, a closing brace, or the `\right` keyword.
pub open spec fn ends_expr(t: STok) -> bool {
    ||| t == STok::End
    ||| t == STok::Symbol('}')
    ||| t == STok::ControlSequence("right"@)
}

/// Compare a control-sequence name with a literal, character by character.
pub fn name_is(name: &Vec<char>, lit: &str) -> (b: bool)
    ensures
        b == (name@ == lit@),
{
    let n = lit.unicode_len();
    if name.len() != n {
        return false;
    }
    let mut k: usize = 0;
    while k < n
        invariant
            k <= n,
            n == lit@.len(),
            n == name@.len(),
            forall|j: int| 0 <= j < k ==> name@[j] == lit@[j],
        decreases n - k,
    {
        if name[k] != lit.get_char(k) {
            return false;
        }
        k += 1;
    }
    proof {
        assert(name@ =~= lit@);
    }
    true
}

impl Token {
    /// Whether this token terminates the enclosing expression.
    pub fn ends_expression(&self) -> (b: bool)
        ensures
            b == ends_expr(self@),
    {
        match self {
            Token::End => true,
            Token::Symbol(c) => *c == '}',
            Token::ControlSequence(name) => name_is(name, "right"),
            Token::Whitespace => false,
        }
    }

    /// Whether this token is the literal character `c`.
    pub fn is_symbol(&self, c: char) -> (b: bool)
        ensures
            b == (self@ == STok::Symbol(c)),
    {
        match self {
            Token::Symbol(d) => *d == c,
            _ => false,
        }
    }

    /// Whether this token is the control sequence named `lit`.
    pub fn is_command(&self, lit: &str) -> (b: bool)
        ensures
            b == (self@ == STok::ControlSequence(lit@)),
    {
        match self {
            Token::ControlSequence(name) => name_is(name, lit),
            _ => false,
        }
    }
}

/// A cursor over the tokens of one input text.
pub struct Lexer {
    /// The input text, one entry per character.
    pub chars: Vec<char>,
    /// Where the current token starts.
    pub start: Ghost<nat>,
    /// Where the scan for the token after the current one begins.
    pub scan_pos: usize,
    /// The token that the cursor rests on.
    pub current: Token,
}

impl Lexer {
    /// The whole input, as a character sequence.
    pub open spec fn input(&self) -> Seq<char> {
        self.chars@
    }

    /// The position (character index) where the current token starts.
    pub open spec fn pos(&self) -> nat {
        self.start@
    }

    /// The cursor rests on the token that the input holds at `pos`.
    pub open spec fn wf(&self) -> bool {
        &&& self.start@ <= self.chars@.len()
        &&& self.current@ == token_at(self.chars@, self.start@)
        &&& self.scan_pos == token_end(self.chars@, self.start@)
    }

    pub proof fn lemma_current(&self)
        requires
            self.wf(),
        ensures
            self.current@ == token_at(self.input(), self.pos()),
            self.pos() <= self.input().len(),
    {
    }

    fn scan(chars: &Vec<char>, from: usize) -> (r: (Token, usize))
        requires
            from <= chars@.len(),
        ensures
            r.0@ == token_at(chars@, from as nat),
            r.1 == token_end(chars@, from as nat),
            r.1 <= chars@.len(),
    {
        proof {
            lemma_token_end(chars@, from as nat);
        }
        if from >= chars.len() {
            return (Token::End, from);
        }
        let c = chars[from];
        if c == '\\' {
            let mut j = from + 1;
            let mut name: Vec<char> = Vec::new();
            proof {
                lemma_name_end(chars@, (from + 1) as nat);
            }
            while j < chars.len() && is_name_char_exec(chars[j])
                invariant
                    from + 1 <= j <= chars@.len(),
                    name@ == chars@.subrange(from + 1, j as int),
                    name_end(chars@, (from + 1) as nat) == name_end(chars@, j as nat),
                    name_end(chars@, (from + 1) as nat) <= chars@.len(),
                decreases chars@.len() - j,
            {
                name.push(chars[j]);
                j += 1;
                proof {
                    assert(name@ =~= chars@.subrange(from + 1, j as int));
                }
            }
            proof {
                assert(name_end(chars@, j as nat) == j);
            }
            if name.len() > 0 {
                (Token::ControlSequence(name), j)
            } else if from + 1 < chars.len() {
                let mut single: Vec<char> = Vec::new();
                single.push(chars[from + 1]);
                proof {
                    assert(single@ =~= chars@.subrange(from + 1, from + 2));
                }
                (Token::ControlSequence(single), from + 2)
            } else {
                (Token::ControlSequence(Vec::new()), from + 1)
            }
        } else if is_ws_char_exec(c) {
            (Token::Whitespace, from + 1)
        } else {
            (Token::Symbol(c), from + 1)
        }
    }

    /// Build a lexer over `input`, resting on its first token.
    pub fn new(input: &str) -> (l: Lexer)
        ensures
            l.wf(),
            l.input() == input@,
            l.pos() == 0,
    {
        let n = input.unicode_len();
        let mut chars: Vec<char> = Vec::new();
        let mut k: usize = 0;
        while k < n
            invariant
                k <= n,
                n == input@.len(),
                chars@ == input@.subrange(0, k as int),
            decreases n - k,
        {
            chars.push(input.get_char(k));
            k += 1;
            proof {
                assert(chars@ =~= input@.subrange(0, k as int));
            }
        }
        proof {
            assert(chars@ =~= input@);
        }
        let (tok, end) = Self::scan(&chars, 0);
        Lexer { chars, start: Ghost(0nat), scan_pos: end, current: tok }
    }

    /// Advance past the current token.
    pub fn next(&mut self)
        requires
            old(self).wf(),
        ensures
            final(self).wf(),
            final(self).input() == old(self).input(),
            final(self).pos() == token_end(old(self).input(), old(self).pos()),
    {
        proof {
            lemma_token_end(self.chars@, self.start@);
        }
        let (tok, end) = Self::scan(&self.chars, self.scan_pos);
        self.current = tok;
        proof {
            self.start@ = self.scan_pos as nat;
        }
        self.scan_pos = end;
    }

    /// Advance past any whitespace tokens.
    pub fn consume_whitespace(&mut self)
        requires
            old(self).wf(),
        ensures
            final(self).wf(),
            final(self).input() == old(self).input(),
            final(self).pos() == skip_ws(old(self).input(), old(self).pos()),
    {
        loop
            invariant_except_break
                self.wf(),
                self.input() == old(self).input(),
                skip_ws(self.input(), self.pos()) == skip_ws(
                    old(self).input(),
                    old(self).pos(),
                ),
            ensures
                self.wf(),
                self.input() == old(self).input(),
                self.pos() == skip_ws(old(self).input(), old(self).pos()),
            decreases self.input().len() - self.pos(),
        {
            let ws = match &self.current {
                Token::Whitespace => true,
                _ => false,
            };
            if !ws {
                proof {
                    assert(self.pos() == skip_ws(self.input(), self.pos()));
                }
                break;
            }
            proof {
                lemma_token_end(self.input(), self.pos());
            }
            self.next();
        }
    }
}

} // verus!
