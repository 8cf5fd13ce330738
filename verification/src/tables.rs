//! Immutable lookup tables: control-sequence symbols, literal-character
//! classification, and the named commands the parser can dispatch to.

use vstd::prelude::*;
use crate::lexer::name_is;
use crate::nodes::{AtomType, Symbol};

verus! {

/// The font mode against which a literal character is classified.
#[derive(Clone, Copy, Debug, PartialEq, Eq, Structural)]
pub enum FontMode {
    /// Letters map to the mathematical italic alphabet, digits to the
    /// sans-serif digits.
    Italic,
    /// Characters keep their own code points.
    Roman,
}

/// The named commands known to the parser.
#[derive(Clone, Copy, Debug, PartialEq, Eq, Structural)]
pub enum Command {
    /// `\sqrt`: a radical over one argument.
    Radical,
    /// `\frac`: a fraction over two arguments.
    Fraction,
}

/// The symbol that a control-sequence name resolves to, if any.
pub open spec fn spec_symbol_table(name: Seq<char>) -> Option<Symbol> {
    if name == "alpha"@ {
        Some(Symbol { code: 120572, atom_type: AtomType::Alpha })
    } else if name == "beta"@ {
        Some(Symbol { code: 120573, atom_type: AtomType::Alpha })
    } else if name == "gamma"@ {
        Some(Symbol { code: 120574, atom_type: AtomType::Alpha })
    } else if name == "delta"@ {
        Some(Symbol { code: 120575, atom_type: AtomType::Alpha })
    } else if name == "pi"@ {
        Some(Symbol { code: 120587, atom_type: AtomType::Alpha })
    } else if name == "infty"@ {
        Some(Symbol { code: 8734, atom_type: AtomType::Alpha })
    } else if name == "int"@ {
        Some(Symbol { code: 8747, atom_type: AtomType::Operator })
    } else if name == "sum"@ {
        Some(Symbol { code: 8721, atom_type: AtomType::Operator })
    } else if name == "pm"@ {
        Some(Symbol { code: 177, atom_type: AtomType::Binary })
    } else if name == "times"@ {
        Some(Symbol { code: 215, atom_type: AtomType::Binary })
    } else if name == "cdot"@ {
        Some(Symbol { code: 8901, atom_type: AtomType::Binary })
    } else if name == "leq"@ {
        Some(Symbol { code: 8804, atom_type: AtomType::Relation })
    } else if name == "geq"@ {
        Some(Symbol { code: 8805, atom_type: AtomType::Relation })
    } else if name == "neq"@ {
        Some(Symbol { code: 8800, atom_type: AtomType::Relation })
    } else {
        None
    }
}

/// Look a control-sequence name up in the symbol table.
pub fn lookup_symbol(name: &Vec<char>) -> (r: Option<Symbol>)
    ensures
        r == spec_symbol_table(name@),
{
    if name_is(name, "alpha") {
        Some(Symbol { code: 120572, atom_type: AtomType::Alpha })
    } else if name_is(name, "beta") {
        Some(Symbol { code: 120573, atom_type: AtomType::Alpha })
    } else if name_is(name, "gamma") {
        Some(Symbol { code: 120574, atom_type: AtomType::Alpha })
    } else if name_is(name, "delta") {
        Some(Symbol { code: 120575, atom_type: AtomType::Alpha })
    } else if name_is(name, "pi") {
        Some(Symbol { code: 120587, atom_type: AtomType::Alpha })
    } else if name_is(name, "infty") {
        Some(Symbol { code: 8734, atom_type: AtomType::Alpha })
    } else if name_is(name, "int") {
        Some(Symbol { code: 8747, atom_type: AtomType::Operator })
    } else if name_is(name, "sum") {
        Some(Symbol { code: 8721, atom_type: AtomType::Operator })
    } else if name_is(name, "pm") {
        Some(Symbol { code: 177, atom_type: AtomType::Binary })
    } else if name_is(name, "times") {
        Some(Symbol { code: 215, atom_type: AtomType::Binary })
    } else if name_is(name, "cdot") {
        Some(Symbol { code: 8901, atom_type: AtomType::Binary })
    } else if name_is(name, "leq") {
        Some(Symbol { code: 8804, atom_type: AtomType::Relation })
    } else if name_is(name, "geq") {
        Some(Symbol { code: 8805, atom_type: AtomType::Relation })
    } else if name_is(name, "neq") {
        Some(Symbol { code: 8800, atom_type: AtomType::Relation })
    } else {
        None
    }
}

/// The symbol that a literal character resolves to under `mode`, if any.
///
/// In italic mode, letters map into the mathematical italic alphabets and
/// digits into the sans-serif digits; structural characters (braces,
/// script markers, backslash, whitespace) have no symbol.
pub open spec fn spec_char_symbol(c: char, mode: FontMode) -> Option<Symbol> {
    if 'a' <= c && c <= 'z' {
        let code: u32 = if mode == FontMode::Italic {
            ((c as u32) - 97 + 119886) as u32
        } else {
            c as u32
        };
        Some(Symbol { code, atom_type: AtomType::Alpha })
    } else if 'A' <= c && c <= 'Z' {
        let code: u32 = if mode == FontMode::Italic {
            ((c as u32) - 65 + 119860) as u32
        } else {
            c as u32
        };
        Some(Symbol { code, atom_type: AtomType::Alpha })
    } else if '0' <= c && c <= '9' {
        let code: u32 = if mode == FontMode::Italic {
            ((c as u32) - 48 + 120802) as u32
        } else {
            c as u32
        };
        Some(Symbol { code, atom_type: AtomType::Alpha })
    } else if c == '+' {
        Some(Symbol { code: 43, atom_type: AtomType::Binary })
    } else if c == '-' {
        Some(Symbol { code: 8722, atom_type: AtomType::Binary })
    } else if c == '*' {
        Some(Symbol { code: 8727, atom_type: AtomType::Binary })
    } else if c == '=' {
        Some(Symbol { code: 61, atom_type: AtomType::Relation })
    } else if c == '<' {
        Some(Symbol { code: 60, atom_type: AtomType::Relation })
    } else if c == '>' {
        Some(Symbol { code: 62, atom_type: AtomType::Relation })
    } else if c == '(' {
        Some(Symbol { code: 40, atom_type: AtomType::Open })
    } else if c == '[' {
        Some(Symbol { code: 91, atom_type: AtomType::Open })
    } else if c == ')' {
        Some(Symbol { code: 41, atom_type: AtomType::Close })
    } else if c == ']' {
        Some(Symbol { code: 93, atom_type: AtomType::Close })
    } else if c == ',' {
        Some(Symbol { code: 44, atom_type: AtomType::Punctuation })
    } else if c == ';' {
        Some(Symbol { code: 59, atom_type: AtomType::Punctuation })
    } else {
        None
    }
}

/// Classify a literal character under `mode`.
pub fn char_symbol(c: char, mode: FontMode) -> (r: Option<Symbol>)
    ensures
        r == spec_char_symbol(c, mode),
{
    if 'a' <= c && c <= 'z' {
        let code: u32 = if mode == FontMode::Italic {
            (c as u32) - 97 + 119886
        } else {
            c as u32
        };
        Some(Symbol { code, atom_type: AtomType::Alpha })
    } else if 'A' <= c && c <= 'Z' {
        let code: u32 = if mode == FontMode::Italic {
            (c as u32) - 65 + 119860
        } else {
            c as u32
        };
        Some(Symbol { code, atom_type: AtomType::Alpha })
    } else if '0' <= c && c <= '9' {
        let code: u32 = if mode == FontMode::Italic {
            (c as u32) - 48 + 120802
        } else {
            c as u32
        };
        Some(Symbol { code, atom_type: AtomType::Alpha })
    } else if c == '+' {
        Some(Symbol { code: 43, atom_type: AtomType::Binary })
    } else if c == '-' {
        Some(Symbol { code: 8722, atom_type: AtomType::Binary })
    } else if c == '*' {
        Some(Symbol { code: 8727, atom_type: AtomType::Binary })
    } else if c == '=' {
        Some(Symbol { code: 61, atom_type: AtomType::Relation })
    } else if c == '<' {
        Some(Symbol { code: 60, atom_type: AtomType::Relation })
    } else if c == '>' {
        Some(Symbol { code: 62, atom_type: AtomType::Relation })
    } else if c == '(' {
        Some(Symbol { code: 40, atom_type: AtomType::Open })
    } else if c == '[' {
        Some(Symbol { code: 91, atom_type: AtomType::Open })
    } else if c == ')' {
        Some(Symbol { code: 41, atom_type: AtomType::Close })
    } else if c == ']' {
        Some(Symbol { code: 93, atom_type: AtomType::Close })
    } else if c == ',' {
        Some(Symbol { code: 44, atom_type: AtomType::Punctuation })
    } else if c == ';' {
        Some(Symbol { code: 59, atom_type: AtomType::Punctuation })
    } else {
        None
    }
}

/// The command that a control-sequence name dispatches to, if any.
pub open spec fn spec_command_table(name: Seq<char>) -> Option<Command> {
    if name == "sqrt"@ {
        Some(Command::Radical)
    } else if name == "frac"@ {
        Some(Command::Fraction)
    } else {
        None
    }
}

/// Look a control-sequence name up in the command table.
pub fn lookup_command(name: &Vec<char>) -> (r: Option<Command>)
    ensures
        r == spec_command_table(name@),
{
    if name_is(name, "sqrt") {
        Some(Command::Radical)
    } else if name_is(name, "frac") {
        Some(Command::Fraction)
    } else {
        None
    }
}

} // verus!
