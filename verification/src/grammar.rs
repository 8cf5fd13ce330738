//! The mathematical grammar: a complete description, over character
//! sequences, of what every parsing function returns.
//!
//! Each function takes the input and the position where parsing starts and
//! yields the resulting tree fragment together with the position where
//! parsing stops, or the error that aborts the parse.  The executable
//! engine is proved to agree with these functions exactly.
//!
//! Recursion is kept well-founded by bounds checks on the positions that
//! recursive results report; parsing always advances and stays inside the
//! input, so the failure arms of those checks are never the actual result.

use vstd::prelude::*;
use crate::lexer::{STok, token_at, token_end, skip_ws, ends_expr, lemma_token_end, lemma_skip_ws};
use crate::nodes::{AtomType, GNode, ParseError, ParseNode, node_view, nodes_view};
use crate::tables::{Command, FontMode, spec_symbol_table, spec_char_symbol, spec_command_table};

verus! {

/// Outcome of an alternative that may decline: a node and the position
/// after it, no match (the position is unchanged), or a hard failure.
pub enum GOpt {
    Matched(GNode, nat),
    NoMatch,
    Failed(ParseError),
}

/// Outcome of a parse step that must produce one node.
pub enum GOne {
    Node(GNode, nat),
    Failed(ParseError),
}

/// Outcome of a parse step that produces a node sequence.
pub enum GMany {
    Nodes(Seq<GNode>, nat),
    Failed(ParseError),
}

/// Outcome of argument extraction: an argument's content, no argument
/// (the position is unchanged), or a hard failure.
pub enum GArg {
    Arg(Seq<GNode>, nat),
    NoArg,
    Failed(ParseError),
}

/// Outcome of the atom-type assertion.
pub enum GSym {
    Sym(crate::nodes::Symbol, nat),
    Failed(ParseError),
}

/// Outcome of folding postfix scripts into a node.
pub enum GScr {
    Done(Option<GNode>, nat),
    Failed(ParseError),
}

/// Symbol resolution: a control sequence resolves through the symbol
/// table; a literal character resolves through classification in italic
/// font mode; anything else is no match.
pub open spec fn symbol_spec(s: Seq<char>, i: nat) -> GOpt {
    match token_at(s, i) {
        STok::ControlSequence(name) => match spec_symbol_table(name) {
            None => GOpt::NoMatch,
            Some(sym) => GOpt::Matched(GNode::Symbol(sym), token_end(s, i)),
        },
        STok::Symbol(c) => match spec_char_symbol(c, FontMode::Italic) {
            None => GOpt::NoMatch,
            Some(sym) => GOpt::Matched(GNode::Symbol(sym), token_end(s, i)),
        },
        _ => GOpt::NoMatch,
    }
}

/// Atom-type assertion: skip whitespace, resolve a symbol, and demand
/// that its atom type is `expected`.
pub open spec fn expect_type_spec(s: Seq<char>, i: nat, expected: AtomType) -> GSym {
    let w = skip_ws(s, i);
    match symbol_spec(s, w) {
        GOpt::Matched(g, j) => match g {
            GNode::Symbol(sym) => if sym.atom_type == expected {
                GSym::Sym(sym, j)
            } else {
                GSym::Failed(ParseError::AtomTypeMismatch)
            },
            _ => GSym::Failed(ParseError::AtomTypeMismatch),
        },
        GOpt::NoMatch => GSym::Failed(ParseError::AtomTypeMismatch),
        GOpt::Failed(e) => GSym::Failed(e),
    }
}

/// Attach a subscript to the node the postfix loop is folding.  A node
/// that is not yet a scripts node becomes the base of a fresh one; `None`
/// stands for a duplicate subscript.
pub open spec fn attach_subscript(node: Option<GNode>, script: GNode) -> Option<GNode> {
    match node {
        Some(GNode::Scripts { base, subscript, superscript }) => if subscript is Some {
            None
        } else {
            Some(GNode::Scripts { base, subscript: Some(Box::new(script)), superscript })
        },
        Some(other) => Some(
            GNode::Scripts {
                base: Some(Box::new(other)),
                subscript: Some(Box::new(script)),
                superscript: None,
            },
        ),
        None => Some(
            GNode::Scripts {
                base: None,
                subscript: Some(Box::new(script)),
                superscript: None,
            },
        ),
    }
}

/// Attach a superscript; the mirror image of [`attach_subscript`].
pub open spec fn attach_superscript(node: Option<GNode>, script: GNode) -> Option<GNode> {
    match node {
        Some(GNode::Scripts { base, subscript, superscript }) => if superscript is Some {
            None
        } else {
            Some(GNode::Scripts { base, subscript, superscript: Some(Box::new(script)) })
        },
        Some(other) => Some(
            GNode::Scripts {
                base: Some(Box::new(other)),
                subscript: None,
                superscript: Some(Box::new(script)),
            },
        ),
        None => Some(
            GNode::Scripts {
                base: None,
                subscript: None,
                superscript: Some(Box::new(script)),
            },
        ),
    }
}

/// Explicit group: `{`, a full expression, `}`.
pub open spec fn group_spec(s: Seq<char>, i: nat) -> GOpt
    decreases s.len() - i, 1int,
{
    if token_at(s, i) == STok::Symbol('{') {
        let j = token_end(s, i);
        match expression_spec(s, j) {
            GMany::Nodes(inner, k) => if token_at(s, k) == STok::Symbol('}') {
                GOpt::Matched(GNode::Group(inner), token_end(s, k))
            } else {
                GOpt::Failed(ParseError::UnmatchedGroup)
            },
            GMany::Failed(e) => GOpt::Failed(e),
        }
    } else {
        GOpt::NoMatch
    }
}

/// Command dispatch: a control sequence found in the command table hands
/// control to that command, past its name.
pub open spec fn command_spec(s: Seq<char>, i: nat) -> GOpt
    decreases s.len() - i, 2int,
{
    match token_at(s, i) {
        STok::ControlSequence(name) => match spec_command_table(name) {
            None => GOpt::NoMatch,
            Some(cmd) => {
                proof {
                    lemma_token_end(s, i);
                }
                dispatch_spec(cmd, s, token_end(s, i))
            },
        },
        _ => GOpt::NoMatch,
    }
}

/// Hand control to a named command's own argument parsing.
pub open spec fn dispatch_spec(cmd: Command, s: Seq<char>, i: nat) -> GOpt
    decreases s.len() - i, 5int,
{
    match cmd {
        Command::Radical => radical_spec(s, i),
        Command::Fraction => fraction_spec(s, i),
    }
}

/// `\sqrt`: one argument, wrapped in a radical node.
pub open spec fn radical_spec(s: Seq<char>, i: nat) -> GOpt
    decreases s.len() - i, 4int,
{
    match command_argument_spec(s, i) {
        GMany::Nodes(inner, j) => GOpt::Matched(GNode::Radical(inner), j),
        GMany::Failed(e) => GOpt::Failed(e),
    }
}

/// `\frac`: two arguments, wrapped in a fraction node.
pub open spec fn fraction_spec(s: Seq<char>, i: nat) -> GOpt
    decreases s.len() - i, 4int,
{
    match command_argument_spec(s, i) {
        GMany::Nodes(numerator, j) => if i < j && j <= s.len() {
            match command_argument_spec(s, j) {
                GMany::Nodes(denominator, k) => GOpt::Matched(
                    GNode::Fraction { numerator, denominator },
                    k,
                ),
                GMany::Failed(e) => GOpt::Failed(e),
            }
        } else {
            GOpt::Failed(ParseError::MissingMacroArgument)
        },
        GMany::Failed(e) => GOpt::Failed(e),
    }
}

/// One command argument: after optional whitespace, a command, a group or
/// a symbol; a group's braces are stripped, any other node stands alone.
pub open spec fn command_argument_spec(s: Seq<char>, i: nat) -> GMany
    decreases s.len() - i, 3int,
{
    let w = {
        proof {
            lemma_skip_ws(s, i);
        }
        skip_ws(s, i)
    };
    match command_spec(s, w) {
        GOpt::Matched(n, j) => GMany::Nodes(unwrap_group(n), j),
        GOpt::Failed(e) => GMany::Failed(e),
        GOpt::NoMatch => match group_spec(s, w) {
            GOpt::Matched(n, j) => GMany::Nodes(unwrap_group(n), j),
            GOpt::Failed(e) => GMany::Failed(e),
            GOpt::NoMatch => match symbol_spec(s, w) {
                GOpt::Matched(n, j) => GMany::Nodes(unwrap_group(n), j),
                GOpt::Failed(e) => GMany::Failed(e),
                GOpt::NoMatch => GMany::Failed(ParseError::MissingMacroArgument),
            },
        },
    }
}

/// The content of an argument node: a group contributes its children,
/// any other node contributes itself.
pub open spec fn unwrap_group(n: GNode) -> Seq<GNode> {
    match n {
        GNode::Group(inner) => inner,
        other => seq![other],
    }
}

/// A math field: exactly one command, group or symbol.
pub open spec fn math_field_spec(s: Seq<char>, i: nat) -> GOne
    decreases s.len() - i, 6int,
{
    match command_spec(s, i) {
        GOpt::Matched(n, j) => GOne::Node(n, j),
        GOpt::Failed(e) => GOne::Failed(e),
        GOpt::NoMatch => match group_spec(s, i) {
            GOpt::Matched(n, j) => GOne::Node(n, j),
            GOpt::Failed(e) => GOne::Failed(e),
            GOpt::NoMatch => match symbol_spec(s, i) {
                GOpt::Matched(n, j) => GOne::Node(n, j),
                GOpt::Failed(e) => GOne::Failed(e),
                GOpt::NoMatch => GOne::Failed(ParseError::MissingMathField),
            },
        },
    }
}

/// A macro argument: a group's content, or a single resolved symbol.
pub open spec fn macro_argument_spec(s: Seq<char>, i: nat) -> GArg
    decreases s.len() - i, 2int,
{
    match group_spec(s, i) {
        GOpt::Matched(g, j) => GArg::Arg(unwrap_group(g), j),
        GOpt::Failed(e) => GArg::Failed(e),
        GOpt::NoMatch => match symbol_spec(s, i) {
            GOpt::Matched(g, j) => GArg::Arg(seq![g], j),
            GOpt::Failed(e) => GArg::Failed(e),
            GOpt::NoMatch => GArg::NoArg,
        },
    }
}

/// A macro argument that must be present.
pub open spec fn required_macro_argument_spec(s: Seq<char>, i: nat) -> GMany {
    match macro_argument_spec(s, i) {
        GArg::Arg(v, j) => GMany::Nodes(v, j),
        GArg::NoArg => GMany::Failed(ParseError::MissingMacroArgument),
        GArg::Failed(e) => GMany::Failed(e),
    }
}

/// Implicit group: `\left`, an Open symbol, a full expression, `\right`,
/// a Close symbol.
pub open spec fn implicit_group_spec(s: Seq<char>, i: nat) -> GOpt
    decreases s.len() - i, 1int,
{
    if token_at(s, i) == STok::ControlSequence("left"@) {
        let j = {
            proof {
                lemma_token_end(s, i);
            }
            token_end(s, i)
        };
        match expect_type_spec(s, j, AtomType::Open) {
            GSym::Failed(e) => GOpt::Failed(e),
            GSym::Sym(left, k) => if i < k && k <= s.len() {
                match expression_spec(s, k) {
                    GMany::Failed(e) => GOpt::Failed(e),
                    GMany::Nodes(inner, m) => if token_at(s, m) == STok::ControlSequence(
                        "right"@,
                    ) {
                        match expect_type_spec(s, token_end(s, m), AtomType::Close) {
                            GSym::Failed(e) => GOpt::Failed(e),
                            GSym::Sym(right, q) => GOpt::Matched(
                                GNode::Delimited { left, right, inner },
                                q,
                            ),
                        }
                    } else {
                        GOpt::Failed(ParseError::UnmatchedDelimiter)
                    },
                }
            } else {
                GOpt::Failed(ParseError::UnmatchedDelimiter)
            },
        }
    } else {
        GOpt::NoMatch
    }
}

/// The alternatives the expression loop tries, in their fixed priority
/// order: command, explicit group, symbol, implicit group.
pub open spec fn alternatives_spec(s: Seq<char>, i: nat) -> GOpt
    decreases s.len() - i, 6int,
{
    match command_spec(s, i) {
        GOpt::Matched(n, j) => GOpt::Matched(n, j),
        GOpt::Failed(e) => GOpt::Failed(e),
        GOpt::NoMatch => match group_spec(s, i) {
            GOpt::Matched(n, j) => GOpt::Matched(n, j),
            GOpt::Failed(e) => GOpt::Failed(e),
            GOpt::NoMatch => match symbol_spec(s, i) {
                GOpt::Matched(n, j) => GOpt::Matched(n, j),
                GOpt::Failed(e) => GOpt::Failed(e),
                GOpt::NoMatch => implicit_group_spec(s, i),
            },
        },
    }
}

/// The postfix sub-loop: fold `_` and `^` markers, each followed by a
/// math field, into the node just produced, enforcing at most one
/// subscript and one superscript per base.
pub open spec fn scripts_spec(s: Seq<char>, i: nat, node: Option<GNode>) -> GScr
    decreases s.len() - i, 7int,
{
    let w = {
        proof {
            lemma_skip_ws(s, i);
        }
        skip_ws(s, i)
    };
    if token_at(s, w) == STok::Symbol('_') {
        match math_field_spec(s, token_end(s, w)) {
            GOne::Failed(e) => GScr::Failed(e),
            GOne::Node(script, q) => match attach_subscript(node, script) {
                None => GScr::Failed(ParseError::DuplicateSubscript),
                Some(node2) => if i < q && q <= s.len() {
                    scripts_spec(s, q, Some(node2))
                } else {
                    GScr::Failed(ParseError::UnparseableToken)
                },
            },
        }
    } else if token_at(s, w) == STok::Symbol('^') {
        match math_field_spec(s, token_end(s, w)) {
            GOne::Failed(e) => GScr::Failed(e),
            GOne::Node(script, q) => match attach_superscript(node, script) {
                None => GScr::Failed(ParseError::DuplicateSuperscript),
                Some(node2) => if i < q && q <= s.len() {
                    scripts_spec(s, q, Some(node2))
                } else {
                    GScr::Failed(ParseError::UnparseableToken)
                },
            },
        }
    } else {
        GScr::Done(node, w)
    }
}

/// Expression parsing: skip whitespace; stop on a terminator; otherwise
/// parse one alternative, fold its postfix scripts, and continue with the
/// rest of the expression.
pub open spec fn expression_spec(s: Seq<char>, i: nat) -> GMany
    decreases s.len() - i, 8int,
{
    let w = {
        proof {
            lemma_skip_ws(s, i);
        }
        skip_ws(s, i)
    };
    if ends_expr(token_at(s, w)) {
        GMany::Nodes(Seq::empty(), w)
    } else {
        match alternatives_spec(s, w) {
            GOpt::Failed(e) => GMany::Failed(e),
            GOpt::Matched(n, j) => if w < j && j <= s.len() {
                expression_tail_spec(s, i, scripts_spec(s, j, Some(n)))
            } else {
                GMany::Failed(ParseError::UnparseableToken)
            },
            GOpt::NoMatch => expression_tail_spec(s, i, scripts_spec(s, w, None)),
        }
    }
}

/// Finish one iteration of expression parsing: a node folded by the
/// postfix sub-loop is prepended to the rest of the expression; no node
/// at all is a hard failure.
pub open spec fn expression_tail_spec(s: Seq<char>, i: nat, folded: GScr) -> GMany
    decreases s.len() - i, 7int,
{
    match folded {
        GScr::Failed(e) => GMany::Failed(e),
        GScr::Done(None, m) => GMany::Failed(ParseError::UnparseableToken),
        GScr::Done(Some(n), m) => if i < m && m <= s.len() {
            match expression_spec(s, m) {
                GMany::Failed(e) => GMany::Failed(e),
                GMany::Nodes(rest, q) => GMany::Nodes(seq![n] + rest, q),
            }
        } else {
            GMany::Failed(ParseError::UnparseableToken)
        },
    }
}

/// The postfix sub-loop never moves backwards or past the end of the
/// input, and a node folded out of nothing means at least one script
/// marker was consumed.
pub proof fn lemma_scripts_progress(s: Seq<char>, i: nat, node: Option<GNode>)
    ensures
        match scripts_spec(s, i, node) {
            GScr::Done(o, m) => i <= m && (i <= s.len() ==> m <= s.len()) && ((node is None
                && o is Some) ==> i < m),
            GScr::Failed(_) => true,
        },
    decreases s.len() - i,
{
    lemma_skip_ws(s, i);
    let w = skip_ws(s, i);
    if token_at(s, w) == STok::Symbol('_') {
        match math_field_spec(s, token_end(s, w)) {
            GOne::Node(script, q) => match attach_subscript(node, script) {
                Some(node2) => if i < q && q <= s.len() {
                    lemma_scripts_progress(s, q, Some(node2));
                },
                None => {},
            },
            GOne::Failed(_) => {},
        }
    } else if token_at(s, w) == STok::Symbol('^') {
        match math_field_spec(s, token_end(s, w)) {
            GOne::Node(script, q) => match attach_superscript(node, script) {
                Some(node2) => if i < q && q <= s.len() {
                    lemma_scripts_progress(s, q, Some(node2));
                },
                None => {},
            },
            GOne::Failed(_) => {},
        }
    }
}

/// The grammar as a whole: what parsing an input text yields.
pub open spec fn parse_spec(s: Seq<char>) -> GMany {
    expression_spec(s, 0)
}

/// The mathematical value of an optional node the postfix loop folds.
pub open spec fn opt_view(o: Option<ParseNode>) -> Option<GNode> {
    match o {
        None => None,
        Some(n) => Some(node_view(n)),
    }
}

/// An executable outcome `r`, taking a cursor from position `i` to
/// position `j`, agrees with the grammar outcome `g`: a match carries the
/// prescribed node and advances to the prescribed position, a declined
/// match leaves the cursor in place, and a failure carries the prescribed
/// error.
pub open spec fn matches_opt(
    r: Result<Option<ParseNode>, ParseError>,
    i: nat,
    j: nat,
    g: GOpt,
) -> bool {
    match (r, g) {
        (Ok(Some(n)), GOpt::Matched(gn, k)) => node_view(n) == gn && j == k && i < j,
        (Ok(None), GOpt::NoMatch) => j == i,
        (Err(e), GOpt::Failed(ge)) => e == ge,
        _ => false,
    }
}

/// As [`matches_opt`], for a step that must produce one node.
pub open spec fn matches_one(r: Result<ParseNode, ParseError>, i: nat, j: nat, g: GOne) -> bool {
    match (r, g) {
        (Ok(n), GOne::Node(gn, k)) => node_view(n) == gn && j == k && i < j,
        (Err(e), GOne::Failed(ge)) => e == ge,
        _ => false,
    }
}

/// As [`matches_opt`], for a step that produces a node sequence; when
/// `strict`, success must consume at least one token.
pub open spec fn matches_many(
    r: Result<Vec<ParseNode>, ParseError>,
    i: nat,
    j: nat,
    g: GMany,
    strict: bool,
) -> bool {
    match (r, g) {
        (Ok(v), GMany::Nodes(gv, k)) => nodes_view(v@) == gv && j == k && i <= j && (strict ==> i
            < j),
        (Err(e), GMany::Failed(ge)) => e == ge,
        _ => false,
    }
}

/// As [`matches_opt`], for macro-argument extraction.
pub open spec fn matches_arg(
    r: Result<Option<Vec<ParseNode>>, ParseError>,
    i: nat,
    j: nat,
    g: GArg,
) -> bool {
    match (r, g) {
        (Ok(Some(v)), GArg::Arg(gv, k)) => nodes_view(v@) == gv && j == k && i < j,
        (Ok(None), GArg::NoArg) => j == i,
        (Err(e), GArg::Failed(ge)) => e == ge,
        _ => false,
    }
}

/// As [`matches_opt`], for the atom-type assertion.
pub open spec fn matches_sym(
    r: Result<crate::nodes::Symbol, ParseError>,
    i: nat,
    j: nat,
    g: GSym,
) -> bool {
    match (r, g) {
        (Ok(sym), GSym::Sym(gs, k)) => sym == gs && j == k && i < j,
        (Err(e), GSym::Failed(ge)) => e == ge,
        _ => false,
    }
}

/// As [`matches_opt`], for the postfix script sub-loop; `gin` is the node
/// handed in.  Folding never moves the cursor backwards, and a node made
/// out of nothing means at least one script marker was consumed.
pub open spec fn matches_scr(
    r: Result<Option<ParseNode>, ParseError>,
    i: nat,
    j: nat,
    gin: Option<GNode>,
    g: GScr,
) -> bool {
    match (r, g) {
        (Ok(o), GScr::Done(go, m)) => opt_view(o) == go && j == m && i <= j && (gin is None
            && go is Some ==> i < j),
        (Err(e), GScr::Failed(ge)) => e == ge,
        _ => false,
    }
}

/// As [`matches_opt`], for the entry point, which reports no position.
pub open spec fn matches_parse(r: Result<Vec<ParseNode>, ParseError>, g: GMany) -> bool {
    match (r, g) {
        (Ok(v), GMany::Nodes(gv, k)) => nodes_view(v@) == gv,
        (Err(e), GMany::Failed(ge)) => e == ge,
        _ => false,
    }
}

} // verus!
