//! The expression tree that parsing produces, and its mathematical view.

use vstd::prelude::*;

verus! {

/// The structural classification of a resolved symbol.
#[derive(Clone, Copy, Debug, PartialEq, Eq, Structural)]
pub enum AtomType {
    /// An ordinary glyph: a letter, a digit, or a named constant.
    Alpha,
    /// A large operator such as an integral or a sum.
    Operator,
    /// A binary operation sign.
    Binary,
    /// A relation sign.
    Relation,
    /// An opening delimiter.
    Open,
    /// A closing delimiter.
    Close,
    /// A punctuation mark.
    Punctuation,
}

/// A resolved glyph-bearing symbol.
#[derive(Clone, Copy, Debug, PartialEq, Eq, Structural)]
pub struct Symbol {
    /// The Unicode scalar value of the glyph.
    pub code: u32,
    /// The symbol's structural classification.
    pub atom_type: AtomType,
}

/// One node of the expression tree.
#[derive(Debug, PartialEq, Eq)]
pub enum ParseNode {
    /// A single resolved symbol.
    Symbol(Symbol),
    /// An explicit `{...}` grouping.
    Group(Vec<ParseNode>),
    /// A base with attached subscript and/or superscript.
    Scripts(Scripts),
    /// A `\left...\right` delimited sub-expression.
    Delimited(Delimited),
    /// A radical, as produced by `\sqrt`.
    Radical(Radical),
    /// A fraction, as produced by `\frac`.
    Fraction(Fraction),
}

/// A base together with at most one subscript and one superscript.
/// The base may be absent: a script marker with no preceding atom is
/// legal and stands for an empty base.
#[derive(Debug, PartialEq, Eq)]
pub struct Scripts {
    pub base: Option<Box<ParseNode>>,
    pub subscript: Option<Box<ParseNode>>,
    pub superscript: Option<Box<ParseNode>>,
}

/// A delimited sub-expression; `left` is classified Open and `right` Close.
#[derive(Debug, PartialEq, Eq)]
pub struct Delimited {
    pub left: Symbol,
    pub right: Symbol,
    pub inner: Vec<ParseNode>,
}

/// The argument of a radical command.
#[derive(Debug, PartialEq, Eq)]
pub struct Radical {
    pub inner: Vec<ParseNode>,
}

/// The two arguments of a fraction command.
#[derive(Debug, PartialEq, Eq)]
pub struct Fraction {
    pub numerator: Vec<ParseNode>,
    pub denominator: Vec<ParseNode>,
}

/// The mathematical value of a [`ParseNode`]: the same tree with
/// sequences for children.
pub enum GNode {
    Symbol(Symbol),
    Group(Seq<GNode>),
    Scripts {
        base: Option<Box<GNode>>,
        subscript: Option<Box<GNode>>,
        superscript: Option<Box<GNode>>,
    },
    Delimited { left: Symbol, right: Symbol, inner: Seq<GNode> },
    Radical(Seq<GNode>),
    Fraction { numerator: Seq<GNode>, denominator: Seq<GNode> },
}

/// The mathematical value of one tree node.
pub open spec fn node_view(n: ParseNode) -> GNode
    decreases n,
{
    match n {
        ParseNode::Symbol(sym) => GNode::Symbol(sym),
        ParseNode::Group(v) => GNode::Group(nodes_view(v@)),
        ParseNode::Scripts(sc) => GNode::Scripts {
            base: opt_node_view(sc.base),
            subscript: opt_node_view(sc.subscript),
            superscript: opt_node_view(sc.superscript),
        },
        ParseNode::Delimited(d) => GNode::Delimited {
            left: d.left,
            right: d.right,
            inner: nodes_view(d.inner@),
        },
        ParseNode::Radical(r) => GNode::Radical(nodes_view(r.inner@)),
        ParseNode::Fraction(f) => GNode::Fraction {
            numerator: nodes_view(f.numerator@),
            denominator: nodes_view(f.denominator@),
        },
    }
}

/// The mathematical value of a sequence of tree nodes.
pub open spec fn nodes_view(v: Seq<ParseNode>) -> Seq<GNode>
    decreases v,
{
    if v.len() == 0 {
        Seq::empty()
    } else {
        seq![node_view(v[0])] + nodes_view(v.drop_first())
    }
}

/// Viewing a node sequence that starts with `n` views `n` and the rest.
pub proof fn lemma_nodes_view_cons(n: ParseNode, rest: Seq<ParseNode>)
    ensures
        nodes_view(seq![n] + rest) == seq![node_view(n)] + nodes_view(rest),
{
    let v = seq![n] + rest;
    assert(v[0] == n);
    assert(v.drop_first() =~= rest);
}

/// Viewing a one-node sequence views that node.
pub proof fn lemma_nodes_view_singleton(n: ParseNode)
    ensures
        nodes_view(seq![n]) == seq![node_view(n)],
{
    assert(seq![n].drop_first() =~= Seq::<ParseNode>::empty());
    assert(nodes_view(Seq::<ParseNode>::empty()) == Seq::<GNode>::empty());
    assert(nodes_view(seq![n]) =~= seq![node_view(n)]);
}

/// The mathematical value of an optional boxed tree node.
pub open spec fn opt_node_view(o: Option<Box<ParseNode>>) -> Option<Box<GNode>>
    decreases o,
{
    match o {
        None => None,
        Some(b) => Some(Box::new(node_view(*b))),
    }
}

/// The reasons a parse can fail.
#[derive(Clone, Copy, Debug, PartialEq, Eq, Structural)]
pub enum ParseError {
    /// No alternative matched a token that does not terminate the expression.
    UnparseableToken,
    /// A second subscript was attached to one base.
    DuplicateSubscript,
    /// A second superscript was attached to one base.
    DuplicateSuperscript,
    /// An explicit group was opened but never closed.
    UnmatchedGroup,
    /// A `\left` had no matching `\right`.
    UnmatchedDelimiter,
    /// A resolved symbol did not have the required classification.
    AtomTypeMismatch,
    /// A required single-node argument could not be parsed.
    MissingMathField,
    /// A required command argument could not be parsed.
    MissingMacroArgument,
}

} // verus!
