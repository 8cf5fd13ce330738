//! Laws of the grammar: properties that hold of parsing as such, not of
//! any one input.

use vstd::prelude::*;
use crate::lexer::{STok, token_at, skip_ws, ends_expr, lemma_skip_ws};
use crate::nodes::GNode;
use crate::grammar::{
    GMany, GOpt, parse_spec, expression_spec, alternatives_spec, attach_subscript,
    attach_superscript, lemma_scripts_progress,
};

verus! {

/// Whether the postfix loop may still attach both kinds of script to this
/// node: it is no scripts node yet, or a scripts node with both slots free.
pub open spec fn scripts_free(node: Option<GNode>) -> bool {
    match node {
        Some(GNode::Scripts { base: _, subscript, superscript }) => subscript is None
            && superscript is None,
        _ => true,
    }
}

/// Script commutativity: on a node whose script slots are free, attaching
/// a subscript and then a superscript builds exactly the node that
/// attaching them in the other order builds.  The parse of `x_a^b`
/// therefore equals the parse of `x^b_a`, and the parse of `_2^3` equals
/// the parse of `^3_2`.
pub proof fn lemma_script_attach_commutes(node: Option<GNode>, sub: GNode, sup: GNode)
    requires
        scripts_free(node),
    ensures
        attach_subscript(node, sub) is Some,
        attach_superscript(node, sup) is Some,
        match (attach_subscript(node, sub), attach_superscript(node, sup)) {
            (Some(a), Some(b)) => attach_superscript(Some(a), sup) == attach_subscript(
                Some(b),
                sub,
            ),
            _ => false,
        },
{
}

/// Duplicate-script rejection: a scripts node that already carries a
/// subscript takes no second one, and likewise for superscripts.  The
/// postfix loop turns this refusal into the duplicate-script errors.
pub proof fn lemma_duplicate_script_rejected(node: GNode, script: GNode)
    ensures
        (node matches GNode::Scripts { subscript: Some(_), .. }) ==> attach_subscript(
            Some(node),
            script,
        ) is None,
        (node matches GNode::Scripts { superscript: Some(_), .. }) ==> attach_superscript(
            Some(node),
            script,
        ) is None,
{
}

/// Whitespace insensitivity at expression level: whitespace in front of
/// an expression item never changes what the expression parses to.  Each
/// token of the examples `" 1 + \sqrt   2"` and `"1+\sqrt2"` is reached
/// this way, so the two parse alike; only whitespace standing where a
/// script marker demands its math field at once is significant.
pub proof fn lemma_leading_whitespace_ignored(s: Seq<char>, i: nat)
    ensures
        expression_spec(s, i) == expression_spec(s, skip_ws(s, i)),
{
    lemma_skip_ws(s, i);
    let w = skip_ws(s, i);
    if !ends_expr(token_at(s, w)) {
        match alternatives_spec(s, w) {
            GOpt::Matched(n, j) => {
                if w < j && j <= s.len() {
                    lemma_scripts_progress(s, j, Some(n));
                }
            },
            GOpt::NoMatch => {
                lemma_scripts_progress(s, w, None);
            },
            GOpt::Failed(_) => {},
        }
    }
}

/// Empty input: parsing the empty text yields the empty node sequence,
/// not an error.
pub proof fn lemma_parse_empty()
    ensures
        parse_spec(Seq::empty()) == GMany::Nodes(Seq::<GNode>::empty(), 0),
{
    assert(skip_ws(Seq::<char>::empty(), 0) == 0);
    assert(token_at(Seq::<char>::empty(), 0) == STok::End);
}

} // verus!
