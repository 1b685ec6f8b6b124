//! The Rust syntax tree of a source text, as produced by `ra_ap_syntax`,
//! seen as the preorder walk of its elements.

use vstd::prelude::*;

verus! {

/// One event of a preorder walk over a syntax tree, tokens included: every
/// element is entered, then (after its children) left.
#[derive(Debug, Clone)]
pub struct SyntaxStep {
    /// `true` when the element is entered, `false` when it is left.
    pub enter: bool,
    /// The element is a node (else a token).
    pub is_node: bool,
    /// The element's kind, spelled as its `SyntaxKind` variant (`NAME_REF`).
    pub kind: String,
    /// The element's source text.
    pub text: String,
}

/// The preorder walk, tokens included, of the tree that `ra_ap_syntax`
/// parses from `text` as a Rust 2021 source file.
pub uninterp spec fn rust_syntax_walk(text: Seq<char>) -> Seq<SyntaxStep>;

/// Longest text, in characters, that the parser takes: its offsets are
/// `u32` byte counts, and a character takes at most four UTF-8 bytes.
pub open spec fn parsable_len() -> nat {
    0x3fff_ffff
}

/// Parses `text` with `ra_ap_syntax::SourceFile::parse` (Rust 2021) and
/// lists the events of `SyntaxNode::preorder_with_tokens` on the root; each
/// element is rendered by its kind's variant name and its text. The parser
/// turns byte lengths into `u32` and panics beyond; `requires` keeps the
/// text within that. The contract names the result as a function of the
/// text; nothing else is claimed.
#[verifier::external_body]
pub(crate) fn syntax_walk(text: &str) -> (steps: Vec<SyntaxStep>)
    requires
        text@.len() <= parsable_len(),
    ensures
        steps@ == rust_syntax_walk(text@),
{
    let root = ra_ap_syntax::SourceFile::parse(text, ra_ap_syntax::Edition::Edition2021).syntax_node();
    let mut steps = Vec::new();
    for event in root.preorder_with_tokens() {
        let (enter, element) = match event {
            ra_ap_syntax::WalkEvent::Enter(e) => (true, e),
            ra_ap_syntax::WalkEvent::Leave(e) => (false, e),
        };
        let (is_node, kind) = (element.as_node().is_some(), format!("{:?}", element.kind()));
        steps.push(SyntaxStep { enter, is_node, kind, text: element.to_string() });
    }
    steps
}

} // verus!
