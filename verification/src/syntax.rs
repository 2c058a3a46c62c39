//! The syntax nodes of a C# source, as `tree-sitter` with the C# grammar
//! parses it, listed in document order (each node before its children, the
//! children in order).
use vstd::prelude::*;

verus! {

/// A syntax node: its grammar kind and the row (0-based line) where it
/// starts.
pub struct SyntaxNode {
    pub kind: String,
    pub row: usize,
}

pub type SyntaxNodeView = (Seq<char>, usize);

impl View for SyntaxNode {
    type V = SyntaxNodeView;

    open spec fn view(&self) -> SyntaxNodeView {
        (self.kind@, self.row)
    }
}

pub open spec fn nodes_view(nodes: Seq<SyntaxNode>) -> Seq<SyntaxNodeView> {
    nodes.map_values(|n: SyntaxNode| n@)
}

/// The nodes of the tree that `tree-sitter` builds for a C# source, in
/// document order, or `None` when no tree is built.
pub uninterp spec fn csharp_syntax_nodes(source: Seq<char>) -> Option<Seq<SyntaxNodeView>>;

/// Parses `source` with a `tree_sitter::Parser` set to
/// `tree_sitter_c_sharp::LANGUAGE` and lists every node of the tree by its
/// descendant index (`TreeCursor::goto_descendant`, which counts nodes in
/// document order), with `Node::kind` and the row of `Node::start_position`.
/// The contract claims only that the result is `csharp_syntax_nodes` of the
/// source; a grammar the parser refuses, or no tree, gives `None`.
#[verifier::external_body]
pub(crate) fn parse_csharp_nodes(source: &str) -> (nodes: Option<Vec<SyntaxNode>>)
    ensures
        match nodes {
            Some(n) => csharp_syntax_nodes(source@) == Some(nodes_view(n@)),
            None => csharp_syntax_nodes(source@) is None,
        },
{
    let mut parser = tree_sitter::Parser::new();
    parser.set_language(&tree_sitter_c_sharp::LANGUAGE.into()).ok()?;
    let tree = parser.parse(source, None)?;
    let mut cursor = tree.walk();
    let count = tree.root_node().descendant_count();
    Some((0..count).map(|index| {
        cursor.goto_descendant(index);
        let node = cursor.node();
        SyntaxNode { kind: node.kind().to_string(), row: node.start_position().row }
    }).collect())
}

} // verus!
