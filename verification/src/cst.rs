//! The concrete syntax tree the lowering consumes.
//!
//! An external grammar produces this tree from source text; the engine only
//! ever sees it in this form: nodes with a named kind, the token text of
//! leaf nodes, and children in document order, each optionally tagged with
//! the grammar's field name. Nodes live in one arena and refer to one
//! another by index. The text of a string literal node is the literal's
//! content, without the enclosing quote characters; every other leaf's text
//! is its token spelling.

use vstd::prelude::*;

verus! {

/// The grammar's node kinds.
#[derive(Debug, Clone, Copy, PartialEq, Eq, Structural)]
pub enum CstKind {
    SourceFile,
    BlockStatement,
    ExpressionStatement,
    LetStatement,
    SetStatement,
    SetFieldStatement,
    IfStatement,
    WhileStatement,
    ReturnStatement,
    BreakStatement,
    ContinueStatement,
    OperatorStatement,
    TypeStatement,
    NahLiteral,
    NumberLiteral,
    BoolLiteral,
    StringLiteral,
    Variable,
    BlockExpression,
    CallExpression,
    CurryCallExpression,
    BinariesExpression,
    FunctionExpression,
    InstantiationExpression,
    FieldAccessExpression,
    IfExpression,
    TypeImplSection,
    TypeStaticSection,
    TypeConstraintsSection,
    FieldDeclaration,
    MethodDeclaration,
    WatchDeclaration,
    OperatorToken,
    Token,
}

/// The grammar's child field names.
#[derive(Debug, Clone, Copy, PartialEq, Eq, Structural)]
pub enum CstLabel {
    Body,
    Value,
    Ident,
    What,
    Field,
    Condition,
    ThenBody,
    ElseBody,
    Args,
    Expr,
    TypeType,
    Fields,
    Sections,
    Methods,
    Watches,
    Commutative,
    LeftIdent,
    LeftTypeIdent,
    RightIdent,
    RightTypeIdent,
    Pub,
    Static,
    TypeIdent,
}

/// One child edge: an optional field tag and the child's node handle.
#[derive(Debug, Clone, Copy, PartialEq, Eq)]
pub struct CstEdge {
    pub label: Option<CstLabel>,
    pub node: usize,
}

/// One node: kind, leaf text, children in document order.
#[derive(Debug, Clone, PartialEq, Eq)]
pub struct CstNode {
    pub kind: CstKind,
    pub text: String,
    pub children: Vec<CstEdge>,
}

pub struct CstNodeV {
    pub kind: CstKind,
    pub text: Seq<char>,
    pub children: Seq<CstEdge>,
}

impl View for CstNode {
    type V = CstNodeV;

    open spec fn view(&self) -> CstNodeV {
        CstNodeV { kind: self.kind, text: self.text@, children: self.children@ }
    }
}

/// The node arena of one parse.
pub struct Cst {
    pub nodes: Vec<CstNode>,
}

impl View for Cst {
    type V = Seq<CstNodeV>;

    open spec fn view(&self) -> Seq<CstNodeV> {
        self.nodes@.map_values(|n: CstNode| n@)
    }
}

impl Cst {
    /// An empty arena.
    pub fn new() -> (r: Cst)
        ensures
            r@ == Seq::<CstNodeV>::empty(),
    {
        let r = Cst { nodes: Vec::new() };
        proof {
            assert(r@ =~= Seq::<CstNodeV>::empty());
        }
        r
    }

    /// Appends a node and returns its handle.
    pub fn push_node(&mut self, node: CstNode) -> (i: usize)
        ensures
            final(self)@ == old(self)@.push(node@),
            i == old(self)@.len(),
    {
        let i = self.nodes.len();
        let ghost v0 = self@;
        self.nodes.push(node);
        proof {
            assert(self@ =~= v0.push(node@));
        }
        i
    }
}

/// The first child tagged with the label, if any.
pub open spec fn sp_child_by(children: Seq<CstEdge>, label: CstLabel) -> Option<usize> {
    sp_child_by_from_aux(children, label, 0)
}

/// All children tagged with the label, in order, from position `i` on.
pub open spec fn sp_children_by_from(children: Seq<CstEdge>, label: CstLabel, i: int) -> Seq<usize>
    decreases children.len() - i,
{
    if i < 0 || i >= children.len() {
        Seq::empty()
    } else if children[i].label == Some(label) {
        seq![children[i].node] + sp_children_by_from(children, label, i + 1)
    } else {
        sp_children_by_from(children, label, i + 1)
    }
}

/// All children tagged with the label, in order.
pub open spec fn sp_children_by(children: Seq<CstEdge>, label: CstLabel) -> Seq<usize> {
    sp_children_by_from(children, label, 0)
}

/// Finds the first child tagged with the label.
#[verifier::loop_isolation(false)]
pub fn child_by(children: &Vec<CstEdge>, label: CstLabel) -> (r: Option<usize>)
    ensures
        r == sp_child_by(children@, label),
{
    let mut i: usize = 0;
    while i < children.len()
        invariant
            0 <= i <= children@.len(),
            sp_child_by(children@, label) == sp_child_by_from_aux(children@, label, i as int),
        decreases children@.len() - i,
    {
        if let Some(l) = children[i].label {
            if labels_equal(l, label) {
                proof {
                    assert(children@[i as int].label == Some(label));
                }
                return Some(children[i].node);
            }
        }
        proof {
            assert(children@[i as int].label != Some(label));
        }
        i = i + 1;
    }
    None
}

/// `sp_child_by` restarted at position `i`.
pub open spec fn sp_child_by_from_aux(children: Seq<CstEdge>, label: CstLabel, i: int) -> Option<
    usize,
>
    decreases children.len() - i,
{
    if i < 0 || i >= children.len() {
        None
    } else if children[i].label == Some(label) {
        Some(children[i].node)
    } else {
        sp_child_by_from_aux(children, label, i + 1)
    }
}

/// Compares two labels.
fn labels_equal(a: CstLabel, b: CstLabel) -> (r: bool)
    ensures
        r == (a == b),
{
    a == b
}

/// Collects the children tagged with the label, in order.
#[verifier::loop_isolation(false)]
pub fn children_by(children: &Vec<CstEdge>, label: CstLabel) -> (r: Vec<usize>)
    ensures
        r@ == sp_children_by(children@, label),
{
    let mut out: Vec<usize> = Vec::new();
    let mut i: usize = 0;
    while i < children.len()
        invariant
            0 <= i <= children@.len(),
            sp_children_by(children@, label) == out@ + sp_children_by_from(
                children@,
                label,
                i as int,
            ),
        decreases children@.len() - i,
    {
        let take: bool = match children[i].label {
            Some(l) => labels_equal(l, label),
            None => false,
        };
        if take {
            proof {
                assert(children@[i as int].label == Some(label));
                assert(sp_children_by_from(children@, label, i as int) == seq![
                    children@[i as int].node,
                ] + sp_children_by_from(children@, label, i + 1));
                assert(out@ + sp_children_by_from(children@, label, i as int) =~= out@.push(
                    children@[i as int].node,
                ) + sp_children_by_from(children@, label, i + 1));
            }
            out.push(children[i].node);
        } else {
            proof {
                assert(children@[i as int].label != Some(label));
            }
        }
        i = i + 1;
    }
    proof {
        assert(out@ + sp_children_by_from(children@, label, children@.len() as int) =~= out@);
    }
    out
}

} // verus!
