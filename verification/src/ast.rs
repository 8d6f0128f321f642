//! The evaluator's statement and expression trees.
//!
//! Nodes live in the two arenas of an `Ast` value and refer to one another by
//! index; a `usize` in a node is a statement or expression handle as the
//! variant says. The spec-level shapes (`StmtNodeV`, `ExprNodeV`, `AstV`)
//! mirror the executable ones with mathematical sequences, and are what the
//! lowering and evaluation contracts speak about.

use vstd::prelude::*;

use crate::identifier::Identifier;
use crate::value::FruField;
use crate::value::FruValue;
use crate::value::TypeFlavor;

verus! {

/// A method of a type declaration: name, parameter names, body statement.
#[derive(Debug, Clone, PartialEq, Eq)]
pub struct RawMethod {
    pub ident: Identifier,
    pub args: Vec<Identifier>,
    pub body: usize,
}

pub struct RawMethodV {
    pub ident: Identifier,
    pub args: Seq<Identifier>,
    pub body: usize,
}

impl View for RawMethod {
    type V = RawMethodV;

    open spec fn view(&self) -> RawMethodV {
        RawMethodV { ident: self.ident, args: self.args@, body: self.body }
    }
}

/// A watch block of a data-flavor type declaration.
#[derive(Debug, Clone, PartialEq, Eq)]
pub struct RawWatch {
    pub args: Vec<Identifier>,
    pub body: usize,
}

pub struct RawWatchV {
    pub args: Seq<Identifier>,
    pub body: usize,
}

impl View for RawWatch {
    type V = RawWatchV;

    open spec fn view(&self) -> RawWatchV {
        RawWatchV { args: self.args@, body: self.body }
    }
}

/// A static field of a type declaration, with its optional initializer
/// expression.
#[derive(Debug, Clone, Copy, PartialEq, Eq)]
pub struct StaticFieldDecl {
    pub field: FruField,
    pub value: Option<usize>,
}

/// A statement. Child `usize` handles are expression handles for values and
/// conditions, and statement handles for bodies.
#[derive(Debug, Clone, PartialEq, Eq)]
pub enum StmtNode {
    Block { body: Vec<usize> },
    Expression { value: usize },
    Let { ident: Identifier, value: usize },
    SetVar { ident: Identifier, value: usize },
    SetField { target: usize, field: Identifier, value: usize },
    If { condition: usize, then_body: usize, else_body: Option<usize> },
    While { cond: usize, body: usize },
    Return { value: usize },
    Break,
    Continue,
    Operator {
        ident: Identifier,
        commutative: bool,
        left_ident: Identifier,
        left_type_ident: Identifier,
        right_ident: Identifier,
        right_type_ident: Identifier,
        body: usize,
    },
    Type {
        type_type: TypeFlavor,
        ident: Identifier,
        fields: Vec<FruField>,
        static_fields: Vec<StaticFieldDecl>,
        watches: Vec<RawWatch>,
        methods: Vec<RawMethod>,
        static_methods: Vec<RawMethod>,
    },
}

pub enum StmtNodeV {
    Block { body: Seq<usize> },
    Expression { value: usize },
    Let { ident: Identifier, value: usize },
    SetVar { ident: Identifier, value: usize },
    SetField { target: usize, field: Identifier, value: usize },
    If { condition: usize, then_body: usize, else_body: Option<usize> },
    While { cond: usize, body: usize },
    Return { value: usize },
    Break,
    Continue,
    Operator {
        ident: Identifier,
        commutative: bool,
        left_ident: Identifier,
        left_type_ident: Identifier,
        right_ident: Identifier,
        right_type_ident: Identifier,
        body: usize,
    },
    Type {
        type_type: TypeFlavor,
        ident: Identifier,
        fields: Seq<FruField>,
        static_fields: Seq<StaticFieldDecl>,
        watches: Seq<RawWatchV>,
        methods: Seq<RawMethodV>,
        static_methods: Seq<RawMethodV>,
    },
}

impl View for StmtNode {
    type V = StmtNodeV;

    open spec fn view(&self) -> StmtNodeV {
        match self {
            StmtNode::Block { body } => StmtNodeV::Block { body: body@ },
            StmtNode::Expression { value } => StmtNodeV::Expression { value: *value },
            StmtNode::Let { ident, value } => StmtNodeV::Let { ident: *ident, value: *value },
            StmtNode::SetVar { ident, value } => StmtNodeV::SetVar { ident: *ident, value: *value },
            StmtNode::SetField { target, field, value } => StmtNodeV::SetField {
                target: *target,
                field: *field,
                value: *value,
            },
            StmtNode::If { condition, then_body, else_body } => StmtNodeV::If {
                condition: *condition,
                then_body: *then_body,
                else_body: *else_body,
            },
            StmtNode::While { cond, body } => StmtNodeV::While { cond: *cond, body: *body },
            StmtNode::Return { value } => StmtNodeV::Return { value: *value },
            StmtNode::Break => StmtNodeV::Break,
            StmtNode::Continue => StmtNodeV::Continue,
            StmtNode::Operator {
                ident,
                commutative,
                left_ident,
                left_type_ident,
                right_ident,
                right_type_ident,
                body,
            } => StmtNodeV::Operator {
                ident: *ident,
                commutative: *commutative,
                left_ident: *left_ident,
                left_type_ident: *left_type_ident,
                right_ident: *right_ident,
                right_type_ident: *right_type_ident,
                body: *body,
            },
            StmtNode::Type {
                type_type,
                ident,
                fields,
                static_fields,
                watches,
                methods,
                static_methods,
            } => StmtNodeV::Type {
                type_type: *type_type,
                ident: *ident,
                fields: fields@,
                static_fields: static_fields@,
                watches: watches@.map_values(|w: RawWatch| w@),
                methods: methods@.map_values(|m: RawMethod| m@),
                static_methods: static_methods@.map_values(|m: RawMethod| m@),
            },
        }
    }
}

/// An expression. Child `usize` handles are expression handles, except
/// function bodies, which are statement handles.
#[derive(Debug, Clone, PartialEq, Eq)]
pub enum ExprNode {
    Literal { value: FruValue },
    Variable { ident: Identifier },
    Block { body: Vec<usize>, expr: usize },
    Call { what: usize, args: Vec<usize> },
    CurryCall { what: usize, args: Vec<usize> },
    Binary { operator: Identifier, left: usize, right: usize },
    Function { args: Vec<Identifier>, body: usize },
    Instantiation { what: usize, args: Vec<usize> },
    FieldAccess { what: usize, field: Identifier },
    If { condition: usize, then_body: usize, else_body: usize },
}

pub enum ExprNodeV {
    Literal { value: FruValue },
    Variable { ident: Identifier },
    Block { body: Seq<usize>, expr: usize },
    Call { what: usize, args: Seq<usize> },
    CurryCall { what: usize, args: Seq<usize> },
    Binary { operator: Identifier, left: usize, right: usize },
    Function { args: Seq<Identifier>, body: usize },
    Instantiation { what: usize, args: Seq<usize> },
    FieldAccess { what: usize, field: Identifier },
    If { condition: usize, then_body: usize, else_body: usize },
}

impl View for ExprNode {
    type V = ExprNodeV;

    open spec fn view(&self) -> ExprNodeV {
        match self {
            ExprNode::Literal { value } => ExprNodeV::Literal { value: *value },
            ExprNode::Variable { ident } => ExprNodeV::Variable { ident: *ident },
            ExprNode::Block { body, expr } => ExprNodeV::Block { body: body@, expr: *expr },
            ExprNode::Call { what, args } => ExprNodeV::Call { what: *what, args: args@ },
            ExprNode::CurryCall { what, args } => ExprNodeV::CurryCall {
                what: *what,
                args: args@,
            },
            ExprNode::Binary { operator, left, right } => ExprNodeV::Binary {
                operator: *operator,
                left: *left,
                right: *right,
            },
            ExprNode::Function { args, body } => ExprNodeV::Function { args: args@, body: *body },
            ExprNode::Instantiation { what, args } => ExprNodeV::Instantiation {
                what: *what,
                args: args@,
            },
            ExprNode::FieldAccess { what, field } => ExprNodeV::FieldAccess {
                what: *what,
                field: *field,
            },
            ExprNode::If { condition, then_body, else_body } => ExprNodeV::If {
                condition: *condition,
                then_body: *then_body,
                else_body: *else_body,
            },
        }
    }
}

/// The two node arenas of one program.
pub struct Ast {
    pub stmts: Vec<StmtNode>,
    pub exprs: Vec<ExprNode>,
}

#[verifier::ext_equal]
pub struct AstV {
    pub stmts: Seq<StmtNodeV>,
    pub exprs: Seq<ExprNodeV>,
}

impl View for Ast {
    type V = AstV;

    open spec fn view(&self) -> AstV {
        AstV {
            stmts: self.stmts@.map_values(|s: StmtNode| s@),
            exprs: self.exprs@.map_values(|e: ExprNode| e@),
        }
    }
}

impl AstV {
    /// The arena after appending one statement, with the new handle.
    pub open spec fn push_stmt(self, s: StmtNodeV) -> (AstV, usize) {
        (AstV { stmts: self.stmts.push(s), exprs: self.exprs }, self.stmts.len() as usize)
    }

    /// The arena after appending one expression, with the new handle.
    pub open spec fn push_expr(self, e: ExprNodeV) -> (AstV, usize) {
        (AstV { stmts: self.stmts, exprs: self.exprs.push(e) }, self.exprs.len() as usize)
    }
}

impl Ast {
    /// An empty program.
    pub fn new() -> (r: Ast)
        ensures
            r@.stmts == Seq::<StmtNodeV>::empty(),
            r@.exprs == Seq::<ExprNodeV>::empty(),
    {
        let r = Ast { stmts: Vec::new(), exprs: Vec::new() };
        proof {
            assert(r@.stmts =~= Seq::<StmtNodeV>::empty());
            assert(r@.exprs =~= Seq::<ExprNodeV>::empty());
        }
        r
    }

    /// Appends a statement and returns its handle.
    pub fn push_stmt(&mut self, s: StmtNode) -> (i: usize)
        ensures
            (final(self)@, i) == old(self)@.push_stmt(s@),
    {
        let ghost a0 = self@;
        let i = self.stmts.len();
        self.stmts.push(s);
        proof {
            assert(self@.stmts =~= a0.stmts.push(s@));
            assert(self@.exprs =~= a0.exprs);
            assert(self@ =~= a0.push_stmt(s@).0);
        }
        i
    }

    /// Appends an expression and returns its handle.
    pub fn push_expr(&mut self, e: ExprNode) -> (i: usize)
        ensures
            (final(self)@, i) == old(self)@.push_expr(e@),
    {
        let ghost a0 = self@;
        let i = self.exprs.len();
        self.exprs.push(e);
        proof {
            assert(self@.exprs =~= a0.exprs.push(e@));
            assert(self@.stmts =~= a0.stmts);
            assert(self@ =~= a0.push_expr(e@).0);
        }
        i
    }
}

} // verus!
