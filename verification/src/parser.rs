//! Lowering: from the concrete syntax tree to the evaluator's trees.
//!
//! Each syntax node kind maps one-to-one to a statement or expression
//! shape. A node that does not fit where it stands is a fatal lowering
//! fault (`LowerFault`), distinct from the evaluator's recoverable errors:
//! it means the grammar and this layer are out of step, not that the user
//! program is wrong. The centrepiece is the lowering of a flat
//! `expression, operator, expression, ...` sequence into one binary tree
//! by reducing, band by band from the tightest-binding on, every adjacent
//! triple whose operator is in the current band, left to right.

use vstd::prelude::*;

use crate::ast::Ast;
use crate::ast::AstV;
use crate::ast::ExprNodeV;
use crate::ast::ExprNode;
use crate::cst::sp_child_by;
use crate::cst::sp_children_by;
use crate::cst::child_by;
use crate::cst::children_by;
use crate::cst::Cst;
use crate::cst::CstEdge;
use crate::cst::CstKind;
use crate::cst::CstLabel;
use crate::cst::CstNodeV;
use crate::identifier::id_and;
use crate::identifier::id_combine;
use crate::identifier::id_divide;
use crate::identifier::id_eq;
use crate::identifier::id_greater;
use crate::identifier::id_greater_eq;
use crate::identifier::id_less;
use crate::identifier::id_less_eq;
use crate::identifier::id_minus;
use crate::identifier::id_mod;
use crate::identifier::id_multiply;
use crate::identifier::id_not_eq;
use crate::identifier::id_or;
use crate::identifier::id_plus;
use crate::identifier::id_pow;
use crate::identifier::identifier_of;
use crate::identifier::intern_spec;
use crate::identifier::lemma_identifier_of;
use crate::identifier::lemma_identifier_view;
use crate::identifier::Identifier;
use crate::identifier::Interner;

verus! {

/// A fatal lowering condition: the tree does not fit the grammar this
/// layer expects, which is a version mismatch or an engine bug, never a
/// user-program error.
#[derive(Debug, Clone, Copy, PartialEq, Eq, Structural)]
pub enum LowerFault {
    /// The node kind cannot stand as a statement here.
    NotAStatement(CstKind),
    /// The node kind cannot stand as an expression here.
    NotAnExpression(CstKind),
    /// The node kind cannot stand as a function body.
    NotAFunctionBody(CstKind),
    /// The node kind cannot stand as a type section.
    NotASection(CstKind),
    /// A required child slot is empty.
    MissingChild(CstLabel),
    /// A node handle points outside the arena.
    NodeOutOfRange,
    /// A number literal is not a 64-bit integer numeral.
    BadNumberLiteral,
    /// A boolean literal is neither `true` nor `false`.
    BadBoolLiteral,
    /// A type declaration's flavor word is unknown.
    BadTypeFlavor,
    /// A non-static field carries a default value.
    InstanceFieldWithDefault,
    /// The target of a field assignment does not lower to a field access.
    SetFieldTargetNotFieldAccess,
    /// A binaries sequence does not alternate expressions and operators.
    MalformedBinaries,
    /// The tree nests deeper than the step budget.
    TooDeep,
}

/// Precedence band of an operator token, by its interned handle: a smaller
/// band binds tighter. Operators are otherwise ordinary identifiers; only
/// the token decides the band, and tokens outside the table share the
/// loosest band.
pub open spec fn sp_precedence(id: Identifier) -> i32 {
    if id@ == id_pow() {
        2
    } else if id@ == id_multiply() || id@ == id_divide() || id@ == id_mod() {
        3
    } else if id@ == id_plus() || id@ == id_minus() {
        4
    } else if id@ == id_combine() {
        5
    } else if id@ == id_less() || id@ == id_less_eq() || id@ == id_greater() || id@
        == id_greater_eq() {
        6
    } else if id@ == id_eq() || id@ == id_not_eq() {
        7
    } else if id@ == id_and() {
        8
    } else if id@ == id_or() {
        9
    } else {
        10
    }
}

/// Whether two handles are the same.
fn id_is(a: Identifier, b: Identifier) -> (r: bool)
    ensures
        r == (a@ == b@),
{
    proof {
        lemma_identifier_view(a, b);
    }
    a == b
}

/// The precedence band of an operator token.
pub fn calculate_precedence(op: Identifier) -> (p: i32)
    ensures
        p == sp_precedence(op),
{
    if id_is(op, Identifier::for_pow()) {
        2
    } else if id_is(op, Identifier::for_multiply()) || id_is(op, Identifier::for_divide())
        || id_is(op, Identifier::for_mod()) {
        3
    } else if id_is(op, Identifier::for_plus()) || id_is(op, Identifier::for_minus()) {
        4
    } else if id_is(op, Identifier::for_combine()) {
        5
    } else if id_is(op, Identifier::for_less()) || id_is(op, Identifier::for_less_eq()) || id_is(
        op,
        Identifier::for_greater(),
    ) || id_is(op, Identifier::for_greater_eq()) {
        6
    } else if id_is(op, Identifier::for_eq()) || id_is(op, Identifier::for_not_eq()) {
        7
    } else if id_is(op, Identifier::for_and()) {
        8
    } else if id_is(op, Identifier::for_or()) {
        9
    } else {
        10
    }
}

/// Interning, at the level the lowering speaks: table and handle.
pub open spec fn sp_intern(itn: Seq<Seq<char>>, text: Seq<char>) -> (Seq<Seq<char>>, Identifier) {
    let (t2, j) = intern_spec(itn, text);
    (t2, identifier_of(j))
}

/// Interns a node's text.
fn intern_text(itn: &mut Interner, text: &String) -> (r: Identifier)
    ensures
        (final(itn)@, r) == sp_intern(old(itn)@, text@),
{
    let id = Identifier::new(itn, text.as_str());
    proof {
        lemma_identifier_of(id);
    }
    id
}

/// Value of a digit run starting at `i`, accumulating onto `acc`; `None`
/// on a non-digit or once the magnitude passes the 64-bit range.
pub open spec fn sp_digits_val(s: Seq<char>, i: int, acc: int) -> Option<int>
    decreases s.len() - i,
{
    if i < 0 || i >= s.len() {
        Some(acc)
    } else {
        let c = s[i] as int;
        if 48 <= c <= 57 {
            let acc2 = acc * 10 + (c - 48);
            if acc2 > 0x8000_0000_0000_0000 {
                None
            } else {
                sp_digits_val(s, i + 1, acc2)
            }
        } else {
            None
        }
    }
}

/// The 64-bit integer a numeral denotes: an optional minus sign, then
/// decimal digits; anything else, or a value out of range, is refused.
pub open spec fn sp_parse_number(s: Seq<char>) -> Option<i64> {
    if s.len() == 0 {
        None
    } else {
        let neg = s[0] == '-';
        let start: int = if neg {
            1
        } else {
            0
        };
        if start >= s.len() {
            None
        } else {
            match sp_digits_val(s, start, 0) {
                Some(v) => {
                    if neg {
                        Some((-v) as i64)
                    } else if v <= 0x7fff_ffff_ffff_ffff {
                        Some(v as i64)
                    } else {
                        None
                    }
                },
                None => None,
            }
        }
    }
}

/// A successful digit run saw digits only.
proof fn lemma_digits_all_digits(s: Seq<char>, i: int, acc: int)
    requires
        0 <= i <= s.len(),
        sp_digits_val(s, i, acc) is Some,
    ensures
        forall|j: int| i <= j < s.len() ==> 48 <= (#[trigger] s[j]) as int <= 57,
    decreases s.len() - i,
{
    if i < s.len() {
        let c = s[i] as int;
        lemma_digits_all_digits(s, i + 1, acc * 10 + (c - 48));
    }
}

/// Reads a numeral.
#[verifier::loop_isolation(false)]
fn parse_number_text(text: &String) -> (r: Option<i64>)
    ensures
        r == sp_parse_number(text@),
{
    let s = text.as_str();
    let ghost sv = text@;
    if !s.is_ascii() {
        proof {
            if sp_parse_number(sv) is Some {
                let neg = sv[0] == '-';
                let start: int = if neg {
                    1
                } else {
                    0
                };
                lemma_digits_all_digits(sv, start, 0);
                assert forall|j: int| 0 <= j < sv.len() implies '\0' <= #[trigger] sv[j]
                    <= '\u{7f}' by {
                    if j >= start {
                        assert(48 <= sv[j] as int <= 57);
                    } else {
                        assert(sv[j] == '-');
                    }
                }
                assert(vstd::utf8::is_ascii_chars(sv));
                assert(false);
            }
        }
        return None;
    }
    let b = s.as_bytes();
    proof {
        vstd::string::is_ascii_spec_bytes(s);
        assert(b@ =~= Seq::new(sv.len(), |i: int| sv[i] as u8));
    }
    let n = b.len();
    if n == 0 {
        return None;
    }
    let neg = b[0] == 45;
    proof {
        assert(sv[0] as u8 == b@[0]);
        assert((sv[0] == '-') == (b@[0] == 45));
    }
    let start: usize = if neg {
        1
    } else {
        0
    };
    if start >= n {
        return None;
    }
    let mut i = start;
    let mut acc: i128 = 0;
    while i < n
        invariant
            start <= i <= n,
            n == sv.len(),
            b@ =~= Seq::new(sv.len(), |k: int| sv[k] as u8),
            0 <= acc <= 0x8000_0000_0000_0000,
            sp_digits_val(sv, start as int, 0) == sp_digits_val(sv, i as int, acc as int),
        decreases n - i,
    {
        let d = b[i];
        proof {
            assert(sv[i as int] as u8 == b@[i as int]);
            assert((sv[i as int] as int) < 128);
            assert((sv[i as int] as int) == d as int);
        }
        if d < 48 || d > 57 {
            proof {
                assert(sp_digits_val(sv, i as int, acc as int) == None::<int>);
            }
            return None;
        }
        let acc2: i128 = acc * 10 + (d as i128 - 48);
        if acc2 > 0x8000_0000_0000_0000 {
            proof {
                assert(sp_digits_val(sv, i as int, acc as int) == None::<int>);
            }
            return None;
        }
        acc = acc2;
        i = i + 1;
    }
    proof {
        assert(sp_digits_val(sv, i as int, acc as int) == Some(acc as int));
    }
    if neg {
        proof {
            assert(sp_parse_number(sv) == Some((-(acc as int)) as i64));
        }
        if acc == 0x8000_0000_0000_0000 {
            Some(i64::MIN)
        } else {
            Some(-(acc as i64))
        }
    } else {
        if acc <= 0x7fff_ffff_ffff_ffff {
            Some(acc as i64)
        } else {
            None
        }
    }
}

/// One element of the flat binaries sequence: an already lowered
/// expression, or an operator with its band.
#[derive(Debug, Clone, Copy, PartialEq, Eq)]
pub enum RElem {
    Ex(usize),
    BinOp { ident: Identifier, precedence: i32 },
}

/// One left-to-right pass reducing every adjacent (expression, operator in
/// `band`, expression) triple, each reduction pushing one binary node. The
/// freshly built expression stays on top, so a run of same-band operators
/// reduces left-associatively.
pub open spec fn sp_reduce_band_from(
    ast: AstV,
    done: Seq<RElem>,
    list: Seq<RElem>,
    i: int,
    band: i32,
) -> (AstV, Seq<RElem>)
    decreases list.len() - i,
{
    if i < 0 || i >= list.len() {
        (ast, done)
    } else {
        let step = sp_band_step(ast, done, list, i, band);
        if step is Some {
            let (ast2, done2) = step->Some_0;
            sp_reduce_band_from(ast2, done2, list, i + 2, band)
        } else {
            sp_reduce_band_from(ast, done.push(list[i]), list, i + 1, band)
        }
    }
}

/// The reduction step at position `i`, when the stack top, `list[i]` and
/// `list[i + 1]` form a reducible triple of the band.
pub open spec fn sp_band_step(
    ast: AstV,
    done: Seq<RElem>,
    list: Seq<RElem>,
    i: int,
    band: i32,
) -> Option<(AstV, Seq<RElem>)> {
    if done.len() >= 1 && i + 1 < list.len() {
        match (done.last(), list[i], list[i + 1]) {
            (RElem::Ex(l), RElem::BinOp { ident, precedence }, RElem::Ex(r)) => {
                if precedence == band {
                    let (ast2, idx) = ast.push_expr(
                        ExprNodeV::Binary { operator: ident, left: l, right: r },
                    );
                    Some((ast2, done.drop_last().push(RElem::Ex(idx))))
                } else {
                    None
                }
            },
            _ => None,
        }
    } else {
        None
    }
}

/// The tightest band that still occurs in the sequence.
pub open spec fn sp_min_band_from(list: Seq<RElem>, i: int) -> Option<i32>
    decreases list.len() - i,
{
    if i < 0 || i >= list.len() {
        None
    } else {
        let rest = sp_min_band_from(list, i + 1);
        match list[i] {
            RElem::BinOp { ident, precedence } => {
                match rest {
                    Some(m) => if precedence < m {
                        Some(precedence)
                    } else {
                        Some(m)
                    },
                    None => Some(precedence),
                }
            },
            RElem::Ex(_) => rest,
        }
    }
}

/// Reduces band after band, tightest first, until one expression is left.
/// A sequence that stops shrinking without reaching one expression does
/// not alternate properly and is refused.
pub open spec fn sp_reduce_all(ast: AstV, list: Seq<RElem>) -> (AstV, Result<usize, LowerFault>)
    decreases list.len(),
{
    if list.len() == 1 && list[0] is Ex {
        (ast, Ok(list[0]->Ex_0))
    } else {
        match sp_min_band_from(list, 0) {
            None => (ast, Err(LowerFault::MalformedBinaries)),
            Some(band) => {
                let (ast2, list2) = sp_reduce_band_from(ast, Seq::empty(), list, 0, band);
                if list2.len() < list.len() {
                    sp_reduce_all(ast2, list2)
                } else {
                    (ast2, Err(LowerFault::MalformedBinaries))
                }
            },
        }
    }
}

/// One reduction pass over the sequence.
#[verifier::loop_isolation(false)]
fn reduce_band(ast: &mut Ast, list: &Vec<RElem>, band: i32) -> (r: Vec<RElem>)
    ensures
        (final(ast)@, r@) == sp_reduce_band_from(old(ast)@, Seq::empty(), list@, 0, band),
{
    let ghost ast0 = ast@;
    let ghost listv = list@;
    let mut done: Vec<RElem> = Vec::new();
    let mut i: usize = 0;
    proof {
        assert(done@ =~= Seq::<RElem>::empty());
    }
    while i < list.len()
        invariant
            0 <= i <= listv.len(),
            listv == list@,
            sp_reduce_band_from(ast0, Seq::empty(), listv, 0, band) == sp_reduce_band_from(
                ast@,
                done@,
                listv,
                i as int,
                band,
            ),
        decreases listv.len() - i,
    {
        let mut stepped = false;
        if done.len() >= 1 && i + 1 < list.len() {
            let top = done[done.len() - 1];
            let cur = list[i];
            let nxt = list[i + 1];
            match (top, cur, nxt) {
                (RElem::Ex(l), RElem::BinOp { ident, precedence }, RElem::Ex(r)) => {
                    if precedence == band {
                        let ghost astg = ast@;
                        let ghost doneg = done@;
                        let idx = ast.push_expr(
                            ExprNode::Binary { operator: ident, left: l, right: r },
                        );
                        let _ = done.pop();
                        done.push(RElem::Ex(idx));
                        proof {
                            assert(doneg.last() == RElem::Ex(l));
                            assert(done@ =~= doneg.drop_last().push(RElem::Ex(idx)));
                            assert(sp_band_step(astg, doneg, listv, i as int, band)
                                == Some((ast@, done@)));
                        }
                        stepped = true;
                    }
                },
                _ => {},
            }
        }
        if stepped {
            i = i + 2;
        } else {
            proof {
                assert(sp_band_step(ast@, done@, listv, i as int, band) is None);
            }
            done.push(list[i]);
            i = i + 1;
        }
    }
    done
}

/// The tightest band still present.
#[verifier::loop_isolation(false)]
fn min_band(list: &Vec<RElem>) -> (r: Option<i32>)
    ensures
        r == sp_min_band_from(list@, 0),
{
    let ghost listv = list@;
    let mut best: Option<i32> = None;
    let mut i = list.len();
    while i > 0
        invariant
            0 <= i <= listv.len(),
            listv == list@,
            best == sp_min_band_from(listv, i as int),
        decreases i,
    {
        i = i - 1;
        match list[i] {
            RElem::BinOp { ident: _, precedence } => {
                best = match best {
                    Some(m) => if precedence < m {
                        Some(precedence)
                    } else {
                        Some(m)
                    },
                    None => Some(precedence),
                };
            },
            RElem::Ex(_) => {},
        }
    }
    best
}

/// Reduces the whole sequence to one expression handle.
fn reduce_all(ast: &mut Ast, list: Vec<RElem>) -> (r: Result<usize, LowerFault>)
    ensures
        (final(ast)@, r) == sp_reduce_all(old(ast)@, list@),
    decreases list@.len(),
{
    if list.len() == 1 {
        match list[0] {
            RElem::Ex(idx) => {
                return Ok(idx);
            },
            _ => {},
        }
    }
    match min_band(&list) {
        None => Err(LowerFault::MalformedBinaries),
        Some(band) => {
            let list2 = reduce_band(ast, &list, band);
            if list2.len() < list.len() {
                reduce_all(ast, list2)
            } else {
                Err(LowerFault::MalformedBinaries)
            }
        },
    }
}

/// Interned text of an identifier-bearing child node.
pub open spec fn sp_node_ident(cst: Seq<CstNodeV>, itn: Seq<Seq<char>>, node: usize) -> Result<
    (Seq<Seq<char>>, Identifier),
    LowerFault,
> {
    if node >= cst.len() {
        Err(LowerFault::NodeOutOfRange)
    } else {
        Ok(sp_intern(itn, cst[node as int].text))
    }
}

/// Interns the texts of a list of identifier nodes, in order.
pub open spec fn sp_ident_list(
    cst: Seq<CstNodeV>,
    itn: Seq<Seq<char>>,
    list: Seq<usize>,
    i: int,
    acc: Seq<Identifier>,
) -> (Seq<Seq<char>>, Result<Seq<Identifier>, LowerFault>)
    decreases list.len() - i,
{
    if i < 0 || i >= list.len() {
        (itn, Ok(acc))
    } else {
        match sp_node_ident(cst, itn, list[i]) {
            Ok((itn2, id)) => sp_ident_list(cst, itn2, list, i + 1, acc.push(id)),
            Err(e) => (itn, Err(e)),
        }
    }
}

/// The spec lowering: one statement node.
#[verifier::opaque]
pub open spec fn sp_parse_statement(
    cst: Seq<CstNodeV>,
    itn: Seq<Seq<char>>,
    ast: AstV,
    node: usize,
    fuel: nat,
) -> (Seq<Seq<char>>, AstV, Result<usize, LowerFault>)
    decreases fuel,
{
    if fuel == 0 {
        (itn, ast, Err(LowerFault::TooDeep))
    } else if node >= cst.len() {
        (itn, ast, Err(LowerFault::NodeOutOfRange))
    } else {
        let f2 = (fuel - 1) as nat;
        let n = cst[node as int];
        if n.kind == CstKind::SourceFile || n.kind == CstKind::BlockStatement {
            let list = sp_children_by(n.children, CstLabel::Body);
            let (itn1, ast1, r) = sp_parse_stmt_list(cst, itn, ast, list, 0, Seq::empty(), f2);
            match r {
                Ok(stmts) => {
                    let (ast2, idx) = ast1.push_stmt(crate::ast::StmtNodeV::Block { body: stmts });
                    (itn1, ast2, Ok(idx))
                },
                Err(e) => (itn1, ast1, Err(e)),
            }
        } else if n.kind == CstKind::ExpressionStatement {
            match sp_child_by(n.children, CstLabel::Value) {
                Some(v) => {
                    let (itn1, ast1, r) = sp_parse_expression(cst, itn, ast, v, f2);
                    match r {
                        Ok(e) => {
                            let (ast2, idx) = ast1.push_stmt(
                                crate::ast::StmtNodeV::Expression { value: e },
                            );
                            (itn1, ast2, Ok(idx))
                        },
                        Err(e) => (itn1, ast1, Err(e)),
                    }
                },
                None => (itn, ast, Err(LowerFault::MissingChild(CstLabel::Value))),
            }
        } else if n.kind == CstKind::LetStatement || n.kind == CstKind::SetStatement {
            match (sp_child_by(n.children, CstLabel::Ident), sp_child_by(
                n.children,
                CstLabel::Value,
            )) {
                (Some(idn), Some(v)) => {
                    match sp_node_ident(cst, itn, idn) {
                        Ok((itn1, id)) => {
                            let (itn2, ast1, r) = sp_parse_expression(cst, itn1, ast, v, f2);
                            match r {
                                Ok(e) => {
                                    let st = if n.kind == CstKind::LetStatement {
                                        crate::ast::StmtNodeV::Let { ident: id, value: e }
                                    } else {
                                        crate::ast::StmtNodeV::SetVar { ident: id, value: e }
                                    };
                                    let (ast2, idx) = ast1.push_stmt(st);
                                    (itn2, ast2, Ok(idx))
                                },
                                Err(e) => (itn2, ast1, Err(e)),
                            }
                        },
                        Err(e) => (itn, ast, Err(e)),
                    }
                },
                (None, _) => (itn, ast, Err(LowerFault::MissingChild(CstLabel::Ident))),
                (_, None) => (itn, ast, Err(LowerFault::MissingChild(CstLabel::Value))),
            }
        } else if n.kind == CstKind::SetFieldStatement {
            match (sp_child_by(n.children, CstLabel::What), sp_child_by(
                n.children,
                CstLabel::Value,
            )) {
                (Some(w), Some(v)) => {
                    let (itn1, ast1, r) = sp_parse_expression(cst, itn, ast, w, f2);
                    match r {
                        Ok(widx) => {
                            if widx >= ast1.exprs.len() {
                                (itn1, ast1, Err(LowerFault::NodeOutOfRange))
                            } else {
                                match ast1.exprs[widx as int] {
                                    ExprNodeV::FieldAccess { what, field } => {
                                        let (itn2, ast2, r2) = sp_parse_expression(
                                            cst,
                                            itn1,
                                            ast1,
                                            v,
                                            f2,
                                        );
                                        match r2 {
                                            Ok(vidx) => {
                                                let (ast3, idx) = ast2.push_stmt(
                                                    crate::ast::StmtNodeV::SetField {
                                                        target: what,
                                                        field,
                                                        value: vidx,
                                                    },
                                                );
                                                (itn2, ast3, Ok(idx))
                                            },
                                            Err(e) => (itn2, ast2, Err(e)),
                                        }
                                    },
                                    _ => (
                                        itn1,
                                        ast1,
                                        Err(LowerFault::SetFieldTargetNotFieldAccess),
                                    ),
                                }
                            }
                        },
                        Err(e) => (itn1, ast1, Err(e)),
                    }
                },
                (None, _) => (itn, ast, Err(LowerFault::MissingChild(CstLabel::What))),
                (_, None) => (itn, ast, Err(LowerFault::MissingChild(CstLabel::Value))),
            }
        } else if n.kind == CstKind::IfStatement {
            match (sp_child_by(n.children, CstLabel::Condition), sp_child_by(
                n.children,
                CstLabel::ThenBody,
            )) {
                (Some(c), Some(tb)) => {
                    let (itn1, ast1, r) = sp_parse_expression(cst, itn, ast, c, f2);
                    match r {
                        Ok(ce) => {
                            let (itn2, ast2, r2) = sp_parse_statement(cst, itn1, ast1, tb, f2);
                            match r2 {
                                Ok(ts) => {
                                    match sp_child_by(n.children, CstLabel::ElseBody) {
                                        Some(eb) => {
                                            let (itn3, ast3, r3) = sp_parse_statement(
                                                cst,
                                                itn2,
                                                ast2,
                                                eb,
                                                f2,
                                            );
                                            match r3 {
                                                Ok(es) => {
                                                    let (ast4, idx) = ast3.push_stmt(
                                                        crate::ast::StmtNodeV::If {
                                                            condition: ce,
                                                            then_body: ts,
                                                            else_body: Some(es),
                                                        },
                                                    );
                                                    (itn3, ast4, Ok(idx))
                                                },
                                                Err(e) => (itn3, ast3, Err(e)),
                                            }
                                        },
                                        None => {
                                            let (ast3, idx) = ast2.push_stmt(
                                                crate::ast::StmtNodeV::If {
                                                    condition: ce,
                                                    then_body: ts,
                                                    else_body: None,
                                                },
                                            );
                                            (itn2, ast3, Ok(idx))
                                        },
                                    }
                                },
                                Err(e) => (itn2, ast2, Err(e)),
                            }
                        },
                        Err(e) => (itn1, ast1, Err(e)),
                    }
                },
                (None, _) => (itn, ast, Err(LowerFault::MissingChild(CstLabel::Condition))),
                (_, None) => (itn, ast, Err(LowerFault::MissingChild(CstLabel::ThenBody))),
            }
        } else if n.kind == CstKind::WhileStatement {
            match (sp_child_by(n.children, CstLabel::Condition), sp_child_by(
                n.children,
                CstLabel::Body,
            )) {
                (Some(c), Some(b)) => {
                    let (itn1, ast1, r) = sp_parse_expression(cst, itn, ast, c, f2);
                    match r {
                        Ok(ce) => {
                            let (itn2, ast2, r2) = sp_parse_statement(cst, itn1, ast1, b, f2);
                            match r2 {
                                Ok(bs) => {
                                    let (ast3, idx) = ast2.push_stmt(
                                        crate::ast::StmtNodeV::While { cond: ce, body: bs },
                                    );
                                    (itn2, ast3, Ok(idx))
                                },
                                Err(e) => (itn2, ast2, Err(e)),
                            }
                        },
                        Err(e) => (itn1, ast1, Err(e)),
                    }
                },
                (None, _) => (itn, ast, Err(LowerFault::MissingChild(CstLabel::Condition))),
                (_, None) => (itn, ast, Err(LowerFault::MissingChild(CstLabel::Body))),
            }
        } else if n.kind == CstKind::ReturnStatement {
            match sp_child_by(n.children, CstLabel::Value) {
                Some(v) => {
                    let (itn1, ast1, r) = sp_parse_expression(cst, itn, ast, v, f2);
                    match r {
                        Ok(e) => {
                            let (ast2, idx) = ast1.push_stmt(
                                crate::ast::StmtNodeV::Return { value: e },
                            );
                            (itn1, ast2, Ok(idx))
                        },
                        Err(e) => (itn1, ast1, Err(e)),
                    }
                },
                None => {
                    let (ast1, nahe) = ast.push_expr(
                        ExprNodeV::Literal { value: crate::value::FruValue::Nah },
                    );
                    let (ast2, idx) = ast1.push_stmt(crate::ast::StmtNodeV::Return { value: nahe });
                    (itn, ast2, Ok(idx))
                },
            }
        } else if n.kind == CstKind::BreakStatement {
            let (ast1, idx) = ast.push_stmt(crate::ast::StmtNodeV::Break);
            (itn, ast1, Ok(idx))
        } else if n.kind == CstKind::ContinueStatement {
            let (ast1, idx) = ast.push_stmt(crate::ast::StmtNodeV::Continue);
            (itn, ast1, Ok(idx))
        } else if n.kind == CstKind::OperatorStatement {
            sp_parse_operator_stmt(cst, itn, ast, n, f2)
        } else if n.kind == CstKind::TypeStatement {
            sp_parse_type_stmt(cst, itn, ast, n, f2)
        } else {
            (itn, ast, Err(LowerFault::NotAStatement(n.kind)))
        }
    }
}

/// The spec lowering: an operator declaration statement.
#[verifier::opaque]
pub open spec fn sp_parse_operator_stmt(
    cst: Seq<CstNodeV>,
    itn: Seq<Seq<char>>,
    ast: AstV,
    n: CstNodeV,
    fuel: nat,
) -> (Seq<Seq<char>>, AstV, Result<usize, LowerFault>)
    decreases fuel,
{
    if fuel == 0 {
        (itn, ast, Err(LowerFault::TooDeep))
    } else {
        let f2 = (fuel - 1) as nat;
        let idn = sp_child_by(n.children, CstLabel::Ident);
        let li = sp_child_by(n.children, CstLabel::LeftIdent);
        let lti = sp_child_by(n.children, CstLabel::LeftTypeIdent);
        let ri = sp_child_by(n.children, CstLabel::RightIdent);
        let rti = sp_child_by(n.children, CstLabel::RightTypeIdent);
        let bd = sp_child_by(n.children, CstLabel::Body);
        if idn is None {
            (itn, ast, Err(LowerFault::MissingChild(CstLabel::Ident)))
        } else if li is None {
            (itn, ast, Err(LowerFault::MissingChild(CstLabel::LeftIdent)))
        } else if lti is None {
            (itn, ast, Err(LowerFault::MissingChild(CstLabel::LeftTypeIdent)))
        } else if ri is None {
            (itn, ast, Err(LowerFault::MissingChild(CstLabel::RightIdent)))
        } else if rti is None {
            (itn, ast, Err(LowerFault::MissingChild(CstLabel::RightTypeIdent)))
        } else if bd is None {
            (itn, ast, Err(LowerFault::MissingChild(CstLabel::Body)))
        } else {
            let commutative = sp_child_by(n.children, CstLabel::Commutative) is Some;
            match sp_node_ident(cst, itn, idn->Some_0) {
                Ok((i1, opid)) => match sp_node_ident(cst, i1, li->Some_0) {
                    Ok((i2, lid)) => match sp_node_ident(cst, i2, lti->Some_0) {
                        Ok((i3, ltid)) => match sp_node_ident(cst, i3, ri->Some_0) {
                            Ok((i4, rid)) => match sp_node_ident(cst, i4, rti->Some_0) {
                                Ok((i5, rtid)) => {
                                    let (i6, ast1, r) = sp_parse_function_body(
                                        cst,
                                        i5,
                                        ast,
                                        bd->Some_0,
                                        f2,
                                    );
                                    match r {
                                        Ok(b) => {
                                            let (ast2, idx) = ast1.push_stmt(
                                                crate::ast::StmtNodeV::Operator {
                                                    ident: opid,
                                                    commutative,
                                                    left_ident: lid,
                                                    left_type_ident: ltid,
                                                    right_ident: rid,
                                                    right_type_ident: rtid,
                                                    body: b,
                                                },
                                            );
                                            (i6, ast2, Ok(idx))
                                        },
                                        Err(e) => (i6, ast1, Err(e)),
                                    }
                                },
                                Err(e) => (i4, ast, Err(e)),
                            },
                            Err(e) => (i3, ast, Err(e)),
                        },
                        Err(e) => (i2, ast, Err(e)),
                    },
                    Err(e) => (i1, ast, Err(e)),
                },
                Err(e) => (itn, ast, Err(e)),
            }
        }
    }
}

/// The spec lowering: a type declaration statement, with its fields split
/// into instance and static by the static marker and its sections grouped.
#[verifier::opaque]
pub open spec fn sp_parse_type_stmt(
    cst: Seq<CstNodeV>,
    itn: Seq<Seq<char>>,
    ast: AstV,
    n: CstNodeV,
    fuel: nat,
) -> (Seq<Seq<char>>, AstV, Result<usize, LowerFault>)
    decreases fuel,
{
    if fuel == 0 {
        (itn, ast, Err(LowerFault::TooDeep))
    } else {
        let f2 = (fuel - 1) as nat;
        match (sp_child_by(n.children, CstLabel::TypeType), sp_child_by(
            n.children,
            CstLabel::Ident,
        )) {
            (Some(tt), Some(idn)) => {
                if tt >= cst.len() {
                    (itn, ast, Err(LowerFault::NodeOutOfRange))
                } else {
                    match sp_flavor_of(cst[tt as int].text) {
                        Some(flavor) => {
                            match sp_node_ident(cst, itn, idn) {
                                Ok((i1, id)) => {
                                    let flist = sp_children_by(n.children, CstLabel::Fields);
                                    let (i2, ast1, rf) = sp_parse_fields(
                                        cst,
                                        i1,
                                        ast,
                                        flist,
                                        0,
                                        Seq::empty(),
                                        Seq::empty(),
                                        f2,
                                    );
                                    match rf {
                                        Ok((nf, sf)) => {
                                            let slist = sp_children_by(
                                                n.children,
                                                CstLabel::Sections,
                                            );
                                            let (i3, ast2, rs) = sp_parse_sections(
                                                cst,
                                                i2,
                                                ast1,
                                                slist,
                                                0,
                                                Seq::empty(),
                                                Seq::empty(),
                                                Seq::empty(),
                                                f2,
                                            );
                                            match rs {
                                                Ok((ms, sms, ws)) => {
                                                    let (ast3, idx) = ast2.push_stmt(
                                                        crate::ast::StmtNodeV::Type {
                                                            type_type: flavor,
                                                            ident: id,
                                                            fields: nf,
                                                            static_fields: sf,
                                                            watches: ws,
                                                            methods: ms,
                                                            static_methods: sms,
                                                        },
                                                    );
                                                    (i3, ast3, Ok(idx))
                                                },
                                                Err(e) => (i3, ast2, Err(e)),
                                            }
                                        },
                                        Err(e) => (i2, ast1, Err(e)),
                                    }
                                },
                                Err(e) => (itn, ast, Err(e)),
                            }
                        },
                        None => (itn, ast, Err(LowerFault::BadTypeFlavor)),
                    }
                }
            },
            (None, _) => (itn, ast, Err(LowerFault::MissingChild(CstLabel::TypeType))),
            (_, None) => (itn, ast, Err(LowerFault::MissingChild(CstLabel::Ident))),
        }
    }
}

/// The flavor a type declaration's flavor word denotes.
pub open spec fn sp_flavor_of(text: Seq<char>) -> Option<crate::value::TypeFlavor> {
    if text == "struct"@ {
        Some(crate::value::TypeFlavor::Struct)
    } else if text == "class"@ {
        Some(crate::value::TypeFlavor::Class)
    } else if text == "data"@ {
        Some(crate::value::TypeFlavor::Data)
    } else {
        None
    }
}

/// The spec lowering: a statement list.
pub open spec fn sp_parse_stmt_list(
    cst: Seq<CstNodeV>,
    itn: Seq<Seq<char>>,
    ast: AstV,
    list: Seq<usize>,
    i: int,
    acc: Seq<usize>,
    fuel: nat,
) -> (Seq<Seq<char>>, AstV, Result<Seq<usize>, LowerFault>)
    decreases fuel,
{
    if fuel == 0 {
        (itn, ast, Err(LowerFault::TooDeep))
    } else if i < 0 || i >= list.len() {
        (itn, ast, Ok(acc))
    } else {
        let f2 = (fuel - 1) as nat;
        let (itn1, ast1, r) = sp_parse_statement(cst, itn, ast, list[i], f2);
        match r {
            Ok(sidx) => sp_parse_stmt_list(cst, itn1, ast1, list, i + 1, acc.push(sidx), f2),
            Err(e) => (itn1, ast1, Err(e)),
        }
    }
}

/// The spec lowering: an expression list.
pub open spec fn sp_parse_expr_list(
    cst: Seq<CstNodeV>,
    itn: Seq<Seq<char>>,
    ast: AstV,
    list: Seq<usize>,
    i: int,
    acc: Seq<usize>,
    fuel: nat,
) -> (Seq<Seq<char>>, AstV, Result<Seq<usize>, LowerFault>)
    decreases fuel,
{
    if fuel == 0 {
        (itn, ast, Err(LowerFault::TooDeep))
    } else if i < 0 || i >= list.len() {
        (itn, ast, Ok(acc))
    } else {
        let f2 = (fuel - 1) as nat;
        let (itn1, ast1, r) = sp_parse_expression(cst, itn, ast, list[i], f2);
        match r {
            Ok(eidx) => sp_parse_expr_list(cst, itn1, ast1, list, i + 1, acc.push(eidx), f2),
            Err(e) => (itn1, ast1, Err(e)),
        }
    }
}

/// The spec lowering: one expression node.
#[verifier::opaque]
pub open spec fn sp_parse_expression(
    cst: Seq<CstNodeV>,
    itn: Seq<Seq<char>>,
    ast: AstV,
    node: usize,
    fuel: nat,
) -> (Seq<Seq<char>>, AstV, Result<usize, LowerFault>)
    decreases fuel,
{
    if fuel == 0 {
        (itn, ast, Err(LowerFault::TooDeep))
    } else if node >= cst.len() {
        (itn, ast, Err(LowerFault::NodeOutOfRange))
    } else {
        let f2 = (fuel - 1) as nat;
        let n = cst[node as int];
        if n.kind == CstKind::NahLiteral {
            let (ast1, idx) = ast.push_expr(
                ExprNodeV::Literal { value: crate::value::FruValue::Nah },
            );
            (itn, ast1, Ok(idx))
        } else if n.kind == CstKind::NumberLiteral {
            match sp_parse_number(n.text) {
                Some(v) => {
                    let (ast1, idx) = ast.push_expr(
                        ExprNodeV::Literal { value: crate::value::FruValue::Number(v) },
                    );
                    (itn, ast1, Ok(idx))
                },
                None => (itn, ast, Err(LowerFault::BadNumberLiteral)),
            }
        } else if n.kind == CstKind::BoolLiteral {
            if n.text == "true"@ {
                let (ast1, idx) = ast.push_expr(
                    ExprNodeV::Literal { value: crate::value::FruValue::Bool(true) },
                );
                (itn, ast1, Ok(idx))
            } else if n.text == "false"@ {
                let (ast1, idx) = ast.push_expr(
                    ExprNodeV::Literal { value: crate::value::FruValue::Bool(false) },
                );
                (itn, ast1, Ok(idx))
            } else {
                (itn, ast, Err(LowerFault::BadBoolLiteral))
            }
        } else if n.kind == CstKind::StringLiteral {
            let (itn1, id) = sp_intern(itn, n.text);
            let (ast1, idx) = ast.push_expr(
                ExprNodeV::Literal { value: crate::value::FruValue::Text(id) },
            );
            (itn1, ast1, Ok(idx))
        } else if n.kind == CstKind::Variable {
            let (itn1, id) = sp_intern(itn, n.text);
            let (ast1, idx) = ast.push_expr(ExprNodeV::Variable { ident: id });
            (itn1, ast1, Ok(idx))
        } else if n.kind == CstKind::BlockExpression {
            match sp_child_by(n.children, CstLabel::Expr) {
                Some(ex) => {
                    let list = sp_children_by(n.children, CstLabel::Body);
                    let (itn1, ast1, r) = sp_parse_stmt_list(
                        cst,
                        itn,
                        ast,
                        list,
                        0,
                        Seq::empty(),
                        f2,
                    );
                    match r {
                        Ok(stmts) => {
                            let (itn2, ast2, r2) = sp_parse_expression(cst, itn1, ast1, ex, f2);
                            match r2 {
                                Ok(eidx) => {
                                    let (ast3, idx) = ast2.push_expr(
                                        ExprNodeV::Block { body: stmts, expr: eidx },
                                    );
                                    (itn2, ast3, Ok(idx))
                                },
                                Err(e) => (itn2, ast2, Err(e)),
                            }
                        },
                        Err(e) => (itn1, ast1, Err(e)),
                    }
                },
                None => (itn, ast, Err(LowerFault::MissingChild(CstLabel::Expr))),
            }
        } else if n.kind == CstKind::CallExpression || n.kind == CstKind::CurryCallExpression
            || n.kind == CstKind::InstantiationExpression {
            match sp_child_by(n.children, CstLabel::What) {
                Some(w) => {
                    let (itn1, ast1, r) = sp_parse_expression(cst, itn, ast, w, f2);
                    match r {
                        Ok(widx) => {
                            let list = sp_children_by(n.children, CstLabel::Args);
                            let (itn2, ast2, r2) = sp_parse_expr_list(
                                cst,
                                itn1,
                                ast1,
                                list,
                                0,
                                Seq::empty(),
                                f2,
                            );
                            match r2 {
                                Ok(args) => {
                                    let en = if n.kind == CstKind::CallExpression {
                                        ExprNodeV::Call { what: widx, args }
                                    } else if n.kind == CstKind::CurryCallExpression {
                                        ExprNodeV::CurryCall { what: widx, args }
                                    } else {
                                        ExprNodeV::Instantiation { what: widx, args }
                                    };
                                    let (ast3, idx) = ast2.push_expr(en);
                                    (itn2, ast3, Ok(idx))
                                },
                                Err(e) => (itn2, ast2, Err(e)),
                            }
                        },
                        Err(e) => (itn1, ast1, Err(e)),
                    }
                },
                None => (itn, ast, Err(LowerFault::MissingChild(CstLabel::What))),
            }
        } else if n.kind == CstKind::BinariesExpression {
            let (itn1, ast1, r) = sp_collect_binaries(
                cst,
                itn,
                ast,
                n.children,
                0,
                Seq::empty(),
                f2,
            );
            match r {
                Ok(elems) => {
                    let (ast2, r2) = sp_reduce_all(ast1, elems);
                    (itn1, ast2, r2)
                },
                Err(e) => (itn1, ast1, Err(e)),
            }
        } else if n.kind == CstKind::FunctionExpression {
            match sp_child_by(n.children, CstLabel::Body) {
                Some(b) => {
                    let alist = sp_children_by(n.children, CstLabel::Args);
                    let (itn1, r) = sp_ident_list(cst, itn, alist, 0, Seq::empty());
                    match r {
                        Ok(params) => {
                            let (itn2, ast1, r2) = sp_parse_function_body(cst, itn1, ast, b, f2);
                            match r2 {
                                Ok(bidx) => {
                                    let (ast2, idx) = ast1.push_expr(
                                        ExprNodeV::Function { args: params, body: bidx },
                                    );
                                    (itn2, ast2, Ok(idx))
                                },
                                Err(e) => (itn2, ast1, Err(e)),
                            }
                        },
                        Err(e) => (itn1, ast, Err(e)),
                    }
                },
                None => (itn, ast, Err(LowerFault::MissingChild(CstLabel::Body))),
            }
        } else if n.kind == CstKind::FieldAccessExpression {
            match (sp_child_by(n.children, CstLabel::What), sp_child_by(
                n.children,
                CstLabel::Field,
            )) {
                (Some(w), Some(fnode)) => {
                    let (itn1, ast1, r) = sp_parse_expression(cst, itn, ast, w, f2);
                    match r {
                        Ok(widx) => {
                            match sp_node_ident(cst, itn1, fnode) {
                                Ok((itn2, fid)) => {
                                    let (ast2, idx) = ast1.push_expr(
                                        ExprNodeV::FieldAccess { what: widx, field: fid },
                                    );
                                    (itn2, ast2, Ok(idx))
                                },
                                Err(e) => (itn1, ast1, Err(e)),
                            }
                        },
                        Err(e) => (itn1, ast1, Err(e)),
                    }
                },
                (None, _) => (itn, ast, Err(LowerFault::MissingChild(CstLabel::What))),
                (_, None) => (itn, ast, Err(LowerFault::MissingChild(CstLabel::Field))),
            }
        } else if n.kind == CstKind::IfExpression {
            match (sp_child_by(n.children, CstLabel::Condition), sp_child_by(
                n.children,
                CstLabel::ThenBody,
            ), sp_child_by(n.children, CstLabel::ElseBody)) {
                (Some(c), Some(tb), Some(eb)) => {
                    let (itn1, ast1, r) = sp_parse_expression(cst, itn, ast, c, f2);
                    match r {
                        Ok(ce) => {
                            let (itn2, ast2, r2) = sp_parse_expression(cst, itn1, ast1, tb, f2);
                            match r2 {
                                Ok(te) => {
                                    let (itn3, ast3, r3) = sp_parse_expression(
                                        cst,
                                        itn2,
                                        ast2,
                                        eb,
                                        f2,
                                    );
                                    match r3 {
                                        Ok(ee) => {
                                            let (ast4, idx) = ast3.push_expr(
                                                ExprNodeV::If {
                                                    condition: ce,
                                                    then_body: te,
                                                    else_body: ee,
                                                },
                                            );
                                            (itn3, ast4, Ok(idx))
                                        },
                                        Err(e) => (itn3, ast3, Err(e)),
                                    }
                                },
                                Err(e) => (itn2, ast2, Err(e)),
                            }
                        },
                        Err(e) => (itn1, ast1, Err(e)),
                    }
                },
                (None, _, _) => (itn, ast, Err(LowerFault::MissingChild(CstLabel::Condition))),
                (_, None, _) => (itn, ast, Err(LowerFault::MissingChild(CstLabel::ThenBody))),
                (_, _, None) => (itn, ast, Err(LowerFault::MissingChild(CstLabel::ElseBody))),
            }
        } else {
            (itn, ast, Err(LowerFault::NotAnExpression(n.kind)))
        }
    }
}

/// The spec lowering: the alternating expression/operator children of a
/// binaries node, as reduction elements.
pub open spec fn sp_collect_binaries(
    cst: Seq<CstNodeV>,
    itn: Seq<Seq<char>>,
    ast: AstV,
    children: Seq<CstEdge>,
    i: int,
    acc: Seq<RElem>,
    fuel: nat,
) -> (Seq<Seq<char>>, AstV, Result<Seq<RElem>, LowerFault>)
    decreases fuel,
{
    if fuel == 0 {
        (itn, ast, Err(LowerFault::TooDeep))
    } else if i < 0 || i >= children.len() {
        (itn, ast, Ok(acc))
    } else {
        let f2 = (fuel - 1) as nat;
        if i % 2 == 0 {
            let (itn1, ast1, r) = sp_parse_expression(cst, itn, ast, children[i].node, f2);
            match r {
                Ok(eidx) => sp_collect_binaries(
                    cst,
                    itn1,
                    ast1,
                    children,
                    i + 1,
                    acc.push(RElem::Ex(eidx)),
                    f2,
                ),
                Err(e) => (itn1, ast1, Err(e)),
            }
        } else {
            match sp_node_ident(cst, itn, children[i].node) {
                Ok((itn1, opid)) => sp_collect_binaries(
                    cst,
                    itn1,
                    ast,
                    children,
                    i + 1,
                    acc.push(RElem::BinOp { ident: opid, precedence: sp_precedence(opid) }),
                    f2,
                ),
                Err(e) => (itn, ast, Err(e)),
            }
        }
    }
}

/// The spec lowering: a function body, which is a block statement taken as
/// is, or a block expression wrapped in a return.
pub open spec fn sp_parse_function_body(
    cst: Seq<CstNodeV>,
    itn: Seq<Seq<char>>,
    ast: AstV,
    node: usize,
    fuel: nat,
) -> (Seq<Seq<char>>, AstV, Result<usize, LowerFault>)
    decreases fuel,
{
    if fuel == 0 {
        (itn, ast, Err(LowerFault::TooDeep))
    } else if node >= cst.len() {
        (itn, ast, Err(LowerFault::NodeOutOfRange))
    } else {
        let f2 = (fuel - 1) as nat;
        let n = cst[node as int];
        if n.kind == CstKind::BlockStatement {
            sp_parse_statement(cst, itn, ast, node, f2)
        } else if n.kind == CstKind::BlockExpression {
            let (itn1, ast1, r) = sp_parse_expression(cst, itn, ast, node, f2);
            match r {
                Ok(eidx) => {
                    let (ast2, idx) = ast1.push_stmt(crate::ast::StmtNodeV::Return { value: eidx });
                    (itn1, ast2, Ok(idx))
                },
                Err(e) => (itn1, ast1, Err(e)),
            }
        } else {
            (itn, ast, Err(LowerFault::NotAFunctionBody(n.kind)))
        }
    }
}

/// The spec lowering: one field declaration. A field is static when the
/// static marker child is present; only a static field may carry a default
/// value.
#[verifier::opaque]
pub open spec fn sp_parse_field(
    cst: Seq<CstNodeV>,
    itn: Seq<Seq<char>>,
    ast: AstV,
    node: usize,
    fuel: nat,
) -> (Seq<Seq<char>>, AstV, Result<AnyField, LowerFault>)
    decreases fuel,
{
    if fuel == 0 {
        (itn, ast, Err(LowerFault::TooDeep))
    } else if node >= cst.len() {
        (itn, ast, Err(LowerFault::NodeOutOfRange))
    } else {
        let f2 = (fuel - 1) as nat;
        let n = cst[node as int];
        match sp_child_by(n.children, CstLabel::Ident) {
            Some(idn) => {
                let is_public = sp_child_by(n.children, CstLabel::Pub) is Some;
                let is_static = sp_child_by(n.children, CstLabel::Static) is Some;
                match sp_node_ident(cst, itn, idn) {
                    Ok((i1, id)) => {
                        let tio = sp_child_by(n.children, CstLabel::TypeIdent);
                        if tio is Some && tio->Some_0 >= cst.len() {
                            (i1, ast, Err(LowerFault::NodeOutOfRange))
                        } else {
                            let (i2, type_ident) = if tio is Some {
                                let (ii, tid) = sp_intern(i1, cst[tio->Some_0 as int].text);
                                (ii, Some(tid))
                            } else {
                                (i1, None)
                            };
                            let f = crate::value::FruField { is_public, ident: id, type_ident };
                            match sp_child_by(n.children, CstLabel::Value) {
                                Some(v) => {
                                    if !is_static {
                                        (i2, ast, Err(LowerFault::InstanceFieldWithDefault))
                                    } else {
                                        let (i3, ast1, r) = sp_parse_expression(
                                            cst,
                                            i2,
                                            ast,
                                            v,
                                            f2,
                                        );
                                        match r {
                                            Ok(eidx) => (
                                                i3,
                                                ast1,
                                                Ok(AnyField::Static(f, Some(eidx))),
                                            ),
                                            Err(e) => (i3, ast1, Err(e)),
                                        }
                                    }
                                },
                                None => {
                                    if is_static {
                                        (i2, ast, Ok(AnyField::Static(f, None)))
                                    } else {
                                        (i2, ast, Ok(AnyField::Normal(f)))
                                    }
                                },
                            }
                        }
                    },
                    Err(e) => (itn, ast, Err(e)),
                }
            },
            None => (itn, ast, Err(LowerFault::MissingChild(CstLabel::Ident))),
        }
    }
}

/// A lowered field declaration: an instance field, or a static field with
/// its optional initializer.
#[derive(Debug, Clone, Copy, PartialEq, Eq)]
pub enum AnyField {
    Normal(crate::value::FruField),
    Static(crate::value::FruField, Option<usize>),
}

/// The spec lowering: all field declarations of a type, split by the
/// static marker, declaration order kept within each group.
pub open spec fn sp_parse_fields(
    cst: Seq<CstNodeV>,
    itn: Seq<Seq<char>>,
    ast: AstV,
    list: Seq<usize>,
    i: int,
    acc_n: Seq<crate::value::FruField>,
    acc_s: Seq<crate::ast::StaticFieldDecl>,
    fuel: nat,
) -> (Seq<Seq<char>>, AstV, Result<
    (Seq<crate::value::FruField>, Seq<crate::ast::StaticFieldDecl>),
    LowerFault,
>)
    decreases fuel,
{
    if fuel == 0 {
        (itn, ast, Err(LowerFault::TooDeep))
    } else if i < 0 || i >= list.len() {
        (itn, ast, Ok((acc_n, acc_s)))
    } else {
        let f2 = (fuel - 1) as nat;
        let (itn1, ast1, r) = sp_parse_field(cst, itn, ast, list[i], f2);
        match r {
            Ok(AnyField::Normal(f)) => sp_parse_fields(
                cst,
                itn1,
                ast1,
                list,
                i + 1,
                acc_n.push(f),
                acc_s,
                f2,
            ),
            Ok(AnyField::Static(f, v)) => sp_parse_fields(
                cst,
                itn1,
                ast1,
                list,
                i + 1,
                acc_n,
                acc_s.push(crate::ast::StaticFieldDecl { field: f, value: v }),
                f2,
            ),
            Err(e) => (itn1, ast1, Err(e)),
        }
    }
}

/// The spec lowering: one method declaration.
#[verifier::opaque]
pub open spec fn sp_parse_method(
    cst: Seq<CstNodeV>,
    itn: Seq<Seq<char>>,
    ast: AstV,
    node: usize,
    fuel: nat,
) -> (Seq<Seq<char>>, AstV, Result<crate::ast::RawMethodV, LowerFault>)
    decreases fuel,
{
    if fuel == 0 {
        (itn, ast, Err(LowerFault::TooDeep))
    } else if node >= cst.len() {
        (itn, ast, Err(LowerFault::NodeOutOfRange))
    } else {
        let f2 = (fuel - 1) as nat;
        let n = cst[node as int];
        match (sp_child_by(n.children, CstLabel::Ident), sp_child_by(
            n.children,
            CstLabel::Body,
        )) {
            (Some(idn), Some(b)) => {
                match sp_node_ident(cst, itn, idn) {
                    Ok((i1, id)) => {
                        let alist = sp_children_by(n.children, CstLabel::Args);
                        let (i2, r) = sp_ident_list(cst, i1, alist, 0, Seq::empty());
                        match r {
                            Ok(params) => {
                                let (i3, ast1, r2) = sp_parse_function_body(cst, i2, ast, b, f2);
                                match r2 {
                                    Ok(bidx) => (
                                        i3,
                                        ast1,
                                        Ok(
                                            crate::ast::RawMethodV {
                                                ident: id,
                                                args: params,
                                                body: bidx,
                                            },
                                        ),
                                    ),
                                    Err(e) => (i3, ast1, Err(e)),
                                }
                            },
                            Err(e) => (i2, ast, Err(e)),
                        }
                    },
                    Err(e) => (itn, ast, Err(e)),
                }
            },
            (None, _) => (itn, ast, Err(LowerFault::MissingChild(CstLabel::Ident))),
            (_, None) => (itn, ast, Err(LowerFault::MissingChild(CstLabel::Body))),
        }
    }
}

/// The spec lowering: a method list.
pub open spec fn sp_parse_methods(
    cst: Seq<CstNodeV>,
    itn: Seq<Seq<char>>,
    ast: AstV,
    list: Seq<usize>,
    i: int,
    acc: Seq<crate::ast::RawMethodV>,
    fuel: nat,
) -> (Seq<Seq<char>>, AstV, Result<Seq<crate::ast::RawMethodV>, LowerFault>)
    decreases fuel,
{
    if fuel == 0 {
        (itn, ast, Err(LowerFault::TooDeep))
    } else if i < 0 || i >= list.len() {
        (itn, ast, Ok(acc))
    } else {
        let f2 = (fuel - 1) as nat;
        let (itn1, ast1, r) = sp_parse_method(cst, itn, ast, list[i], f2);
        match r {
            Ok(m) => sp_parse_methods(cst, itn1, ast1, list, i + 1, acc.push(m), f2),
            Err(e) => (itn1, ast1, Err(e)),
        }
    }
}

/// The spec lowering: one watch declaration.
#[verifier::opaque]
pub open spec fn sp_parse_watch(
    cst: Seq<CstNodeV>,
    itn: Seq<Seq<char>>,
    ast: AstV,
    node: usize,
    fuel: nat,
) -> (Seq<Seq<char>>, AstV, Result<crate::ast::RawWatchV, LowerFault>)
    decreases fuel,
{
    if fuel == 0 {
        (itn, ast, Err(LowerFault::TooDeep))
    } else if node >= cst.len() {
        (itn, ast, Err(LowerFault::NodeOutOfRange))
    } else {
        let f2 = (fuel - 1) as nat;
        let n = cst[node as int];
        match sp_child_by(n.children, CstLabel::Body) {
            Some(b) => {
                let alist = sp_children_by(n.children, CstLabel::Args);
                let (i1, r) = sp_ident_list(cst, itn, alist, 0, Seq::empty());
                match r {
                    Ok(params) => {
                        let (i2, ast1, r2) = sp_parse_statement(cst, i1, ast, b, f2);
                        match r2 {
                            Ok(bidx) => (
                                i2,
                                ast1,
                                Ok(crate::ast::RawWatchV { args: params, body: bidx }),
                            ),
                            Err(e) => (i2, ast1, Err(e)),
                        }
                    },
                    Err(e) => (i1, ast, Err(e)),
                }
            },
            None => (itn, ast, Err(LowerFault::MissingChild(CstLabel::Body))),
        }
    }
}

/// The spec lowering: a watch list.
pub open spec fn sp_parse_watches(
    cst: Seq<CstNodeV>,
    itn: Seq<Seq<char>>,
    ast: AstV,
    list: Seq<usize>,
    i: int,
    acc: Seq<crate::ast::RawWatchV>,
    fuel: nat,
) -> (Seq<Seq<char>>, AstV, Result<Seq<crate::ast::RawWatchV>, LowerFault>)
    decreases fuel,
{
    if fuel == 0 {
        (itn, ast, Err(LowerFault::TooDeep))
    } else if i < 0 || i >= list.len() {
        (itn, ast, Ok(acc))
    } else {
        let f2 = (fuel - 1) as nat;
        let (itn1, ast1, r) = sp_parse_watch(cst, itn, ast, list[i], f2);
        match r {
            Ok(w) => sp_parse_watches(cst, itn1, ast1, list, i + 1, acc.push(w), f2),
            Err(e) => (itn1, ast1, Err(e)),
        }
    }
}

/// The spec lowering: the sections of a type declaration, each extending
/// the method, static-method or watch group.
pub open spec fn sp_parse_sections(
    cst: Seq<CstNodeV>,
    itn: Seq<Seq<char>>,
    ast: AstV,
    list: Seq<usize>,
    i: int,
    acc_m: Seq<crate::ast::RawMethodV>,
    acc_sm: Seq<crate::ast::RawMethodV>,
    acc_w: Seq<crate::ast::RawWatchV>,
    fuel: nat,
) -> (Seq<Seq<char>>, AstV, Result<
    (Seq<crate::ast::RawMethodV>, Seq<crate::ast::RawMethodV>, Seq<crate::ast::RawWatchV>),
    LowerFault,
>)
    decreases fuel,
{
    if fuel == 0 {
        (itn, ast, Err(LowerFault::TooDeep))
    } else if i < 0 || i >= list.len() {
        (itn, ast, Ok((acc_m, acc_sm, acc_w)))
    } else if list[i] >= cst.len() {
        (itn, ast, Err(LowerFault::NodeOutOfRange))
    } else {
        let f2 = (fuel - 1) as nat;
        let n = cst[list[i] as int];
        if n.kind == CstKind::TypeImplSection {
            let mlist = sp_children_by(n.children, CstLabel::Methods);
            let (i1, ast1, r) = sp_parse_methods(cst, itn, ast, mlist, 0, Seq::empty(), f2);
            match r {
                Ok(ms) => sp_parse_sections(
                    cst,
                    i1,
                    ast1,
                    list,
                    i + 1,
                    acc_m + ms,
                    acc_sm,
                    acc_w,
                    f2,
                ),
                Err(e) => (i1, ast1, Err(e)),
            }
        } else if n.kind == CstKind::TypeStaticSection {
            let mlist = sp_children_by(n.children, CstLabel::Methods);
            let (i1, ast1, r) = sp_parse_methods(cst, itn, ast, mlist, 0, Seq::empty(), f2);
            match r {
                Ok(ms) => sp_parse_sections(
                    cst,
                    i1,
                    ast1,
                    list,
                    i + 1,
                    acc_m,
                    acc_sm + ms,
                    acc_w,
                    f2,
                ),
                Err(e) => (i1, ast1, Err(e)),
            }
        } else if n.kind == CstKind::TypeConstraintsSection {
            let wlist = sp_children_by(n.children, CstLabel::Watches);
            let (i1, ast1, r) = sp_parse_watches(cst, itn, ast, wlist, 0, Seq::empty(), f2);
            match r {
                Ok(ws) => sp_parse_sections(
                    cst,
                    i1,
                    ast1,
                    list,
                    i + 1,
                    acc_m,
                    acc_sm,
                    acc_w + ws,
                    f2,
                ),
                Err(e) => (i1, ast1, Err(e)),
            }
        } else {
            (itn, ast, Err(LowerFault::NotASection(n.kind)))
        }
    }
}

/// Whether a text is exactly the given literal.
fn text_is(text: &String, lit: &str) -> (r: bool)
    ensures
        r == (text@ == lit@),
{
    let l: String = lit.to_owned();
    *text == l
}

/// The flavor a type declaration's flavor word denotes.
fn flavor_of_text(text: &String) -> (r: Option<crate::value::TypeFlavor>)
    ensures
        r == sp_flavor_of(text@),
{
    if text_is(text, "struct") {
        Some(crate::value::TypeFlavor::Struct)
    } else if text_is(text, "class") {
        Some(crate::value::TypeFlavor::Class)
    } else if text_is(text, "data") {
        Some(crate::value::TypeFlavor::Data)
    } else {
        None
    }
}

/// Interns the text of an identifier-bearing node.
#[verifier::rlimit(100)]
#[verifier::spinoff_prover]
fn node_ident(cst: &Cst, itn: &mut Interner, node: usize) -> (r: Result<Identifier, LowerFault>)
    ensures
        (match r {
            Ok(id) => sp_node_ident(cst@, old(itn)@, node) == Ok::<_, LowerFault>(
                (final(itn)@, id),
            ),
            Err(e) => sp_node_ident(cst@, old(itn)@, node) == Err::<(Seq<Seq<char>>, Identifier), LowerFault>(e)
                && final(itn)@ == old(itn)@,
        }),
{
    if node >= cst.nodes.len() {
        return Err(LowerFault::NodeOutOfRange);
    }
    proof {
        assert(cst@[node as int] == cst.nodes@[node as int]@);
    }
    Ok(intern_text(itn, &cst.nodes[node].text))
}

/// Interns the texts of a list of identifier nodes, in order.
#[verifier::rlimit(100)]
#[verifier::spinoff_prover]
fn ident_list(
    cst: &Cst,
    itn: &mut Interner,
    list: &Vec<usize>,
    i: usize,
    acc: Vec<Identifier>,
) -> (r: Result<Vec<Identifier>, LowerFault>)
    ensures
        (match r {
            Ok(ids) => sp_ident_list(cst@, old(itn)@, list@, i as int, acc@) == (
                final(itn)@,
                Ok::<Seq<Identifier>, LowerFault>(ids@),
            ),
            Err(e) => sp_ident_list(cst@, old(itn)@, list@, i as int, acc@) == (
                final(itn)@,
                Err::<Seq<Identifier>, LowerFault>(e),
            ),
        }),
    decreases list@.len() - i,
{
    if i >= list.len() {
        return Ok(acc);
    }
    match node_ident(cst, itn, list[i]) {
        Ok(id) => {
            let mut acc2 = acc;
            acc2.push(id);
            ident_list(cst, itn, list, i + 1, acc2)
        },
        Err(e) => Err(e),
    }
}

/// Lowers one statement node.
#[verifier::rlimit(100)]
#[verifier::spinoff_prover]
pub fn parse_statement(cst: &Cst, itn: &mut Interner, ast: &mut Ast, node: usize, fuel: usize) -> (r:
    Result<usize, LowerFault>)
    ensures
        ({
            let (i2, a2, r2) = sp_parse_statement(cst@, old(itn)@, old(ast)@, node, fuel as nat);
            final(itn)@ == i2 && final(ast)@ == a2 && r == r2
        }),
    decreases fuel,
{
    proof {
        reveal_with_fuel(sp_parse_statement, 1);
    }
    if fuel == 0 {
        return Err(LowerFault::TooDeep);
    }
    if node >= cst.nodes.len() {
        return Err(LowerFault::NodeOutOfRange);
    }
    proof {
        assert(cst@[node as int] == cst.nodes@[node as int]@);
    }
    let f2 = fuel - 1;
    let kind = cst.nodes[node].kind;
    if kind == CstKind::SourceFile || kind == CstKind::BlockStatement {
        let list = children_by(&cst.nodes[node].children, CstLabel::Body);
        let acc: Vec<usize> = Vec::new();
        proof {
            assert(acc@ =~= Seq::<usize>::empty());
        }
        match parse_stmt_list(cst, itn, ast, &list, 0, acc, f2) {
            Ok(stmts) => Ok(ast.push_stmt(crate::ast::StmtNode::Block { body: stmts })),
            Err(e) => Err(e),
        }
    } else if kind == CstKind::ExpressionStatement {
        match child_by(&cst.nodes[node].children, CstLabel::Value) {
            Some(v) => {
                match parse_expression(cst, itn, ast, v, f2) {
                    Ok(e) => Ok(ast.push_stmt(crate::ast::StmtNode::Expression { value: e })),
                    Err(e) => Err(e),
                }
            },
            None => Err(LowerFault::MissingChild(CstLabel::Value)),
        }
    } else if kind == CstKind::LetStatement || kind == CstKind::SetStatement {
        let idn_opt = child_by(&cst.nodes[node].children, CstLabel::Ident);
        let v_opt = child_by(&cst.nodes[node].children, CstLabel::Value);
        match (idn_opt, v_opt) {
            (Some(idn), Some(v)) => {
                match node_ident(cst, itn, idn) {
                    Ok(id) => {
                        match parse_expression(cst, itn, ast, v, f2) {
                            Ok(e) => {
                                let st = if kind == CstKind::LetStatement {
                                    crate::ast::StmtNode::Let { ident: id, value: e }
                                } else {
                                    crate::ast::StmtNode::SetVar { ident: id, value: e }
                                };
                                Ok(ast.push_stmt(st))
                            },
                            Err(e) => Err(e),
                        }
                    },
                    Err(e) => Err(e),
                }
            },
            (None, _) => Err(LowerFault::MissingChild(CstLabel::Ident)),
            (_, None) => Err(LowerFault::MissingChild(CstLabel::Value)),
        }
    } else if kind == CstKind::SetFieldStatement {
        let w_opt = child_by(&cst.nodes[node].children, CstLabel::What);
        let v_opt = child_by(&cst.nodes[node].children, CstLabel::Value);
        match (w_opt, v_opt) {
            (Some(w), Some(v)) => {
                match parse_expression(cst, itn, ast, w, f2) {
                    Ok(widx) => {
                        if widx >= ast.exprs.len() {
                            return Err(LowerFault::NodeOutOfRange);
                        }
                        proof {
                            assert(ast@.exprs[widx as int] == ast.exprs@[widx as int]@);
                        }
                        match &ast.exprs[widx] {
                            ExprNode::FieldAccess { what, field } => {
                                let what = *what;
                                let field = *field;
                                match parse_expression(cst, itn, ast, v, f2) {
                                    Ok(vidx) => Ok(
                                        ast.push_stmt(
                                            crate::ast::StmtNode::SetField {
                                                target: what,
                                                field,
                                                value: vidx,
                                            },
                                        ),
                                    ),
                                    Err(e) => Err(e),
                                }
                            },
                            _ => Err(LowerFault::SetFieldTargetNotFieldAccess),
                        }
                    },
                    Err(e) => Err(e),
                }
            },
            (None, _) => Err(LowerFault::MissingChild(CstLabel::What)),
            (_, None) => Err(LowerFault::MissingChild(CstLabel::Value)),
        }
    } else if kind == CstKind::IfStatement {
        let c_opt = child_by(&cst.nodes[node].children, CstLabel::Condition);
        let t_opt = child_by(&cst.nodes[node].children, CstLabel::ThenBody);
        match (c_opt, t_opt) {
            (Some(c), Some(tb)) => {
                match parse_expression(cst, itn, ast, c, f2) {
                    Ok(ce) => {
                        match parse_statement(cst, itn, ast, tb, f2) {
                            Ok(ts) => {
                                match child_by(&cst.nodes[node].children, CstLabel::ElseBody) {
                                    Some(eb) => {
                                        match parse_statement(cst, itn, ast, eb, f2) {
                                            Ok(es) => Ok(
                                                ast.push_stmt(
                                                    crate::ast::StmtNode::If {
                                                        condition: ce,
                                                        then_body: ts,
                                                        else_body: Some(es),
                                                    },
                                                ),
                                            ),
                                            Err(e) => Err(e),
                                        }
                                    },
                                    None => Ok(
                                        ast.push_stmt(
                                            crate::ast::StmtNode::If {
                                                condition: ce,
                                                then_body: ts,
                                                else_body: None,
                                            },
                                        ),
                                    ),
                                }
                            },
                            Err(e) => Err(e),
                        }
                    },
                    Err(e) => Err(e),
                }
            },
            (None, _) => Err(LowerFault::MissingChild(CstLabel::Condition)),
            (_, None) => Err(LowerFault::MissingChild(CstLabel::ThenBody)),
        }
    } else if kind == CstKind::WhileStatement {
        let c_opt = child_by(&cst.nodes[node].children, CstLabel::Condition);
        let b_opt = child_by(&cst.nodes[node].children, CstLabel::Body);
        match (c_opt, b_opt) {
            (Some(c), Some(b)) => {
                match parse_expression(cst, itn, ast, c, f2) {
                    Ok(ce) => {
                        match parse_statement(cst, itn, ast, b, f2) {
                            Ok(bs) => Ok(
                                ast.push_stmt(crate::ast::StmtNode::While { cond: ce, body: bs }),
                            ),
                            Err(e) => Err(e),
                        }
                    },
                    Err(e) => Err(e),
                }
            },
            (None, _) => Err(LowerFault::MissingChild(CstLabel::Condition)),
            (_, None) => Err(LowerFault::MissingChild(CstLabel::Body)),
        }
    } else if kind == CstKind::ReturnStatement {
        match child_by(&cst.nodes[node].children, CstLabel::Value) {
            Some(v) => {
                match parse_expression(cst, itn, ast, v, f2) {
                    Ok(e) => Ok(ast.push_stmt(crate::ast::StmtNode::Return { value: e })),
                    Err(e) => Err(e),
                }
            },
            None => {
                let nahe = ast.push_expr(
                    ExprNode::Literal { value: crate::value::FruValue::Nah },
                );
                Ok(ast.push_stmt(crate::ast::StmtNode::Return { value: nahe }))
            },
        }
    } else if kind == CstKind::BreakStatement {
        Ok(ast.push_stmt(crate::ast::StmtNode::Break))
    } else if kind == CstKind::ContinueStatement {
        Ok(ast.push_stmt(crate::ast::StmtNode::Continue))
    } else if kind == CstKind::OperatorStatement {
        parse_operator_stmt(cst, itn, ast, node, f2)
    } else if kind == CstKind::TypeStatement {
        parse_type_stmt(cst, itn, ast, node, f2)
    } else {
        Err(LowerFault::NotAStatement(kind))
    }
}

/// Lowers an operator declaration statement.
#[verifier::rlimit(100)]
#[verifier::spinoff_prover]
fn parse_operator_stmt(cst: &Cst, itn: &mut Interner, ast: &mut Ast, node: usize, fuel: usize) -> (r:
    Result<usize, LowerFault>)
    requires
        node < cst@.len(),
    ensures
        ({
            let (i2, a2, r2) = sp_parse_operator_stmt(
                cst@,
                old(itn)@,
                old(ast)@,
                cst@[node as int],
                fuel as nat,
            );
            final(itn)@ == i2 && final(ast)@ == a2 && r == r2
        }),
    decreases fuel,
{
    proof {
        reveal_with_fuel(sp_parse_operator_stmt, 1);
    }
    if fuel == 0 {
        return Err(LowerFault::TooDeep);
    }
    proof {
        assert(cst@[node as int] == cst.nodes@[node as int]@);
    }
    let f2 = fuel - 1;
    let idn = child_by(&cst.nodes[node].children, CstLabel::Ident);
    let li = child_by(&cst.nodes[node].children, CstLabel::LeftIdent);
    let lti = child_by(&cst.nodes[node].children, CstLabel::LeftTypeIdent);
    let ri = child_by(&cst.nodes[node].children, CstLabel::RightIdent);
    let rti = child_by(&cst.nodes[node].children, CstLabel::RightTypeIdent);
    let bd = child_by(&cst.nodes[node].children, CstLabel::Body);
    if idn.is_none() {
        return Err(LowerFault::MissingChild(CstLabel::Ident));
    }
    if li.is_none() {
        return Err(LowerFault::MissingChild(CstLabel::LeftIdent));
    }
    if lti.is_none() {
        return Err(LowerFault::MissingChild(CstLabel::LeftTypeIdent));
    }
    if ri.is_none() {
        return Err(LowerFault::MissingChild(CstLabel::RightIdent));
    }
    if rti.is_none() {
        return Err(LowerFault::MissingChild(CstLabel::RightTypeIdent));
    }
    if bd.is_none() {
        return Err(LowerFault::MissingChild(CstLabel::Body));
    }
    let commutative = child_by(&cst.nodes[node].children, CstLabel::Commutative).is_some();
    let opid = match node_ident(cst, itn, idn.unwrap()) {
        Ok(x) => x,
        Err(e) => {
            return Err(e);
        },
    };
    let lid = match node_ident(cst, itn, li.unwrap()) {
        Ok(x) => x,
        Err(e) => {
            return Err(e);
        },
    };
    let ltid = match node_ident(cst, itn, lti.unwrap()) {
        Ok(x) => x,
        Err(e) => {
            return Err(e);
        },
    };
    let rid = match node_ident(cst, itn, ri.unwrap()) {
        Ok(x) => x,
        Err(e) => {
            return Err(e);
        },
    };
    let rtid = match node_ident(cst, itn, rti.unwrap()) {
        Ok(x) => x,
        Err(e) => {
            return Err(e);
        },
    };
    match parse_function_body(cst, itn, ast, bd.unwrap(), f2) {
        Ok(b) => Ok(
            ast.push_stmt(
                crate::ast::StmtNode::Operator {
                    ident: opid,
                    commutative,
                    left_ident: lid,
                    left_type_ident: ltid,
                    right_ident: rid,
                    right_type_ident: rtid,
                    body: b,
                },
            ),
        ),
        Err(e) => Err(e),
    }
}

/// Lowers a type declaration statement.
#[verifier::rlimit(100)]
#[verifier::spinoff_prover]
fn parse_type_stmt(cst: &Cst, itn: &mut Interner, ast: &mut Ast, node: usize, fuel: usize) -> (r:
    Result<usize, LowerFault>)
    requires
        node < cst@.len(),
    ensures
        ({
            let (i2, a2, r2) = sp_parse_type_stmt(
                cst@,
                old(itn)@,
                old(ast)@,
                cst@[node as int],
                fuel as nat,
            );
            final(itn)@ == i2 && final(ast)@ == a2 && r == r2
        }),
    decreases fuel,
{
    proof {
        reveal_with_fuel(sp_parse_type_stmt, 1);
    }
    if fuel == 0 {
        return Err(LowerFault::TooDeep);
    }
    proof {
        assert(cst@[node as int] == cst.nodes@[node as int]@);
    }
    let f2 = fuel - 1;
    let tt_opt = child_by(&cst.nodes[node].children, CstLabel::TypeType);
    let idn_opt = child_by(&cst.nodes[node].children, CstLabel::Ident);
    match (tt_opt, idn_opt) {
        (Some(tt), Some(idn)) => {
            if tt >= cst.nodes.len() {
                return Err(LowerFault::NodeOutOfRange);
            }
            proof {
                assert(cst@[tt as int] == cst.nodes@[tt as int]@);
            }
            match flavor_of_text(&cst.nodes[tt].text) {
                Some(flavor) => {
                    match node_ident(cst, itn, idn) {
                        Ok(id) => {
                            let flist = children_by(&cst.nodes[node].children, CstLabel::Fields);
                            let acc_n: Vec<crate::value::FruField> = Vec::new();
                            let acc_s: Vec<crate::ast::StaticFieldDecl> = Vec::new();
                            proof {
                                assert(acc_n@ =~= Seq::<crate::value::FruField>::empty());
                                assert(acc_s@ =~= Seq::<crate::ast::StaticFieldDecl>::empty());
                            }
                            match parse_fields(cst, itn, ast, &flist, 0, acc_n, acc_s, f2) {
                                Ok((nf, sf)) => {
                                    let slist = children_by(
                                        &cst.nodes[node].children,
                                        CstLabel::Sections,
                                    );
                                    let am: Vec<crate::ast::RawMethod> = Vec::new();
                                    let astat: Vec<crate::ast::RawMethod> = Vec::new();
                                    let aw: Vec<crate::ast::RawWatch> = Vec::new();
                                    proof {
                                        assert(am@.map_values(|m: crate::ast::RawMethod| m@)
                                            =~= Seq::<crate::ast::RawMethodV>::empty());
                                        assert(astat@.map_values(|m: crate::ast::RawMethod| m@)
                                            =~= Seq::<crate::ast::RawMethodV>::empty());
                                        assert(aw@.map_values(|w: crate::ast::RawWatch| w@)
                                            =~= Seq::<crate::ast::RawWatchV>::empty());
                                    }
                                    match parse_sections(cst, itn, ast, &slist, 0, am, astat, aw, f2) {
                                        Ok((ms, sms, ws)) => Ok(
                                            ast.push_stmt(
                                                crate::ast::StmtNode::Type {
                                                    type_type: flavor,
                                                    ident: id,
                                                    fields: nf,
                                                    static_fields: sf,
                                                    watches: ws,
                                                    methods: ms,
                                                    static_methods: sms,
                                                },
                                            ),
                                        ),
                                        Err(e) => Err(e),
                                    }
                                },
                                Err(e) => Err(e),
                            }
                        },
                        Err(e) => Err(e),
                    }
                },
                None => Err(LowerFault::BadTypeFlavor),
            }
        },
        (None, _) => Err(LowerFault::MissingChild(CstLabel::TypeType)),
        (_, None) => Err(LowerFault::MissingChild(CstLabel::Ident)),
    }
}

/// Lowers a statement list.
#[verifier::rlimit(100)]
#[verifier::spinoff_prover]
fn parse_stmt_list(
    cst: &Cst,
    itn: &mut Interner,
    ast: &mut Ast,
    list: &Vec<usize>,
    i: usize,
    acc: Vec<usize>,
    fuel: usize,
) -> (r: Result<Vec<usize>, LowerFault>)
    ensures
        ({
            let (i2, a2, r2) = sp_parse_stmt_list(
                cst@,
                old(itn)@,
                old(ast)@,
                list@,
                i as int,
                acc@,
                fuel as nat,
            );
            final(itn)@ == i2 && final(ast)@ == a2 && (match (r, r2) {
                (Ok(v), Ok(sv)) => v@ == sv,
                (Err(e), Err(e2)) => e == e2,
                _ => false,
            })
        }),
    decreases fuel,
{
    if fuel == 0 {
        return Err(LowerFault::TooDeep);
    }
    if i >= list.len() {
        return Ok(acc);
    }
    let f2 = fuel - 1;
    match parse_statement(cst, itn, ast, list[i], f2) {
        Ok(sidx) => {
            let mut acc2 = acc;
            acc2.push(sidx);
            parse_stmt_list(cst, itn, ast, list, i + 1, acc2, f2)
        },
        Err(e) => Err(e),
    }
}

/// Lowers an expression list.
#[verifier::rlimit(100)]
#[verifier::spinoff_prover]
fn parse_expr_list(
    cst: &Cst,
    itn: &mut Interner,
    ast: &mut Ast,
    list: &Vec<usize>,
    i: usize,
    acc: Vec<usize>,
    fuel: usize,
) -> (r: Result<Vec<usize>, LowerFault>)
    ensures
        ({
            let (i2, a2, r2) = sp_parse_expr_list(
                cst@,
                old(itn)@,
                old(ast)@,
                list@,
                i as int,
                acc@,
                fuel as nat,
            );
            final(itn)@ == i2 && final(ast)@ == a2 && (match (r, r2) {
                (Ok(v), Ok(sv)) => v@ == sv,
                (Err(e), Err(e2)) => e == e2,
                _ => false,
            })
        }),
    decreases fuel,
{
    if fuel == 0 {
        return Err(LowerFault::TooDeep);
    }
    if i >= list.len() {
        return Ok(acc);
    }
    let f2 = fuel - 1;
    match parse_expression(cst, itn, ast, list[i], f2) {
        Ok(eidx) => {
            let mut acc2 = acc;
            acc2.push(eidx);
            parse_expr_list(cst, itn, ast, list, i + 1, acc2, f2)
        },
        Err(e) => Err(e),
    }
}

/// Lowers one expression node.
#[verifier::rlimit(100)]
#[verifier::spinoff_prover]
pub fn parse_expression(cst: &Cst, itn: &mut Interner, ast: &mut Ast, node: usize, fuel: usize) -> (r:
    Result<usize, LowerFault>)
    ensures
        ({
            let (i2, a2, r2) = sp_parse_expression(cst@, old(itn)@, old(ast)@, node, fuel as nat);
            final(itn)@ == i2 && final(ast)@ == a2 && r == r2
        }),
    decreases fuel,
{
    proof {
        reveal_with_fuel(sp_parse_expression, 1);
    }
    if fuel == 0 {
        return Err(LowerFault::TooDeep);
    }
    if node >= cst.nodes.len() {
        return Err(LowerFault::NodeOutOfRange);
    }
    proof {
        assert(cst@[node as int] == cst.nodes@[node as int]@);
    }
    let f2 = fuel - 1;
    let kind = cst.nodes[node].kind;
    if kind == CstKind::NahLiteral {
        Ok(ast.push_expr(ExprNode::Literal { value: crate::value::FruValue::Nah }))
    } else if kind == CstKind::NumberLiteral {
        match parse_number_text(&cst.nodes[node].text) {
            Some(v) => Ok(
                ast.push_expr(ExprNode::Literal { value: crate::value::FruValue::Number(v) }),
            ),
            None => Err(LowerFault::BadNumberLiteral),
        }
    } else if kind == CstKind::BoolLiteral {
        if text_is(&cst.nodes[node].text, "true") {
            Ok(ast.push_expr(ExprNode::Literal { value: crate::value::FruValue::Bool(true) }))
        } else if text_is(&cst.nodes[node].text, "false") {
            Ok(ast.push_expr(ExprNode::Literal { value: crate::value::FruValue::Bool(false) }))
        } else {
            Err(LowerFault::BadBoolLiteral)
        }
    } else if kind == CstKind::StringLiteral {
        let id = intern_text(itn, &cst.nodes[node].text);
        Ok(ast.push_expr(ExprNode::Literal { value: crate::value::FruValue::Text(id) }))
    } else if kind == CstKind::Variable {
        let id = intern_text(itn, &cst.nodes[node].text);
        Ok(ast.push_expr(ExprNode::Variable { ident: id }))
    } else if kind == CstKind::BlockExpression {
        match child_by(&cst.nodes[node].children, CstLabel::Expr) {
            Some(ex) => {
                let list = children_by(&cst.nodes[node].children, CstLabel::Body);
                let acc: Vec<usize> = Vec::new();
                proof {
                    assert(acc@ =~= Seq::<usize>::empty());
                }
                match parse_stmt_list(cst, itn, ast, &list, 0, acc, f2) {
                    Ok(stmts) => {
                        match parse_expression(cst, itn, ast, ex, f2) {
                            Ok(eidx) => Ok(
                                ast.push_expr(ExprNode::Block { body: stmts, expr: eidx }),
                            ),
                            Err(e) => Err(e),
                        }
                    },
                    Err(e) => Err(e),
                }
            },
            None => Err(LowerFault::MissingChild(CstLabel::Expr)),
        }
    } else if kind == CstKind::CallExpression || kind == CstKind::CurryCallExpression || kind
        == CstKind::InstantiationExpression {
        match child_by(&cst.nodes[node].children, CstLabel::What) {
            Some(w) => {
                match parse_expression(cst, itn, ast, w, f2) {
                    Ok(widx) => {
                        let list = children_by(&cst.nodes[node].children, CstLabel::Args);
                        let acc: Vec<usize> = Vec::new();
                        proof {
                            assert(acc@ =~= Seq::<usize>::empty());
                        }
                        match parse_expr_list(cst, itn, ast, &list, 0, acc, f2) {
                            Ok(args) => {
                                let en = if kind == CstKind::CallExpression {
                                    ExprNode::Call { what: widx, args }
                                } else if kind == CstKind::CurryCallExpression {
                                    ExprNode::CurryCall { what: widx, args }
                                } else {
                                    ExprNode::Instantiation { what: widx, args }
                                };
                                Ok(ast.push_expr(en))
                            },
                            Err(e) => Err(e),
                        }
                    },
                    Err(e) => Err(e),
                }
            },
            None => Err(LowerFault::MissingChild(CstLabel::What)),
        }
    } else if kind == CstKind::BinariesExpression {
        let acc: Vec<RElem> = Vec::new();
        proof {
            assert(acc@ =~= Seq::<RElem>::empty());
        }
        match collect_binaries(cst, itn, ast, node, 0, acc, f2) {
            Ok(elems) => reduce_all(ast, elems),
            Err(e) => Err(e),
        }
    } else if kind == CstKind::FunctionExpression {
        match child_by(&cst.nodes[node].children, CstLabel::Body) {
            Some(b) => {
                let alist = children_by(&cst.nodes[node].children, CstLabel::Args);
                let acc: Vec<Identifier> = Vec::new();
                proof {
                    assert(acc@ =~= Seq::<Identifier>::empty());
                }
                match ident_list(cst, itn, &alist, 0, acc) {
                    Ok(params) => {
                        match parse_function_body(cst, itn, ast, b, f2) {
                            Ok(bidx) => Ok(
                                ast.push_expr(ExprNode::Function { args: params, body: bidx }),
                            ),
                            Err(e) => Err(e),
                        }
                    },
                    Err(e) => Err(e),
                }
            },
            None => Err(LowerFault::MissingChild(CstLabel::Body)),
        }
    } else if kind == CstKind::FieldAccessExpression {
        let w_opt = child_by(&cst.nodes[node].children, CstLabel::What);
        let f_opt = child_by(&cst.nodes[node].children, CstLabel::Field);
        match (w_opt, f_opt) {
            (Some(w), Some(fnode)) => {
                match parse_expression(cst, itn, ast, w, f2) {
                    Ok(widx) => {
                        match node_ident(cst, itn, fnode) {
                            Ok(fid) => Ok(
                                ast.push_expr(ExprNode::FieldAccess { what: widx, field: fid }),
                            ),
                            Err(e) => Err(e),
                        }
                    },
                    Err(e) => Err(e),
                }
            },
            (None, _) => Err(LowerFault::MissingChild(CstLabel::What)),
            (_, None) => Err(LowerFault::MissingChild(CstLabel::Field)),
        }
    } else if kind == CstKind::IfExpression {
        let c_opt = child_by(&cst.nodes[node].children, CstLabel::Condition);
        let t_opt = child_by(&cst.nodes[node].children, CstLabel::ThenBody);
        let e_opt = child_by(&cst.nodes[node].children, CstLabel::ElseBody);
        match (c_opt, t_opt, e_opt) {
            (Some(c), Some(tb), Some(eb)) => {
                match parse_expression(cst, itn, ast, c, f2) {
                    Ok(ce) => {
                        match parse_expression(cst, itn, ast, tb, f2) {
                            Ok(te) => {
                                match parse_expression(cst, itn, ast, eb, f2) {
                                    Ok(ee) => Ok(
                                        ast.push_expr(
                                            ExprNode::If {
                                                condition: ce,
                                                then_body: te,
                                                else_body: ee,
                                            },
                                        ),
                                    ),
                                    Err(e) => Err(e),
                                }
                            },
                            Err(e) => Err(e),
                        }
                    },
                    Err(e) => Err(e),
                }
            },
            (None, _, _) => Err(LowerFault::MissingChild(CstLabel::Condition)),
            (_, None, _) => Err(LowerFault::MissingChild(CstLabel::ThenBody)),
            (_, _, None) => Err(LowerFault::MissingChild(CstLabel::ElseBody)),
        }
    } else {
        Err(LowerFault::NotAnExpression(kind))
    }
}

/// Lowers the alternating children of a binaries node into reduction
/// elements.
#[verifier::rlimit(100)]
#[verifier::spinoff_prover]
fn collect_binaries(
    cst: &Cst,
    itn: &mut Interner,
    ast: &mut Ast,
    node: usize,
    i: usize,
    acc: Vec<RElem>,
    fuel: usize,
) -> (r: Result<Vec<RElem>, LowerFault>)
    requires
        node < cst@.len(),
    ensures
        ({
            let (i2, a2, r2) = sp_collect_binaries(
                cst@,
                old(itn)@,
                old(ast)@,
                cst@[node as int].children,
                i as int,
                acc@,
                fuel as nat,
            );
            final(itn)@ == i2 && final(ast)@ == a2 && (match (r, r2) {
                (Ok(v), Ok(sv)) => v@ == sv,
                (Err(e), Err(e2)) => e == e2,
                _ => false,
            })
        }),
    decreases fuel,
{
    if fuel == 0 {
        return Err(LowerFault::TooDeep);
    }
    proof {
        assert(cst@[node as int] == cst.nodes@[node as int]@);
    }
    if i >= cst.nodes[node].children.len() {
        return Ok(acc);
    }
    let f2 = fuel - 1;
    let child = cst.nodes[node].children[i].node;
    if i % 2 == 0 {
        match parse_expression(cst, itn, ast, child, f2) {
            Ok(eidx) => {
                let mut acc2 = acc;
                acc2.push(RElem::Ex(eidx));
                collect_binaries(cst, itn, ast, node, i + 1, acc2, f2)
            },
            Err(e) => Err(e),
        }
    } else {
        match node_ident(cst, itn, child) {
            Ok(opid) => {
                let prec = calculate_precedence(opid);
                let mut acc2 = acc;
                acc2.push(RElem::BinOp { ident: opid, precedence: prec });
                collect_binaries(cst, itn, ast, node, i + 1, acc2, f2)
            },
            Err(e) => Err(e),
        }
    }
}

/// Lowers a function body: a block statement as is, or a block expression
/// wrapped in a return.
#[verifier::rlimit(100)]
#[verifier::spinoff_prover]
pub fn parse_function_body(
    cst: &Cst,
    itn: &mut Interner,
    ast: &mut Ast,
    node: usize,
    fuel: usize,
) -> (r: Result<usize, LowerFault>)
    ensures
        ({
            let (i2, a2, r2) = sp_parse_function_body(
                cst@,
                old(itn)@,
                old(ast)@,
                node,
                fuel as nat,
            );
            final(itn)@ == i2 && final(ast)@ == a2 && r == r2
        }),
    decreases fuel,
{
    if fuel == 0 {
        return Err(LowerFault::TooDeep);
    }
    if node >= cst.nodes.len() {
        return Err(LowerFault::NodeOutOfRange);
    }
    proof {
        assert(cst@[node as int] == cst.nodes@[node as int]@);
    }
    let f2 = fuel - 1;
    let kind = cst.nodes[node].kind;
    if kind == CstKind::BlockStatement {
        parse_statement(cst, itn, ast, node, f2)
    } else if kind == CstKind::BlockExpression {
        match parse_expression(cst, itn, ast, node, f2) {
            Ok(eidx) => Ok(ast.push_stmt(crate::ast::StmtNode::Return { value: eidx })),
            Err(e) => Err(e),
        }
    } else {
        Err(LowerFault::NotAFunctionBody(kind))
    }
}

/// Lowers one field declaration.
#[verifier::rlimit(100)]
#[verifier::spinoff_prover]
pub fn parse_field(cst: &Cst, itn: &mut Interner, ast: &mut Ast, node: usize, fuel: usize) -> (r:
    Result<AnyField, LowerFault>)
    ensures
        ({
            let (i2, a2, r2) = sp_parse_field(cst@, old(itn)@, old(ast)@, node, fuel as nat);
            final(itn)@ == i2 && final(ast)@ == a2 && r == r2
        }),
    decreases fuel,
{
    proof {
        reveal_with_fuel(sp_parse_field, 1);
    }
    if fuel == 0 {
        return Err(LowerFault::TooDeep);
    }
    if node >= cst.nodes.len() {
        return Err(LowerFault::NodeOutOfRange);
    }
    proof {
        assert(cst@[node as int] == cst.nodes@[node as int]@);
    }
    let f2 = fuel - 1;
    match child_by(&cst.nodes[node].children, CstLabel::Ident) {
        Some(idn) => {
            let is_public = child_by(&cst.nodes[node].children, CstLabel::Pub).is_some();
            let is_static = child_by(&cst.nodes[node].children, CstLabel::Static).is_some();
            match node_ident(cst, itn, idn) {
                Ok(id) => {
                    let tio = child_by(&cst.nodes[node].children, CstLabel::TypeIdent);
                    let type_ident: Option<Identifier> = match tio {
                        Some(tn) => {
                            if tn >= cst.nodes.len() {
                                return Err(LowerFault::NodeOutOfRange);
                            }
                            proof {
                                assert(cst@[tn as int] == cst.nodes@[tn as int]@);
                            }
                            Some(intern_text(itn, &cst.nodes[tn].text))
                        },
                        None => None,
                    };
                    let f = crate::value::FruField { is_public, ident: id, type_ident };
                    match child_by(&cst.nodes[node].children, CstLabel::Value) {
                        Some(v) => {
                            if !is_static {
                                Err(LowerFault::InstanceFieldWithDefault)
                            } else {
                                match parse_expression(cst, itn, ast, v, f2) {
                                    Ok(eidx) => Ok(AnyField::Static(f, Some(eidx))),
                                    Err(e) => Err(e),
                                }
                            }
                        },
                        None => {
                            if is_static {
                                Ok(AnyField::Static(f, None))
                            } else {
                                Ok(AnyField::Normal(f))
                            }
                        },
                    }
                },
                Err(e) => Err(e),
            }
        },
        None => Err(LowerFault::MissingChild(CstLabel::Ident)),
    }
}

/// Lowers all field declarations of a type, split by the static marker.
#[verifier::rlimit(100)]
#[verifier::spinoff_prover]
fn parse_fields(
    cst: &Cst,
    itn: &mut Interner,
    ast: &mut Ast,
    list: &Vec<usize>,
    i: usize,
    acc_n: Vec<crate::value::FruField>,
    acc_s: Vec<crate::ast::StaticFieldDecl>,
    fuel: usize,
) -> (r: Result<(Vec<crate::value::FruField>, Vec<crate::ast::StaticFieldDecl>), LowerFault>)
    ensures
        ({
            let (i2, a2, r2) = sp_parse_fields(
                cst@,
                old(itn)@,
                old(ast)@,
                list@,
                i as int,
                acc_n@,
                acc_s@,
                fuel as nat,
            );
            final(itn)@ == i2 && final(ast)@ == a2 && (match (r, r2) {
                (Ok((n, s)), Ok((nv, sv))) => n@ == nv && s@ == sv,
                (Err(e), Err(e2)) => e == e2,
                _ => false,
            })
        }),
    decreases fuel,
{
    if fuel == 0 {
        return Err(LowerFault::TooDeep);
    }
    if i >= list.len() {
        return Ok((acc_n, acc_s));
    }
    let f2 = fuel - 1;
    match parse_field(cst, itn, ast, list[i], f2) {
        Ok(AnyField::Normal(f)) => {
            let mut acc_n2 = acc_n;
            acc_n2.push(f);
            parse_fields(cst, itn, ast, list, i + 1, acc_n2, acc_s, f2)
        },
        Ok(AnyField::Static(f, v)) => {
            let mut acc_s2 = acc_s;
            acc_s2.push(crate::ast::StaticFieldDecl { field: f, value: v });
            parse_fields(cst, itn, ast, list, i + 1, acc_n, acc_s2, f2)
        },
        Err(e) => Err(e),
    }
}

/// Lowers one method declaration.
#[verifier::rlimit(100)]
#[verifier::spinoff_prover]
pub fn parse_method(cst: &Cst, itn: &mut Interner, ast: &mut Ast, node: usize, fuel: usize) -> (r:
    Result<crate::ast::RawMethod, LowerFault>)
    ensures
        ({
            let (i2, a2, r2) = sp_parse_method(cst@, old(itn)@, old(ast)@, node, fuel as nat);
            final(itn)@ == i2 && final(ast)@ == a2 && (match (r, r2) {
                (Ok(m), Ok(mv)) => m@ == mv,
                (Err(e), Err(e2)) => e == e2,
                _ => false,
            })
        }),
    decreases fuel,
{
    proof {
        reveal_with_fuel(sp_parse_method, 1);
    }
    if fuel == 0 {
        return Err(LowerFault::TooDeep);
    }
    if node >= cst.nodes.len() {
        return Err(LowerFault::NodeOutOfRange);
    }
    proof {
        assert(cst@[node as int] == cst.nodes@[node as int]@);
    }
    let f2 = fuel - 1;
    let idn_opt = child_by(&cst.nodes[node].children, CstLabel::Ident);
    let b_opt = child_by(&cst.nodes[node].children, CstLabel::Body);
    match (idn_opt, b_opt) {
        (Some(idn), Some(b)) => {
            match node_ident(cst, itn, idn) {
                Ok(id) => {
                    let alist = children_by(&cst.nodes[node].children, CstLabel::Args);
                    let acc: Vec<Identifier> = Vec::new();
                    proof {
                        assert(acc@ =~= Seq::<Identifier>::empty());
                    }
                    match ident_list(cst, itn, &alist, 0, acc) {
                        Ok(params) => {
                            match parse_function_body(cst, itn, ast, b, f2) {
                                Ok(bidx) => Ok(
                                    crate::ast::RawMethod { ident: id, args: params, body: bidx },
                                ),
                                Err(e) => Err(e),
                            }
                        },
                        Err(e) => Err(e),
                    }
                },
                Err(e) => Err(e),
            }
        },
        (None, _) => Err(LowerFault::MissingChild(CstLabel::Ident)),
        (_, None) => Err(LowerFault::MissingChild(CstLabel::Body)),
    }
}

/// Lowers a method list.
#[verifier::rlimit(100)]
#[verifier::spinoff_prover]
fn parse_methods(
    cst: &Cst,
    itn: &mut Interner,
    ast: &mut Ast,
    list: &Vec<usize>,
    i: usize,
    acc: Vec<crate::ast::RawMethod>,
    fuel: usize,
) -> (r: Result<Vec<crate::ast::RawMethod>, LowerFault>)
    ensures
        ({
            let (i2, a2, r2) = sp_parse_methods(
                cst@,
                old(itn)@,
                old(ast)@,
                list@,
                i as int,
                acc@.map_values(|m: crate::ast::RawMethod| m@),
                fuel as nat,
            );
            final(itn)@ == i2 && final(ast)@ == a2 && (match (r, r2) {
                (Ok(v), Ok(sv)) => v@.map_values(|m: crate::ast::RawMethod| m@) == sv,
                (Err(e), Err(e2)) => e == e2,
                _ => false,
            })
        }),
    decreases fuel,
{
    if fuel == 0 {
        return Err(LowerFault::TooDeep);
    }
    if i >= list.len() {
        return Ok(acc);
    }
    let f2 = fuel - 1;
    match parse_method(cst, itn, ast, list[i], f2) {
        Ok(m) => {
            let ghost accv = acc@.map_values(|m: crate::ast::RawMethod| m@);
            let ghost mv = m@;
            let mut acc2 = acc;
            acc2.push(m);
            proof {
                assert(acc2@.map_values(|m: crate::ast::RawMethod| m@) =~= accv.push(mv));
            }
            parse_methods(cst, itn, ast, list, i + 1, acc2, f2)
        },
        Err(e) => Err(e),
    }
}

/// Lowers one watch declaration.
#[verifier::rlimit(100)]
#[verifier::spinoff_prover]
pub fn parse_watch(cst: &Cst, itn: &mut Interner, ast: &mut Ast, node: usize, fuel: usize) -> (r:
    Result<crate::ast::RawWatch, LowerFault>)
    ensures
        ({
            let (i2, a2, r2) = sp_parse_watch(cst@, old(itn)@, old(ast)@, node, fuel as nat);
            final(itn)@ == i2 && final(ast)@ == a2 && (match (r, r2) {
                (Ok(w), Ok(wv)) => w@ == wv,
                (Err(e), Err(e2)) => e == e2,
                _ => false,
            })
        }),
    decreases fuel,
{
    proof {
        reveal_with_fuel(sp_parse_watch, 1);
    }
    if fuel == 0 {
        return Err(LowerFault::TooDeep);
    }
    if node >= cst.nodes.len() {
        return Err(LowerFault::NodeOutOfRange);
    }
    proof {
        assert(cst@[node as int] == cst.nodes@[node as int]@);
    }
    let f2 = fuel - 1;
    match child_by(&cst.nodes[node].children, CstLabel::Body) {
        Some(b) => {
            let alist = children_by(&cst.nodes[node].children, CstLabel::Args);
            let acc: Vec<Identifier> = Vec::new();
            proof {
                assert(acc@ =~= Seq::<Identifier>::empty());
            }
            match ident_list(cst, itn, &alist, 0, acc) {
                Ok(params) => {
                    match parse_statement(cst, itn, ast, b, f2) {
                        Ok(bidx) => Ok(crate::ast::RawWatch { args: params, body: bidx }),
                        Err(e) => Err(e),
                    }
                },
                Err(e) => Err(e),
            }
        },
        None => Err(LowerFault::MissingChild(CstLabel::Body)),
    }
}

/// Lowers a watch list.
#[verifier::rlimit(100)]
#[verifier::spinoff_prover]
fn parse_watches(
    cst: &Cst,
    itn: &mut Interner,
    ast: &mut Ast,
    list: &Vec<usize>,
    i: usize,
    acc: Vec<crate::ast::RawWatch>,
    fuel: usize,
) -> (r: Result<Vec<crate::ast::RawWatch>, LowerFault>)
    ensures
        ({
            let (i2, a2, r2) = sp_parse_watches(
                cst@,
                old(itn)@,
                old(ast)@,
                list@,
                i as int,
                acc@.map_values(|w: crate::ast::RawWatch| w@),
                fuel as nat,
            );
            final(itn)@ == i2 && final(ast)@ == a2 && (match (r, r2) {
                (Ok(v), Ok(sv)) => v@.map_values(|w: crate::ast::RawWatch| w@) == sv,
                (Err(e), Err(e2)) => e == e2,
                _ => false,
            })
        }),
    decreases fuel,
{
    if fuel == 0 {
        return Err(LowerFault::TooDeep);
    }
    if i >= list.len() {
        return Ok(acc);
    }
    let f2 = fuel - 1;
    match parse_watch(cst, itn, ast, list[i], f2) {
        Ok(w) => {
            let ghost accv = acc@.map_values(|w: crate::ast::RawWatch| w@);
            let ghost wv = w@;
            let mut acc2 = acc;
            acc2.push(w);
            proof {
                assert(acc2@.map_values(|w: crate::ast::RawWatch| w@) =~= accv.push(wv));
            }
            parse_watches(cst, itn, ast, list, i + 1, acc2, f2)
        },
        Err(e) => Err(e),
    }
}

/// Lowers the sections of a type declaration.
#[verifier::rlimit(100)]
#[verifier::spinoff_prover]
pub fn parse_sections(
    cst: &Cst,
    itn: &mut Interner,
    ast: &mut Ast,
    list: &Vec<usize>,
    i: usize,
    acc_m: Vec<crate::ast::RawMethod>,
    acc_sm: Vec<crate::ast::RawMethod>,
    acc_w: Vec<crate::ast::RawWatch>,
    fuel: usize,
) -> (r: Result<
    (Vec<crate::ast::RawMethod>, Vec<crate::ast::RawMethod>, Vec<crate::ast::RawWatch>),
    LowerFault,
>)
    ensures
        ({
            let (i2, a2, r2) = sp_parse_sections(
                cst@,
                old(itn)@,
                old(ast)@,
                list@,
                i as int,
                acc_m@.map_values(|m: crate::ast::RawMethod| m@),
                acc_sm@.map_values(|m: crate::ast::RawMethod| m@),
                acc_w@.map_values(|w: crate::ast::RawWatch| w@),
                fuel as nat,
            );
            final(itn)@ == i2 && final(ast)@ == a2 && (match (r, r2) {
                (Ok((m, sm, w)), Ok((mv, smv, wv))) => m@.map_values(
                    |x: crate::ast::RawMethod| x@,
                ) == mv && sm@.map_values(|x: crate::ast::RawMethod| x@) == smv && w@.map_values(
                    |x: crate::ast::RawWatch| x@,
                ) == wv,
                (Err(e), Err(e2)) => e == e2,
                _ => false,
            })
        }),
    decreases fuel,
{
    if fuel == 0 {
        return Err(LowerFault::TooDeep);
    }
    if i >= list.len() {
        return Ok((acc_m, acc_sm, acc_w));
    }
    if list[i] >= cst.nodes.len() {
        return Err(LowerFault::NodeOutOfRange);
    }
    proof {
        assert(cst@[list@[i as int] as int] == cst.nodes@[list@[i as int] as int]@);
    }
    let f2 = fuel - 1;
    let snode = list[i];
    let kind = cst.nodes[snode].kind;
    if kind == CstKind::TypeImplSection {
        let mlist = children_by(&cst.nodes[snode].children, CstLabel::Methods);
        let acc: Vec<crate::ast::RawMethod> = Vec::new();
        proof {
            assert(acc@.map_values(|m: crate::ast::RawMethod| m@) =~= Seq::<
                crate::ast::RawMethodV,
            >::empty());
        }
        match parse_methods(cst, itn, ast, &mlist, 0, acc, f2) {
            Ok(ms) => {
                let ghost accv = acc_m@.map_values(|m: crate::ast::RawMethod| m@);
                let ghost msv = ms@.map_values(|m: crate::ast::RawMethod| m@);
                let mut acc_m2 = acc_m;
                let mut ms2 = ms;
                acc_m2.append(&mut ms2);
                proof {
                    assert(acc_m2@.map_values(|m: crate::ast::RawMethod| m@) =~= accv + msv);
                }
                parse_sections(cst, itn, ast, list, i + 1, acc_m2, acc_sm, acc_w, f2)
            },
            Err(e) => Err(e),
        }
    } else if kind == CstKind::TypeStaticSection {
        let mlist = children_by(&cst.nodes[snode].children, CstLabel::Methods);
        let acc: Vec<crate::ast::RawMethod> = Vec::new();
        proof {
            assert(acc@.map_values(|m: crate::ast::RawMethod| m@) =~= Seq::<
                crate::ast::RawMethodV,
            >::empty());
        }
        match parse_methods(cst, itn, ast, &mlist, 0, acc, f2) {
            Ok(ms) => {
                let ghost accv = acc_sm@.map_values(|m: crate::ast::RawMethod| m@);
                let ghost msv = ms@.map_values(|m: crate::ast::RawMethod| m@);
                let mut acc_sm2 = acc_sm;
                let mut ms2 = ms;
                acc_sm2.append(&mut ms2);
                proof {
                    assert(acc_sm2@.map_values(|m: crate::ast::RawMethod| m@) =~= accv + msv);
                }
                parse_sections(cst, itn, ast, list, i + 1, acc_m, acc_sm2, acc_w, f2)
            },
            Err(e) => Err(e),
        }
    } else if kind == CstKind::TypeConstraintsSection {
        let wlist = children_by(&cst.nodes[snode].children, CstLabel::Watches);
        let acc: Vec<crate::ast::RawWatch> = Vec::new();
        proof {
            assert(acc@.map_values(|w: crate::ast::RawWatch| w@) =~= Seq::<
                crate::ast::RawWatchV,
            >::empty());
        }
        match parse_watches(cst, itn, ast, &wlist, 0, acc, f2) {
            Ok(ws) => {
                let ghost accv = acc_w@.map_values(|w: crate::ast::RawWatch| w@);
                let ghost wsv = ws@.map_values(|w: crate::ast::RawWatch| w@);
                let mut acc_w2 = acc_w;
                let mut ws2 = ws;
                acc_w2.append(&mut ws2);
                proof {
                    assert(acc_w2@.map_values(|w: crate::ast::RawWatch| w@) =~= accv + wsv);
                }
                parse_sections(cst, itn, ast, list, i + 1, acc_m, acc_sm, acc_w2, f2)
            },
            Err(e) => Err(e),
        }
    } else {
        Err(LowerFault::NotASection(kind))
    }
}

} // verus!
