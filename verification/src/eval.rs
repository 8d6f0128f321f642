//! The evaluator: a strict, eager, single-threaded tree walk.
//!
//! Statement execution yields a control signal (normal, return, break,
//! continue); expression evaluation yields a value or propagates a signal
//! raised inside a block expression. The executable evaluator mirrors, step
//! for step, a spec-level interpreter (`sx_stmt`, `sx_expr`, ...) over the
//! engine's state view, and every public entry point's contract says its
//! result and final state are exactly the spec interpreter's. Every
//! recursive step spends one unit of fuel, so evaluation of a program that
//! would run forever ends in `OutOfFuel` instead.

use vstd::prelude::*;

use crate::ast::Ast;
use crate::ast::AstV;
use crate::ast::ExprNodeV;
use crate::ast::ExprNode;
use crate::ast::StmtNodeV;
use crate::ast::StmtNode;
use crate::ast::RawMethodV;
use crate::engine::copy_vec;
use crate::engine::find_in_vars;
use crate::engine::sp_get_var;
use crate::engine::sp_let_set_var;
use crate::engine::sp_let_var;
use crate::engine::sp_push_frame;
use crate::engine::sp_set_var;
use crate::engine::AnyOperator;
use crate::engine::BuiltinOp;
use crate::engine::Engine;
use crate::engine::Frame;
use crate::engine::FruFunction;
use crate::engine::FruFunctionV;
use crate::engine::ScopeBinding;
use crate::engine::StateV;
use crate::error::FruError;
use crate::identifier::identifier_of;
use crate::identifier::id_nah;
use crate::identifier::id_number;
use crate::identifier::id_bool;
use crate::identifier::id_string;
use crate::identifier::id_function;
use crate::identifier::id_struct_type;
use crate::identifier::id_native_object;
use crate::identifier::lemma_identifier_of;
use crate::identifier::Identifier;
use crate::identifier::OperatorIdentifier;
use crate::value::FruValue;

verus! {

/// The non-local control-flow result of executing a statement.
#[derive(Debug, Clone, Copy, PartialEq, Eq)]
pub enum Signal {
    Normal,
    Return(FruValue),
    Break,
    Continue,
}

/// What evaluating an expression yields: a value, or a signal raised by a
/// nested block expression's statements.
#[derive(Debug, Clone, Copy, PartialEq, Eq)]
pub enum EvalOut {
    Val(FruValue),
    Sig(Signal),
}

/// What evaluating an argument list yields.
pub enum ArgsOut {
    Vals(Vec<FruValue>),
    Sig(Signal),
}

pub enum ArgsOutV {
    Vals(Seq<FruValue>),
    Sig(Signal),
}

impl View for ArgsOut {
    type V = ArgsOutV;

    open spec fn view(&self) -> ArgsOutV {
        match self {
            ArgsOut::Vals(v) => ArgsOutV::Vals(v@),
            ArgsOut::Sig(s) => ArgsOutV::Sig(*s),
        }
    }
}

/// The type symbol and descriptor index of a value's dynamic type. The
/// built-in descriptors sit at the fixed arena indices a fresh engine
/// creates them at.
pub open spec fn sp_type_info_of(st: StateV, v: FruValue) -> Result<(Identifier, usize), FruError> {
    match v {
        FruValue::Nah => Ok((identifier_of(id_nah()), 0)),
        FruValue::Number(_) => Ok((identifier_of(id_number()), 1)),
        FruValue::Bool(_) => Ok((identifier_of(id_bool()), 2)),
        FruValue::Text(_) => Ok((identifier_of(id_string()), 3)),
        FruValue::Function(_) => Ok((identifier_of(id_function()), 4)),
        FruValue::Type(_) => Ok((identifier_of(id_struct_type()), 5)),
        FruValue::Object(o) => {
            if o.idx < st.objects.len() && st.objects[o.idx as int].type_idx < st.types.len() {
                let tidx = st.objects[o.idx as int].type_idx;
                Ok((st.types[tidx as int].ident, tidx))
            } else {
                Err(FruError::InternalFault)
            }
        },
        FruValue::Native(_) => Ok((identifier_of(id_native_object()), 6)),
    }
}

/// Truncated (round toward zero) division, as 64-bit machines do it.
pub open spec fn sp_tdiv(x: int, y: int) -> int {
    let q = abs_int(x) / abs_int(y);
    if (x < 0) == (y < 0) {
        q
    } else {
        -q
    }
}

/// Remainder with the dividend's sign, matching truncated division.
pub open spec fn sp_trem(x: int, y: int) -> int {
    let r = abs_int(x) % abs_int(y);
    if x < 0 {
        -r
    } else {
        r
    }
}

pub open spec fn abs_int(x: int) -> int {
    if x < 0 {
        -x
    } else {
        x
    }
}

/// What each built-in operator implementation returns: exact arithmetic
/// when the result fits in 64 bits, the matching error when it does not or
/// when the operand shapes are wrong.
pub open spec fn sp_apply_builtin(op: BuiltinOp, a: FruValue, b: FruValue) -> Result<
    FruValue,
    FruError,
> {
    match (op, a, b) {
        (BuiltinOp::NumPlus, FruValue::Number(x), FruValue::Number(y)) => {
            if i64::MIN <= x + y <= i64::MAX {
                Ok(FruValue::Number((x + y) as i64))
            } else {
                Err(FruError::NumericOverflow)
            }
        },
        (BuiltinOp::NumMinus, FruValue::Number(x), FruValue::Number(y)) => {
            if i64::MIN <= x - y <= i64::MAX {
                Ok(FruValue::Number((x - y) as i64))
            } else {
                Err(FruError::NumericOverflow)
            }
        },
        (BuiltinOp::NumMultiply, FruValue::Number(x), FruValue::Number(y)) => {
            if i64::MIN <= x * y <= i64::MAX {
                Ok(FruValue::Number((x * y) as i64))
            } else {
                Err(FruError::NumericOverflow)
            }
        },
        (BuiltinOp::NumDivide, FruValue::Number(x), FruValue::Number(y)) => {
            if y == 0 {
                Err(FruError::DivisionByZero)
            } else if i64::MIN <= sp_tdiv(x as int, y as int) <= i64::MAX {
                Ok(FruValue::Number(sp_tdiv(x as int, y as int) as i64))
            } else {
                Err(FruError::NumericOverflow)
            }
        },
        (BuiltinOp::NumMod, FruValue::Number(x), FruValue::Number(y)) => {
            if y == 0 {
                Err(FruError::DivisionByZero)
            } else {
                Ok(FruValue::Number(sp_trem(x as int, y as int) as i64))
            }
        },
        (BuiltinOp::NumLess, FruValue::Number(x), FruValue::Number(y)) => Ok(
            FruValue::Bool(x < y),
        ),
        (BuiltinOp::NumLessEq, FruValue::Number(x), FruValue::Number(y)) => Ok(
            FruValue::Bool(x <= y),
        ),
        (BuiltinOp::NumGreater, FruValue::Number(x), FruValue::Number(y)) => Ok(
            FruValue::Bool(x > y),
        ),
        (BuiltinOp::NumGreaterEq, FruValue::Number(x), FruValue::Number(y)) => Ok(
            FruValue::Bool(x >= y),
        ),
        (BuiltinOp::NumEq, FruValue::Number(x), FruValue::Number(y)) => Ok(
            FruValue::Bool(x == y),
        ),
        (BuiltinOp::NumNotEq, FruValue::Number(x), FruValue::Number(y)) => Ok(
            FruValue::Bool(x != y),
        ),
        (BuiltinOp::BoolAnd, FruValue::Bool(x), FruValue::Bool(y)) => Ok(FruValue::Bool(x && y)),
        (BuiltinOp::BoolOr, FruValue::Bool(x), FruValue::Bool(y)) => Ok(FruValue::Bool(x || y)),
        _ => Err(FruError::NotCallable),
    }
}

/// The spec interpreter: one statement.
pub open spec fn sx_stmt(ast: AstV, st: StateV, scope: usize, sidx: usize, fuel: nat) -> (
    StateV,
    Result<Signal, FruError>,
)
    decreases fuel,
{
    if fuel == 0 {
        (st, Err(FruError::OutOfFuel))
    } else if sidx >= ast.stmts.len() {
        (st, Err(FruError::InternalFault))
    } else {
        let f2 = (fuel - 1) as nat;
        match ast.stmts[sidx as int] {
            StmtNodeV::Block { body } => {
                let (st1, ns) = sp_push_frame(st, Some(scope), ScopeBinding::Plain);
                sx_stmt_list(ast, st1, ns, body, 0, f2)
            },
            StmtNodeV::Expression { value } => {
                let (st1, r) = sx_expr(ast, st, scope, value, f2);
                match r {
                    Ok(EvalOut::Val(_)) => (st1, Ok(Signal::Normal)),
                    Ok(EvalOut::Sig(sig)) => (st1, Ok(sig)),
                    Err(e) => (st1, Err(e)),
                }
            },
            StmtNodeV::Let { ident, value } => {
                let (st1, r) = sx_expr(ast, st, scope, value, f2);
                match r {
                    Ok(EvalOut::Val(v)) => {
                        let (st2, r2) = sp_let_var(st1, scope, ident, v);
                        match r2 {
                            Ok(()) => (st2, Ok(Signal::Normal)),
                            Err(e) => (st2, Err(e)),
                        }
                    },
                    Ok(EvalOut::Sig(sig)) => (st1, Ok(sig)),
                    Err(e) => (st1, Err(e)),
                }
            },
            StmtNodeV::SetVar { ident, value } => {
                let (st1, r) = sx_expr(ast, st, scope, value, f2);
                match r {
                    Ok(EvalOut::Val(v)) => {
                        let (st2, r2) = sp_set_var(st1, scope, ident, v);
                        match r2 {
                            Ok(()) => (st2, Ok(Signal::Normal)),
                            Err(e) => (st2, Err(e)),
                        }
                    },
                    Ok(EvalOut::Sig(sig)) => (st1, Ok(sig)),
                    Err(e) => (st1, Err(e)),
                }
            },
            StmtNodeV::If { condition, then_body, else_body } => {
                let (st1, r) = sx_expr(ast, st, scope, condition, f2);
                match r {
                    Ok(EvalOut::Val(FruValue::Bool(true))) => sx_stmt(ast, st1, scope, then_body, f2),
                    Ok(EvalOut::Val(FruValue::Bool(false))) => {
                        match else_body {
                            Some(eb) => sx_stmt(ast, st1, scope, eb, f2),
                            None => (st1, Ok(Signal::Normal)),
                        }
                    },
                    Ok(EvalOut::Val(_)) => (st1, Err(FruError::NotABool)),
                    Ok(EvalOut::Sig(sig)) => (st1, Ok(sig)),
                    Err(e) => (st1, Err(e)),
                }
            },
            StmtNodeV::While { cond, body } => sx_while(ast, st, scope, cond, body, f2),
            StmtNodeV::Return { value } => {
                let (st1, r) = sx_expr(ast, st, scope, value, f2);
                match r {
                    Ok(EvalOut::Val(v)) => (st1, Ok(Signal::Return(v))),
                    Ok(EvalOut::Sig(sig)) => (st1, Ok(sig)),
                    Err(e) => (st1, Err(e)),
                }
            },
            StmtNodeV::Break => (st, Ok(Signal::Break)),
            StmtNodeV::Continue => (st, Ok(Signal::Continue)),
            StmtNodeV::SetField { target, field, value } => {
                let (st1, r) = sx_expr(ast, st, scope, target, f2);
                match r {
                    Ok(EvalOut::Val(tv)) => {
                        let (st2, r2) = sx_expr(ast, st1, scope, value, f2);
                        match r2 {
                            Ok(EvalOut::Val(v)) => sx_value_set_prop(ast, st2, tv, field, v, f2),
                            Ok(EvalOut::Sig(sig)) => (st2, Ok(sig)),
                            Err(e) => (st2, Err(e)),
                        }
                    },
                    Ok(EvalOut::Sig(sig)) => (st1, Ok(sig)),
                    Err(e) => (st1, Err(e)),
                }
            },
            StmtNodeV::Operator {
                ident,
                commutative,
                left_ident,
                left_type_ident,
                right_ident,
                right_type_ident,
                body,
            } => {
                match sp_get_var(st, scope, left_type_ident) {
                    Ok(FruValue::Type(_)) => {
                        let t = sp_get_var(st, scope, left_type_ident)->Ok_0->Type_0;
                        if t.idx >= st.types.len() {
                            (st, Err(FruError::InternalFault))
                        } else {
                            let key = OperatorIdentifier {
                                op: ident,
                                left: left_type_ident,
                                right: right_type_ident,
                            };
                            let op = AnyOperator::User {
                                left_ident,
                                right_ident,
                                body,
                                scope,
                            };
                            let (st1, r) = crate::fru_type::sp_set_operator(
                                st,
                                t.idx,
                                key,
                                commutative,
                                op,
                            );
                            match r {
                                Ok(()) => (st1, Ok(Signal::Normal)),
                                Err(e) => (st1, Err(e)),
                            }
                        }
                    },
                    Ok(_) => (st, Err(FruError::NotAType)),
                    Err(e) => (st, Err(e)),
                }
            },
            StmtNodeV::Type {
                type_type,
                ident,
                fields,
                static_fields,
                watches,
                methods,
                static_methods,
            } => sx_type_stmt(
                ast,
                st,
                scope,
                type_type,
                ident,
                fields,
                static_fields,
                watches,
                methods,
                static_methods,
                f2,
            ),
        }
    }
}

/// The spec interpreter: a statement list, in order, stopping at the first
/// non-normal signal or error.
pub open spec fn sx_stmt_list(
    ast: AstV,
    st: StateV,
    scope: usize,
    body: Seq<usize>,
    i: int,
    fuel: nat,
) -> (StateV, Result<Signal, FruError>)
    decreases fuel,
{
    if fuel == 0 {
        (st, Err(FruError::OutOfFuel))
    } else if i < 0 || i >= body.len() {
        (st, Ok(Signal::Normal))
    } else {
        let f2 = (fuel - 1) as nat;
        let (st1, r) = sx_stmt(ast, st, scope, body[i], f2);
        match r {
            Ok(Signal::Normal) => sx_stmt_list(ast, st1, scope, body, i + 1, f2),
            Ok(sig) => (st1, Ok(sig)),
            Err(e) => (st1, Err(e)),
        }
    }
}

/// The spec interpreter: a while loop. A false condition ends it normally;
/// break ends it normally at once; continue re-checks the condition; return
/// and errors pass straight through.
pub open spec fn sx_while(
    ast: AstV,
    st: StateV,
    scope: usize,
    cond: usize,
    body: usize,
    fuel: nat,
) -> (StateV, Result<Signal, FruError>)
    decreases fuel,
{
    if fuel == 0 {
        (st, Err(FruError::OutOfFuel))
    } else {
        let f2 = (fuel - 1) as nat;
        let (st1, r) = sx_expr(ast, st, scope, cond, f2);
        match r {
            Ok(EvalOut::Val(FruValue::Bool(true))) => {
                let (st2, r2) = sx_stmt(ast, st1, scope, body, f2);
                match r2 {
                    Ok(Signal::Normal) => sx_while(ast, st2, scope, cond, body, f2),
                    Ok(Signal::Continue) => sx_while(ast, st2, scope, cond, body, f2),
                    Ok(Signal::Break) => (st2, Ok(Signal::Normal)),
                    Ok(Signal::Return(v)) => (st2, Ok(Signal::Return(v))),
                    Err(e) => (st2, Err(e)),
                }
            },
            Ok(EvalOut::Val(FruValue::Bool(false))) => (st1, Ok(Signal::Normal)),
            Ok(EvalOut::Val(_)) => (st1, Err(FruError::NotABool)),
            Ok(EvalOut::Sig(sig)) => (st1, Ok(sig)),
            Err(e) => (st1, Err(e)),
        }
    }
}

/// The spec interpreter: one expression.
pub open spec fn sx_expr(ast: AstV, st: StateV, scope: usize, eidx: usize, fuel: nat) -> (
    StateV,
    Result<EvalOut, FruError>,
)
    decreases fuel,
{
    if fuel == 0 {
        (st, Err(FruError::OutOfFuel))
    } else if eidx >= ast.exprs.len() {
        (st, Err(FruError::InternalFault))
    } else {
        let f2 = (fuel - 1) as nat;
        match ast.exprs[eidx as int] {
            ExprNodeV::Literal { value } => (st, Ok(EvalOut::Val(value))),
            ExprNodeV::Variable { ident } => {
                match sp_get_var(st, scope, ident) {
                    Ok(v) => (st, Ok(EvalOut::Val(v))),
                    Err(e) => (st, Err(e)),
                }
            },
            ExprNodeV::Block { body, expr } => {
                let (st1, ns) = sp_push_frame(st, Some(scope), ScopeBinding::Plain);
                let (st2, r) = sx_stmt_list(ast, st1, ns, body, 0, f2);
                match r {
                    Ok(Signal::Normal) => sx_expr(ast, st2, ns, expr, f2),
                    Ok(sig) => (st2, Ok(EvalOut::Sig(sig))),
                    Err(e) => (st2, Err(e)),
                }
            },
            ExprNodeV::Binary { operator, left, right } => {
                let (st1, r1) = sx_expr(ast, st, scope, left, f2);
                match r1 {
                    Ok(EvalOut::Val(a)) => {
                        let (st2, r2) = sx_expr(ast, st1, scope, right, f2);
                        match r2 {
                            Ok(EvalOut::Val(b)) => sx_binary(ast, st2, operator, a, b, f2),
                            Ok(EvalOut::Sig(sig)) => (st2, Ok(EvalOut::Sig(sig))),
                            Err(e) => (st2, Err(e)),
                        }
                    },
                    Ok(EvalOut::Sig(sig)) => (st1, Ok(EvalOut::Sig(sig))),
                    Err(e) => (st1, Err(e)),
                }
            },
            ExprNodeV::If { condition, then_body, else_body } => {
                let (st1, r) = sx_expr(ast, st, scope, condition, f2);
                match r {
                    Ok(EvalOut::Val(FruValue::Bool(true))) => sx_expr(ast, st1, scope, then_body, f2),
                    Ok(EvalOut::Val(FruValue::Bool(false))) => sx_expr(ast, st1, scope, else_body, f2),
                    Ok(EvalOut::Val(_)) => (st1, Err(FruError::NotABool)),
                    Ok(EvalOut::Sig(sig)) => (st1, Ok(EvalOut::Sig(sig))),
                    Err(e) => (st1, Err(e)),
                }
            },
            ExprNodeV::Function { args, body } => {
                let (st1, fidx) = sp_alloc_func(
                    st,
                    FruFunctionV::Plain { parameters: args, body, scope },
                );
                (st1, Ok(EvalOut::Val(FruValue::Function(fidx))))
            },
            ExprNodeV::Call { what, args } => {
                let (st1, r) = sx_expr(ast, st, scope, what, f2);
                match r {
                    Ok(EvalOut::Val(fv)) => {
                        let (st2, r2) = sx_expr_list(ast, st1, scope, args, 0, Seq::empty(), f2);
                        match r2 {
                            Ok(ArgsOutV::Vals(vals)) => sx_call_function(ast, st2, fv, vals, f2),
                            Ok(ArgsOutV::Sig(sig)) => (st2, Ok(EvalOut::Sig(sig))),
                            Err(e) => (st2, Err(e)),
                        }
                    },
                    Ok(EvalOut::Sig(sig)) => (st1, Ok(EvalOut::Sig(sig))),
                    Err(e) => (st1, Err(e)),
                }
            },
            ExprNodeV::CurryCall { what, args } => {
                let (st1, r) = sx_expr(ast, st, scope, what, f2);
                match r {
                    Ok(EvalOut::Val(FruValue::Function(fidx))) => {
                        let (st2, r2) = sx_expr_list(ast, st1, scope, args, 0, Seq::empty(), f2);
                        match r2 {
                            Ok(ArgsOutV::Vals(vals)) => {
                                let (st3, nf) = sp_alloc_func(
                                    st2,
                                    FruFunctionV::Curried { base: fidx, bound: vals },
                                );
                                (st3, Ok(EvalOut::Val(FruValue::Function(nf))))
                            },
                            Ok(ArgsOutV::Sig(sig)) => (st2, Ok(EvalOut::Sig(sig))),
                            Err(e) => (st2, Err(e)),
                        }
                    },
                    Ok(EvalOut::Val(_)) => (st1, Err(FruError::NotCallable)),
                    Ok(EvalOut::Sig(sig)) => (st1, Ok(EvalOut::Sig(sig))),
                    Err(e) => (st1, Err(e)),
                }
            },
            ExprNodeV::Instantiation { what, args } => {
                let (st1, r) = sx_expr(ast, st, scope, what, f2);
                match r {
                    Ok(EvalOut::Val(FruValue::Type(t))) => {
                        let (st2, r2) = sx_expr_list(ast, st1, scope, args, 0, Seq::empty(), f2);
                        match r2 {
                            Ok(ArgsOutV::Vals(vals)) => {
                                if t.idx >= st2.types.len() {
                                    (st2, Err(FruError::InternalFault))
                                } else {
                                    let pairs = vals.map_values(
                                        |v: FruValue| (None::<Identifier>, v),
                                    );
                                    match crate::fru_type::sp_instantiate(
                                        st2.types[t.idx as int].fields,
                                        pairs,
                                    ) {
                                        Ok(fvals) => {
                                            let (st3, oidx) = crate::fru_type::sp_alloc_object(
                                                st2,
                                                t.idx,
                                                fvals,
                                            );
                                            (
                                                st3,
                                                Ok(
                                                    EvalOut::Val(
                                                        FruValue::Object(
                                                            (crate::value::FruObject { idx: oidx }),
                                                        ),
                                                    ),
                                                ),
                                            )
                                        },
                                        Err(e) => (st2, Err(e)),
                                    }
                                }
                            },
                            Ok(ArgsOutV::Sig(sig)) => (st2, Ok(EvalOut::Sig(sig))),
                            Err(e) => (st2, Err(e)),
                        }
                    },
                    Ok(EvalOut::Val(_)) => (st1, Err(FruError::NotAType)),
                    Ok(EvalOut::Sig(sig)) => (st1, Ok(EvalOut::Sig(sig))),
                    Err(e) => (st1, Err(e)),
                }
            },
            ExprNodeV::FieldAccess { what, field } => {
                let (st1, r) = sx_expr(ast, st, scope, what, f2);
                match r {
                    Ok(EvalOut::Val(v)) => sx_value_get_prop(ast, st1, v, field, f2),
                    Ok(EvalOut::Sig(sig)) => (st1, Ok(EvalOut::Sig(sig))),
                    Err(e) => (st1, Err(e)),
                }
            },
        }
    }
}

/// The spec interpreter: an argument list, left to right, stopping at the
/// first signal or error.
pub open spec fn sx_expr_list(
    ast: AstV,
    st: StateV,
    scope: usize,
    args: Seq<usize>,
    i: int,
    acc: Seq<FruValue>,
    fuel: nat,
) -> (StateV, Result<ArgsOutV, FruError>)
    decreases fuel,
{
    if fuel == 0 {
        (st, Err(FruError::OutOfFuel))
    } else if i < 0 || i >= args.len() {
        (st, Ok(ArgsOutV::Vals(acc)))
    } else {
        let f2 = (fuel - 1) as nat;
        let (st1, r) = sx_expr(ast, st, scope, args[i], f2);
        match r {
            Ok(EvalOut::Val(v)) => sx_expr_list(ast, st1, scope, args, i + 1, acc.push(v), f2),
            Ok(EvalOut::Sig(sig)) => (st1, Ok(ArgsOutV::Sig(sig))),
            Err(e) => (st1, Err(e)),
        }
    }
}

/// The state after allocating a function entry, with its handle.
pub open spec fn sp_alloc_func(st: StateV, f: FruFunctionV) -> (StateV, usize) {
    (StateV { funcs: st.funcs.push(f), ..st }, st.funcs.len() as usize)
}

/// The spec interpreter: calling a value. A curried function prepends its
/// bound arguments and calls its base; a plain function binds parameters
/// positionally (arity must match exactly), runs its body in a fresh frame
/// under the captured scope, and a return signal becomes the call's value
/// while break or continue reaching the boundary is a fatal engine error.
pub open spec fn sx_call_function(
    ast: AstV,
    st: StateV,
    fv: FruValue,
    args: Seq<FruValue>,
    fuel: nat,
) -> (StateV, Result<EvalOut, FruError>)
    decreases fuel,
{
    if fuel == 0 {
        (st, Err(FruError::OutOfFuel))
    } else {
        let f2 = (fuel - 1) as nat;
        match fv {
            FruValue::Function(fidx) => {
                if fidx >= st.funcs.len() {
                    (st, Err(FruError::InternalFault))
                } else {
                    match st.funcs[fidx as int] {
                        FruFunctionV::Curried { base, bound } => {
                            if base >= st.funcs.len() {
                                (st, Err(FruError::InternalFault))
                            } else {
                                sx_call_function(
                                    ast,
                                    st,
                                    FruValue::Function(base),
                                    bound + args,
                                    f2,
                                )
                            }
                        },
                        FruFunctionV::Plain { parameters, body, scope } => {
                            if parameters.len() != args.len() {
                                (
                                    st,
                                    Err(
                                        FruError::ArityMismatch {
                                            expected: parameters.len() as usize,
                                            got: args.len() as usize,
                                        },
                                    ),
                                )
                            } else {
                                let (st1, ns) = sp_push_frame(
                                    st,
                                    Some(scope),
                                    ScopeBinding::Plain,
                                );
                                let st2 = sp_bind_params(st1, ns, parameters, args);
                                sx_fn_body(ast, st2, ns, body, f2)
                            }
                        },
                    }
                }
            },
            _ => (st, Err(FruError::NotCallable)),
        }
    }
}

/// The frame `ns` with the parameters bound to the arguments, one by one.
pub open spec fn sp_bind_params(
    st: StateV,
    ns: usize,
    params: Seq<Identifier>,
    args: Seq<FruValue>,
) -> StateV
    decreases params.len(),
{
    if params.len() == 0 || params.len() != args.len() {
        st
    } else {
        let st1 = sp_bind_params(st, ns, params.drop_last(), args.drop_last());
        sp_let_var(st1, ns, params.last(), args.last()).0
    }
}

/// The spec interpreter: a function body at the call boundary. Normal
/// completion yields the unit value; a return signal yields its value;
/// break or continue must not escape a function and is a fatal engine
/// error.
pub open spec fn sx_fn_body(ast: AstV, st: StateV, scope: usize, body: usize, fuel: nat) -> (
    StateV,
    Result<EvalOut, FruError>,
)
    decreases fuel,
{
    if fuel == 0 {
        (st, Err(FruError::OutOfFuel))
    } else {
        let (st1, r) = sx_stmt(ast, st, scope, body, (fuel - 1) as nat);
        match r {
            Ok(Signal::Normal) => (st1, Ok(EvalOut::Val(FruValue::Nah))),
            Ok(Signal::Return(v)) => (st1, Ok(EvalOut::Val(v))),
            Ok(Signal::Break) => (st1, Err(FruError::ControlEscaped)),
            Ok(Signal::Continue) => (st1, Err(FruError::ControlEscaped)),
            Err(e) => (st1, Err(e)),
        }
    }
}

/// The spec interpreter: a binary operator applied to two evaluated
/// operands. The operator is resolved by the dynamic types of both
/// operands; a commutative entry for the swapped types serves with the
/// operands exchanged.
pub open spec fn sx_binary(
    ast: AstV,
    st: StateV,
    operator: Identifier,
    a: FruValue,
    b: FruValue,
    fuel: nat,
) -> (StateV, Result<EvalOut, FruError>)
    decreases fuel,
{
    if fuel == 0 {
        (st, Err(FruError::OutOfFuel))
    } else {
        let f2 = (fuel - 1) as nat;
        match (sp_type_info_of(st, a), sp_type_info_of(st, b)) {
            (Ok((lsym, lt)), Ok((rsym, rt))) => {
                match crate::fru_type::sp_resolve_operator(st, operator, lsym, lt, rsym, rt) {
                    Ok((op, swapped)) => {
                        let x = if swapped {
                            b
                        } else {
                            a
                        };
                        let y = if swapped {
                            a
                        } else {
                            b
                        };
                        sx_apply_operator(ast, st, op, x, y, f2)
                    },
                    Err(e) => (st, Err(e)),
                }
            },
            (Err(e), _) => (st, Err(e)),
            (_, Err(e)) => (st, Err(e)),
        }
    }
}

/// The spec interpreter: one operator implementation applied to its two
/// operands.
pub open spec fn sx_apply_operator(
    ast: AstV,
    st: StateV,
    op: AnyOperator,
    a: FruValue,
    b: FruValue,
    fuel: nat,
) -> (StateV, Result<EvalOut, FruError>)
    decreases fuel,
{
    if fuel == 0 {
        (st, Err(FruError::OutOfFuel))
    } else {
        let f2 = (fuel - 1) as nat;
        match op {
            AnyOperator::Builtin(bop) => {
                match sp_apply_builtin(bop, a, b) {
                    Ok(v) => (st, Ok(EvalOut::Val(v))),
                    Err(e) => (st, Err(e)),
                }
            },
            AnyOperator::User { left_ident, right_ident, body, scope } => {
                let (st1, ns) = sp_push_frame(st, Some(scope), ScopeBinding::Plain);
                let st2 = sp_let_var(st1, ns, left_ident, a).0;
                let st3 = sp_let_var(st2, ns, right_ident, b).0;
                sx_fn_body(ast, st3, ns, body, f2)
            },
        }
    }
}

/// The spec interpreter: a type declaration statement. Static field
/// initializers run once, in the declaring scope, in declaration order;
/// then the descriptor is allocated and the type's name is bound in the
/// declaring scope.
pub open spec fn sx_type_stmt(
    ast: AstV,
    st: StateV,
    scope: usize,
    type_type: crate::value::TypeFlavor,
    ident: Identifier,
    fields: Seq<crate::value::FruField>,
    static_fields: Seq<crate::ast::StaticFieldDecl>,
    watches: Seq<crate::ast::RawWatchV>,
    methods: Seq<RawMethodV>,
    static_methods: Seq<RawMethodV>,
    fuel: nat,
) -> (StateV, Result<Signal, FruError>)
    decreases fuel,
{
    if fuel == 0 {
        (st, Err(FruError::OutOfFuel))
    } else {
        let f2 = (fuel - 1) as nat;
        let (st1, r) = sx_static_inits(ast, st, scope, static_fields, 0, Seq::empty(), f2);
        match r {
            Ok(ArgsOutV::Vals(vals)) => {
                let statics = Seq::new(
                    static_fields.len(),
                    |j: int| (static_fields[j].field.ident, vals[j]),
                );
                let t = crate::engine::TypeDataV {
                    ident,
                    type_flavor: type_type,
                    fields,
                    static_fields: statics,
                    properties: Seq::empty(),
                    static_properties: Seq::empty(),
                    methods,
                    static_methods,
                    watches,
                    operators: Seq::empty(),
                    scope,
                };
                let (st2, tidx) = crate::fru_type::sp_declare_type(st1, t);
                let (st3, r3) = sp_let_var(
                    st2,
                    scope,
                    ident,
                    FruValue::Type((crate::value::FruType { idx: tidx })),
                );
                match r3 {
                    Ok(()) => (st3, Ok(Signal::Normal)),
                    Err(e) => (st3, Err(e)),
                }
            },
            Ok(ArgsOutV::Sig(sig)) => (st1, Ok(sig)),
            Err(e) => (st1, Err(e)),
        }
    }
}

/// The spec interpreter: static field initializers, left to right; a field
/// without an initializer starts as the unit value.
pub open spec fn sx_static_inits(
    ast: AstV,
    st: StateV,
    scope: usize,
    decls: Seq<crate::ast::StaticFieldDecl>,
    i: int,
    acc: Seq<FruValue>,
    fuel: nat,
) -> (StateV, Result<ArgsOutV, FruError>)
    decreases fuel,
{
    if fuel == 0 {
        (st, Err(FruError::OutOfFuel))
    } else if i < 0 || i >= decls.len() {
        (st, Ok(ArgsOutV::Vals(acc)))
    } else {
        let f2 = (fuel - 1) as nat;
        match decls[i].value {
            Some(einit) => {
                let (st1, r) = sx_expr(ast, st, scope, einit, f2);
                match r {
                    Ok(EvalOut::Val(v)) => sx_static_inits(
                        ast,
                        st1,
                        scope,
                        decls,
                        i + 1,
                        acc.push(v),
                        f2,
                    ),
                    Ok(EvalOut::Sig(sig)) => (st1, Ok(ArgsOutV::Sig(sig))),
                    Err(e) => (st1, Err(e)),
                }
            },
            None => sx_static_inits(ast, st, scope, decls, i + 1, acc.push(FruValue::Nah), f2),
        }
    }
}

/// The spec interpreter: member read on a value. On a type descriptor this
/// is the static path: field, then property getter, then method. On an
/// object: property getter, then field, then method. On a native scope
/// value: variable lookup in the captured scope. Anything else has no
/// members.
pub open spec fn sx_value_get_prop(
    ast: AstV,
    st: StateV,
    v: FruValue,
    ident: Identifier,
    fuel: nat,
) -> (StateV, Result<EvalOut, FruError>)
    decreases fuel,
{
    if fuel == 0 {
        (st, Err(FruError::OutOfFuel))
    } else {
        let f2 = (fuel - 1) as nat;
        match v {
            FruValue::Type(t) => sx_type_get_prop(ast, st, t.idx, ident, f2),
            FruValue::Object(o) => sx_object_get_prop(ast, st, o.idx, ident, f2),
            FruValue::Native(n) => {
                match sp_get_var(st, n.scope, ident) {
                    Ok(val) => (st, Ok(EvalOut::Val(val))),
                    Err(e) => (st, Err(e)),
                }
            },
            _ => (st, Err(FruError::NotAnObject)),
        }
    }
}

/// The spec interpreter: static member read on a type descriptor, in the
/// order static field, static property (whose getter runs in a fresh
/// type-bound frame), static method (returned freshly bound).
pub open spec fn sx_type_get_prop(
    ast: AstV,
    st: StateV,
    tidx: usize,
    ident: Identifier,
    fuel: nat,
) -> (StateV, Result<EvalOut, FruError>)
    decreases fuel,
{
    if fuel == 0 {
        (st, Err(FruError::OutOfFuel))
    } else if tidx >= st.types.len() {
        (st, Err(FruError::InternalFault))
    } else {
        let f2 = (fuel - 1) as nat;
        let t = st.types[tidx as int];
        let kf = crate::engine::sp_find_var(t.static_fields, ident);
        if kf >= 0 {
            (st, Ok(EvalOut::Val(t.static_fields[kf].1)))
        } else {
            let kp = crate::fru_type::sp_find_prop(t.static_properties, ident);
            if kp >= 0 {
                match t.static_properties[kp].getter {
                    Some(g) => {
                        let (st1, ns) = sp_push_frame(
                            st,
                            Some(t.scope),
                            ScopeBinding::OfType(tidx),
                        );
                        let (st2, r) = sx_expr(ast, st1, ns, g, f2);
                        match r {
                            Ok(EvalOut::Val(val)) => (st2, Ok(EvalOut::Val(val))),
                            Ok(EvalOut::Sig(Signal::Return(val))) => (st2, Ok(EvalOut::Val(val))),
                            Ok(EvalOut::Sig(_)) => (st2, Err(FruError::ControlEscaped)),
                            Err(e) => (st2, Err(e)),
                        }
                    },
                    None => (st, Err(FruError::NoGetter(ident))),
                }
            } else {
                let km = crate::fru_type::sp_find_method(t.static_methods, ident);
                if km >= 0 {
                    let (st1, ns) = sp_push_frame(st, Some(t.scope), ScopeBinding::OfType(tidx));
                    let (st2, fidx) = sp_alloc_func(
                        st1,
                        FruFunctionV::Plain {
                            parameters: t.static_methods[km].args,
                            body: t.static_methods[km].body,
                            scope: ns,
                        },
                    );
                    (st2, Ok(EvalOut::Val(FruValue::Function(fidx))))
                } else {
                    (st, Err(FruError::PropNotFound { ident, owner: t.ident }))
                }
            }
        }
    }
}

/// The spec interpreter: member read on an object instance, in the order
/// property getter (run in a fresh object-bound frame), field, method
/// (returned freshly bound).
pub open spec fn sx_object_get_prop(
    ast: AstV,
    st: StateV,
    oidx: usize,
    ident: Identifier,
    fuel: nat,
) -> (StateV, Result<EvalOut, FruError>)
    decreases fuel,
{
    if fuel == 0 {
        (st, Err(FruError::OutOfFuel))
    } else if oidx >= st.objects.len() || st.objects[oidx as int].type_idx >= st.types.len() {
        (st, Err(FruError::InternalFault))
    } else {
        let f2 = (fuel - 1) as nat;
        let tidx = st.objects[oidx as int].type_idx;
        let t = st.types[tidx as int];
        let kp = crate::fru_type::sp_find_prop(t.properties, ident);
        if kp >= 0 {
            match t.properties[kp].getter {
                Some(g) => {
                    let (st1, ns) = sp_push_frame(
                        st,
                        Some(t.scope),
                        ScopeBinding::OfObject(oidx),
                    );
                    let (st2, r) = sx_expr(ast, st1, ns, g, f2);
                    match r {
                        Ok(EvalOut::Val(val)) => (st2, Ok(EvalOut::Val(val))),
                        Ok(EvalOut::Sig(Signal::Return(val))) => (st2, Ok(EvalOut::Val(val))),
                        Ok(EvalOut::Sig(_)) => (st2, Err(FruError::ControlEscaped)),
                        Err(e) => (st2, Err(e)),
                    }
                },
                None => (st, Err(FruError::NoGetter(ident))),
            }
        } else {
            let kf = crate::fru_type::sp_find_field(t.fields, ident);
            if kf >= 0 && kf < st.objects[oidx as int].fields.len() {
                (st, Ok(EvalOut::Val(st.objects[oidx as int].fields[kf])))
            } else if kf >= 0 {
                (st, Err(FruError::InternalFault))
            } else {
                let km = crate::fru_type::sp_find_method(t.methods, ident);
                if km >= 0 {
                    let (st1, ns) = sp_push_frame(st, Some(t.scope), ScopeBinding::OfObject(oidx));
                    let (st2, fidx) = sp_alloc_func(
                        st1,
                        FruFunctionV::Plain {
                            parameters: t.methods[km].args,
                            body: t.methods[km].body,
                            scope: ns,
                        },
                    );
                    (st2, Ok(EvalOut::Val(FruValue::Function(fidx))))
                } else {
                    (st, Err(FruError::PropNotFound { ident, owner: t.ident }))
                }
            }
        }
    }
}

/// The spec interpreter: member write on a value. On a type descriptor the
/// static path: field first, then property setter. On an object: property
/// setter first, then field. On a native scope value: set the variable,
/// declaring it if the chain does not bind it.
pub open spec fn sx_value_set_prop(
    ast: AstV,
    st: StateV,
    target: FruValue,
    ident: Identifier,
    v: FruValue,
    fuel: nat,
) -> (StateV, Result<Signal, FruError>)
    decreases fuel,
{
    if fuel == 0 {
        (st, Err(FruError::OutOfFuel))
    } else {
        let f2 = (fuel - 1) as nat;
        match target {
            FruValue::Type(t) => sx_type_set_prop(ast, st, t.idx, ident, v, f2),
            FruValue::Object(o) => sx_object_set_prop(ast, st, o.idx, ident, v, f2),
            FruValue::Native(n) => {
                let (st1, r) = sp_let_set_var(st, n.scope, ident, v);
                match r {
                    Ok(()) => (st1, Ok(Signal::Normal)),
                    Err(e) => (st1, Err(e)),
                }
            },
            _ => (st, Err(FruError::NotAnObject)),
        }
    }
}

/// The spec interpreter: static member write, in the order static field,
/// static property setter (run in a fresh type-bound frame binding the
/// setter's parameter to the assigned value).
pub open spec fn sx_type_set_prop(
    ast: AstV,
    st: StateV,
    tidx: usize,
    ident: Identifier,
    v: FruValue,
    fuel: nat,
) -> (StateV, Result<Signal, FruError>)
    decreases fuel,
{
    if fuel == 0 {
        (st, Err(FruError::OutOfFuel))
    } else if tidx >= st.types.len() {
        (st, Err(FruError::InternalFault))
    } else {
        let f2 = (fuel - 1) as nat;
        let t = st.types[tidx as int];
        let kf = crate::engine::sp_find_var(t.static_fields, ident);
        if kf >= 0 {
            let t2 = crate::engine::TypeDataV {
                static_fields: t.static_fields.update(kf, (ident, v)),
                ..t
            };
            let st1 = StateV { types: st.types.update(tidx as int, t2), ..st };
            (st1, Ok(Signal::Normal))
        } else {
            let kp = crate::fru_type::sp_find_prop(t.static_properties, ident);
            if kp >= 0 {
                match t.static_properties[kp].setter {
                    Some((pname, sbody)) => {
                        let (st1, ns) = sp_push_frame(
                            st,
                            Some(t.scope),
                            ScopeBinding::OfType(tidx),
                        );
                        let st2 = sp_let_var(st1, ns, pname, v).0;
                        let (st3, r) = sx_stmt(ast, st2, ns, sbody, f2);
                        match r {
                            Ok(Signal::Normal) => (st3, Ok(Signal::Normal)),
                            Ok(Signal::Return(_)) => (st3, Ok(Signal::Normal)),
                            Ok(_) => (st3, Err(FruError::ControlEscaped)),
                            Err(e) => (st3, Err(e)),
                        }
                    },
                    None => (st, Err(FruError::NoSetter(ident))),
                }
            } else {
                (st, Err(FruError::PropNotFound { ident, owner: t.ident }))
            }
        }
    }
}

/// The spec interpreter: member write on an object instance, in the order
/// property setter (run in a fresh object-bound frame), field.
pub open spec fn sx_object_set_prop(
    ast: AstV,
    st: StateV,
    oidx: usize,
    ident: Identifier,
    v: FruValue,
    fuel: nat,
) -> (StateV, Result<Signal, FruError>)
    decreases fuel,
{
    if fuel == 0 {
        (st, Err(FruError::OutOfFuel))
    } else if oidx >= st.objects.len() || st.objects[oidx as int].type_idx >= st.types.len() {
        (st, Err(FruError::InternalFault))
    } else {
        let f2 = (fuel - 1) as nat;
        let tidx = st.objects[oidx as int].type_idx;
        let t = st.types[tidx as int];
        let kp = crate::fru_type::sp_find_prop(t.properties, ident);
        if kp >= 0 {
            match t.properties[kp].setter {
                Some((pname, sbody)) => {
                    let (st1, ns) = sp_push_frame(
                        st,
                        Some(t.scope),
                        ScopeBinding::OfObject(oidx),
                    );
                    let st2 = sp_let_var(st1, ns, pname, v).0;
                    let (st3, r) = sx_stmt(ast, st2, ns, sbody, f2);
                    match r {
                        Ok(Signal::Normal) => (st3, Ok(Signal::Normal)),
                        Ok(Signal::Return(_)) => (st3, Ok(Signal::Normal)),
                        Ok(_) => (st3, Err(FruError::ControlEscaped)),
                        Err(e) => (st3, Err(e)),
                    }
                },
                None => (st, Err(FruError::NoSetter(ident))),
            }
        } else {
            let kf = crate::fru_type::sp_find_field(t.fields, ident);
            if kf >= 0 && kf < st.objects[oidx as int].fields.len() {
                let o = st.objects[oidx as int];
                let o2 = crate::engine::ObjectDataV {
                    fields: o.fields.update(kf, v),
                    ..o
                };
                let st1 = StateV { objects: st.objects.update(oidx as int, o2), ..st };
                (st1, Ok(Signal::Normal))
            } else if kf >= 0 {
                (st, Err(FruError::InternalFault))
            } else {
                (st, Err(FruError::PropNotFound { ident, owner: t.ident }))
            }
        }
    }
}

/// Finds a property by name.
#[verifier::loop_isolation(false)]
fn find_prop_in(props: &Vec<crate::value::Property>, ident: Identifier) -> (r: Option<usize>)
    ensures
        (match r {
            Some(k) => crate::fru_type::sp_find_prop(props@, ident) == k as int && k < props@.len()
                && props@[k as int].ident == ident,
            None => crate::fru_type::sp_find_prop(props@, ident) == -1,
        }),
{
    let mut i: usize = 0;
    while i < props.len()
        invariant
            0 <= i <= props@.len(),
            forall|j: int| 0 <= j < i ==> props@[j].ident != ident,
        decreases props@.len() - i,
    {
        if props[i].ident == ident {
            proof {
                crate::fru_type::lemma_sp_find_prop(props@, ident);
                let k = crate::fru_type::sp_find_prop(props@, ident);
                assert(props@[i as int].ident == ident);
                if k == -1 {
                    assert(props@[i as int].ident != ident);
                }
                if 0 <= k < i as int {
                    assert(props@[k].ident == ident);
                    assert(props@[k].ident != ident);
                }
                if k > i as int {
                    assert(props@[i as int].ident != ident);
                }
            }
            return Some(i);
        }
        i = i + 1;
    }
    proof {
        crate::fru_type::lemma_sp_find_prop(props@, ident);
        let k = crate::fru_type::sp_find_prop(props@, ident);
        if k >= 0 {
            assert(props@[k].ident == ident);
        }
    }
    None
}

/// Finds a method by name; the spec index is over the methods' views.
#[verifier::loop_isolation(false)]
fn find_method_in(methods: &Vec<crate::ast::RawMethod>, ident: Identifier) -> (r: Option<usize>)
    ensures
        (match r {
            Some(k) => {
                let mv = methods@.map_values(|m: crate::ast::RawMethod| m@);
                crate::fru_type::sp_find_method(mv, ident) == k as int && k < mv.len()
                    && mv[k as int].ident == ident
            },
            None => crate::fru_type::sp_find_method(
                methods@.map_values(|m: crate::ast::RawMethod| m@),
                ident,
            ) == -1,
        }),
{
    let ghost mv = methods@.map_values(|m: crate::ast::RawMethod| m@);
    let mut i: usize = 0;
    while i < methods.len()
        invariant
            0 <= i <= mv.len(),
            mv.len() == methods@.len(),
            forall|j: int| 0 <= j < i ==> mv[j].ident != ident,
        decreases mv.len() - i,
    {
        proof {
            assert(mv[i as int] == methods@[i as int]@);
        }
        if methods[i].ident == ident {
            proof {
                crate::fru_type::lemma_sp_find_method(mv, ident);
                let k = crate::fru_type::sp_find_method(mv, ident);
                assert(mv[i as int].ident == ident);
                if k == -1 {
                    assert(mv[i as int].ident != ident);
                }
                if 0 <= k < i as int {
                    assert(mv[k].ident == ident);
                    assert(mv[k].ident != ident);
                }
                if k > i as int {
                    assert(mv[i as int].ident != ident);
                }
            }
            return Some(i);
        }
        i = i + 1;
    }
    proof {
        crate::fru_type::lemma_sp_find_method(mv, ident);
        let k = crate::fru_type::sp_find_method(mv, ident);
        if k >= 0 {
            assert(mv[k].ident == ident);
        }
    }
    None
}

/// Finds a field by name.
#[verifier::loop_isolation(false)]
fn find_field_in(fields: &Vec<crate::value::FruField>, ident: Identifier) -> (r: Option<usize>)
    ensures
        (match r {
            Some(k) => crate::fru_type::sp_find_field(fields@, ident) == k as int && k
                < fields@.len(),
            None => crate::fru_type::sp_find_field(fields@, ident) == -1,
        }),
{
    let mut i: usize = 0;
    while i < fields.len()
        invariant
            0 <= i <= fields@.len(),
            forall|j: int| 0 <= j < i ==> fields@[j].ident != ident,
        decreases fields@.len() - i,
    {
        if fields[i].ident == ident {
            proof {
                crate::fru_type::lemma_sp_find_field(fields@, ident);
                let k = crate::fru_type::sp_find_field(fields@, ident);
                assert(fields@[i as int].ident == ident);
                if k == -1 {
                    assert(fields@[i as int].ident != ident);
                }
                if 0 <= k < i as int {
                    assert(fields@[k].ident == ident);
                    assert(fields@[k].ident != ident);
                }
                if k > i as int {
                    assert(fields@[i as int].ident != ident);
                }
            }
            return Some(i);
        }
        i = i + 1;
    }
    proof {
        crate::fru_type::lemma_sp_find_field(fields@, ident);
        let k = crate::fru_type::sp_find_field(fields@, ident);
        if k >= 0 {
            assert(fields@[k].ident == ident);
        }
    }
    None
}

/// Rebuilds a method list; the views are unchanged.
#[verifier::loop_isolation(false)]
fn copy_methods(v: &Vec<crate::ast::RawMethod>) -> (r: Vec<crate::ast::RawMethod>)
    ensures
        r@.map_values(|m: crate::ast::RawMethod| m@) == v@.map_values(
            |m: crate::ast::RawMethod| m@,
        ),
{
    let mut r: Vec<crate::ast::RawMethod> = Vec::new();
    let mut i: usize = 0;
    while i < v.len()
        invariant
            0 <= i <= v@.len(),
            r@.len() == i,
            forall|j: int| 0 <= j < i ==> r@[j]@ == v@[j]@,
        decreases v@.len() - i,
    {
        let m = &v[i];
        r.push(crate::ast::RawMethod { ident: m.ident, args: copy_vec(&m.args), body: m.body });
        i = i + 1;
    }
    proof {
        assert(r@.map_values(|m: crate::ast::RawMethod| m@) =~= v@.map_values(
            |m: crate::ast::RawMethod| m@,
        ));
    }
    r
}

/// Rebuilds a watch list; the views are unchanged.
#[verifier::loop_isolation(false)]
fn copy_watches(v: &Vec<crate::ast::RawWatch>) -> (r: Vec<crate::ast::RawWatch>)
    ensures
        r@.map_values(|w: crate::ast::RawWatch| w@) == v@.map_values(
            |w: crate::ast::RawWatch| w@,
        ),
{
    let mut r: Vec<crate::ast::RawWatch> = Vec::new();
    let mut i: usize = 0;
    while i < v.len()
        invariant
            0 <= i <= v@.len(),
            r@.len() == i,
            forall|j: int| 0 <= j < i ==> r@[j]@ == v@[j]@,
        decreases v@.len() - i,
    {
        let w = &v[i];
        r.push(crate::ast::RawWatch { args: copy_vec(&w.args), body: w.body });
        i = i + 1;
    }
    proof {
        assert(r@.map_values(|w: crate::ast::RawWatch| w@) =~= v@.map_values(
            |w: crate::ast::RawWatch| w@,
        ));
    }
    r
}

/// The type symbol and descriptor index of a value's dynamic type.
fn value_type_info(e: &Engine, v: FruValue) -> (r: Result<(Identifier, usize), FruError>)
    ensures
        r == sp_type_info_of(e@, v),
{
    match v {
        FruValue::Nah => {
            let id = Identifier::for_nah();
            proof {
                lemma_identifier_of(id);
            }
            Ok((id, 0))
        },
        FruValue::Number(_) => {
            let id = Identifier::for_number();
            proof {
                lemma_identifier_of(id);
            }
            Ok((id, 1))
        },
        FruValue::Bool(_) => {
            let id = Identifier::for_bool();
            proof {
                lemma_identifier_of(id);
            }
            Ok((id, 2))
        },
        FruValue::Text(_) => {
            let id = Identifier::for_string();
            proof {
                lemma_identifier_of(id);
            }
            Ok((id, 3))
        },
        FruValue::Function(_) => {
            let id = Identifier::for_function();
            proof {
                lemma_identifier_of(id);
            }
            Ok((id, 4))
        },
        FruValue::Type(_) => {
            let id = Identifier::for_struct_type();
            proof {
                lemma_identifier_of(id);
            }
            Ok((id, 5))
        },
        FruValue::Object(o) => {
            if o.idx < e.objects.len() && e.objects[o.idx].type_idx < e.types.len() {
                let tidx = e.objects[o.idx].type_idx;
                Ok((e.types[tidx].ident, tidx))
            } else {
                Err(FruError::InternalFault)
            }
        },
        FruValue::Native(_) => {
            let id = Identifier::for_native_object();
            proof {
                lemma_identifier_of(id);
            }
            Ok((id, 6))
        },
    }
}

/// Applies one built-in operator implementation.
fn apply_builtin(op: BuiltinOp, a: FruValue, b: FruValue) -> (r: Result<FruValue, FruError>)
    ensures
        r == sp_apply_builtin(op, a, b),
{
    match (op, a, b) {
        (BuiltinOp::NumPlus, FruValue::Number(x), FruValue::Number(y)) => {
            let s: i128 = x as i128 + y as i128;
            if i64::MIN as i128 <= s && s <= i64::MAX as i128 {
                Ok(FruValue::Number(s as i64))
            } else {
                Err(FruError::NumericOverflow)
            }
        },
        (BuiltinOp::NumMinus, FruValue::Number(x), FruValue::Number(y)) => {
            let s: i128 = x as i128 - y as i128;
            if i64::MIN as i128 <= s && s <= i64::MAX as i128 {
                Ok(FruValue::Number(s as i64))
            } else {
                Err(FruError::NumericOverflow)
            }
        },
        (BuiltinOp::NumMultiply, FruValue::Number(x), FruValue::Number(y)) => {
            proof {
                let xi = x as int;
                let yi = y as int;
                assert(i128::MIN <= xi * yi <= i128::MAX) by (nonlinear_arith)
                    requires
                        i64::MIN <= xi <= i64::MAX,
                        i64::MIN <= yi <= i64::MAX,
                {}
            }
            let s: i128 = x as i128 * y as i128;
            if i64::MIN as i128 <= s && s <= i64::MAX as i128 {
                Ok(FruValue::Number(s as i64))
            } else {
                Err(FruError::NumericOverflow)
            }
        },
        (BuiltinOp::NumDivide, FruValue::Number(x), FruValue::Number(y)) => {
            if y == 0 {
                Err(FruError::DivisionByZero)
            } else {
                let ux: u128 = if x >= 0 {
                    x as u128
                } else {
                    (-(x as i128)) as u128
                };
                let uy: u128 = if y >= 0 {
                    y as u128
                } else {
                    (-(y as i128)) as u128
                };
                let uq: u128 = ux / uy;
                proof {
                    assert(ux == abs_int(x as int));
                    assert(uy == abs_int(y as int));
                }
                if (x >= 0) == (y >= 0) {
                    if uq <= i64::MAX as u128 {
                        proof {
                            assert(sp_tdiv(x as int, y as int) == uq);
                        }
                        Ok(FruValue::Number(uq as i64))
                    } else {
                        Err(FruError::NumericOverflow)
                    }
                } else {
                    proof {
                        assert(sp_tdiv(x as int, y as int) == -(uq as int));
                    }
                    if uq <= i64::MAX as u128 {
                        Ok(FruValue::Number(-(uq as i64)))
                    } else {
                        // |i64::MIN| is one beyond i64::MAX, and -|i64::MIN|
                        // is representable.
                        if uq == i64::MAX as u128 + 1 {
                            Ok(FruValue::Number(i64::MIN))
                        } else {
                            Err(FruError::NumericOverflow)
                        }
                    }
                }
            }
        },
        (BuiltinOp::NumMod, FruValue::Number(x), FruValue::Number(y)) => {
            if y == 0 {
                Err(FruError::DivisionByZero)
            } else {
                let ux: u128 = if x >= 0 {
                    x as u128
                } else {
                    (-(x as i128)) as u128
                };
                let uy: u128 = if y >= 0 {
                    y as u128
                } else {
                    (-(y as i128)) as u128
                };
                let ur: u128 = ux % uy;
                proof {
                    assert(ux == abs_int(x as int));
                    assert(uy == abs_int(y as int));
                    assert(ur < uy);
                    assert(sp_trem(x as int, y as int) == if x < 0 {
                        -(ur as int)
                    } else {
                        ur as int
                    });
                }
                if x < 0 {
                    Ok(FruValue::Number(-(ur as i64)))
                } else {
                    Ok(FruValue::Number(ur as i64))
                }
            }
        },
        (BuiltinOp::NumLess, FruValue::Number(x), FruValue::Number(y)) => Ok(
            FruValue::Bool(x < y),
        ),
        (BuiltinOp::NumLessEq, FruValue::Number(x), FruValue::Number(y)) => Ok(
            FruValue::Bool(x <= y),
        ),
        (BuiltinOp::NumGreater, FruValue::Number(x), FruValue::Number(y)) => Ok(
            FruValue::Bool(x > y),
        ),
        (BuiltinOp::NumGreaterEq, FruValue::Number(x), FruValue::Number(y)) => Ok(
            FruValue::Bool(x >= y),
        ),
        (BuiltinOp::NumEq, FruValue::Number(x), FruValue::Number(y)) => Ok(
            FruValue::Bool(x == y),
        ),
        (BuiltinOp::NumNotEq, FruValue::Number(x), FruValue::Number(y)) => Ok(
            FruValue::Bool(x != y),
        ),
        (BuiltinOp::BoolAnd, FruValue::Bool(x), FruValue::Bool(y)) => Ok(FruValue::Bool(x && y)),
        (BuiltinOp::BoolOr, FruValue::Bool(x), FruValue::Bool(y)) => Ok(FruValue::Bool(x || y)),
        _ => Err(FruError::NotCallable),
    }
}

impl Engine {
    /// Executes one statement: the result and the new state are exactly the
    /// spec interpreter\'s.
    #[verifier::rlimit(100)]
    pub fn execute_statement(&mut self, ast: &Ast, scope: usize, sidx: usize, fuel: usize) -> (r:
        Result<Signal, FruError>)
        ensures
            (final(self)@, r) == sx_stmt(ast@, old(self)@, scope, sidx, fuel as nat),
        decreases fuel,
    {
        if fuel == 0 {
            return Err(FruError::OutOfFuel);
        }
        if sidx >= ast.stmts.len() {
            return Err(FruError::InternalFault);
        }
        proof {
            assert(ast@.stmts[sidx as int] == ast.stmts@[sidx as int]@);
        }
        let f2 = fuel - 1;
        match &ast.stmts[sidx] {
            StmtNode::Block { body } => {
                let ns = self.push_frame(Some(scope), ScopeBinding::Plain);
                self.execute_statement_list(ast, ns, body, 0, f2)
            },
            StmtNode::Expression { value } => {
                match self.evaluate_expression(ast, scope, *value, f2) {
                    Ok(EvalOut::Val(_)) => Ok(Signal::Normal),
                    Ok(EvalOut::Sig(sig)) => Ok(sig),
                    Err(e) => Err(e),
                }
            },
            StmtNode::Let { ident, value } => {
                match self.evaluate_expression(ast, scope, *value, f2) {
                    Ok(EvalOut::Val(v)) => {
                        match self.let_variable(scope, *ident, v) {
                            Ok(()) => Ok(Signal::Normal),
                            Err(e) => Err(e),
                        }
                    },
                    Ok(EvalOut::Sig(sig)) => Ok(sig),
                    Err(e) => Err(e),
                }
            },
            StmtNode::SetVar { ident, value } => {
                match self.evaluate_expression(ast, scope, *value, f2) {
                    Ok(EvalOut::Val(v)) => {
                        match self.set_variable(scope, *ident, v) {
                            Ok(()) => Ok(Signal::Normal),
                            Err(e) => Err(e),
                        }
                    },
                    Ok(EvalOut::Sig(sig)) => Ok(sig),
                    Err(e) => Err(e),
                }
            },
            StmtNode::If { condition, then_body, else_body } => {
                match self.evaluate_expression(ast, scope, *condition, f2) {
                    Ok(EvalOut::Val(FruValue::Bool(true))) => self.execute_statement(
                        ast,
                        scope,
                        *then_body,
                        f2,
                    ),
                    Ok(EvalOut::Val(FruValue::Bool(false))) => {
                        match else_body {
                            Some(eb) => self.execute_statement(ast, scope, *eb, f2),
                            None => Ok(Signal::Normal),
                        }
                    },
                    Ok(EvalOut::Val(_)) => Err(FruError::NotABool),
                    Ok(EvalOut::Sig(sig)) => Ok(sig),
                    Err(e) => Err(e),
                }
            },
            StmtNode::While { cond, body } => self.execute_while(ast, scope, *cond, *body, f2),
            StmtNode::Return { value } => {
                match self.evaluate_expression(ast, scope, *value, f2) {
                    Ok(EvalOut::Val(v)) => Ok(Signal::Return(v)),
                    Ok(EvalOut::Sig(sig)) => Ok(sig),
                    Err(e) => Err(e),
                }
            },
            StmtNode::Break => Ok(Signal::Break),
            StmtNode::Continue => Ok(Signal::Continue),
            StmtNode::SetField { target, field, value } => {
                match self.evaluate_expression(ast, scope, *target, f2) {
                    Ok(EvalOut::Val(tv)) => {
                        match self.evaluate_expression(ast, scope, *value, f2) {
                            Ok(EvalOut::Val(v)) => self.value_set_prop(ast, tv, *field, v, f2),
                            Ok(EvalOut::Sig(sig)) => Ok(sig),
                            Err(e) => Err(e),
                        }
                    },
                    Ok(EvalOut::Sig(sig)) => Ok(sig),
                    Err(e) => Err(e),
                }
            },
            StmtNode::Operator {
                ident,
                commutative,
                left_ident,
                left_type_ident,
                right_ident,
                right_type_ident,
                body,
            } => {
                match self.get_variable(scope, *left_type_ident) {
                    Ok(FruValue::Type(t)) => {
                        if t.idx >= self.types.len() {
                            return Err(FruError::InternalFault);
                        }
                        let key = crate::identifier::OperatorIdentifier {
                            op: *ident,
                            left: *left_type_ident,
                            right: *right_type_ident,
                        };
                        let op = AnyOperator::User {
                            left_ident: *left_ident,
                            right_ident: *right_ident,
                            body: *body,
                            scope,
                        };
                        match t.set_operator(self, key, *commutative, op) {
                            Ok(()) => Ok(Signal::Normal),
                            Err(e) => Err(e),
                        }
                    },
                    Ok(_) => Err(FruError::NotAType),
                    Err(e) => Err(e),
                }
            },
            StmtNode::Type {
                type_type,
                ident,
                fields,
                static_fields,
                watches,
                methods,
                static_methods,
            } => {
                let r = self.execute_type_statement(
                    ast,
                    scope,
                    *type_type,
                    *ident,
                    fields,
                    static_fields,
                    watches,
                    methods,
                    static_methods,
                    f2,
                );
                r
            },
        }
    }

    /// Executes a statement list in order, stopping at the first non-normal
    /// signal or error.
    pub fn execute_statement_list(
        &mut self,
        ast: &Ast,
        scope: usize,
        body: &Vec<usize>,
        i: usize,
        fuel: usize,
    ) -> (r: Result<Signal, FruError>)
        ensures
            (final(self)@, r) == sx_stmt_list(ast@, old(self)@, scope, body@, i as int, fuel as nat),
        decreases fuel,
    {
        if fuel == 0 {
            return Err(FruError::OutOfFuel);
        }
        if i >= body.len() {
            return Ok(Signal::Normal);
        }
        let f2 = fuel - 1;
        match self.execute_statement(ast, scope, body[i], f2) {
            Ok(Signal::Normal) => self.execute_statement_list(ast, scope, body, i + 1, f2),
            Ok(sig) => Ok(sig),
            Err(e) => Err(e),
        }
    }

    /// Executes a while loop.
    pub fn execute_while(
        &mut self,
        ast: &Ast,
        scope: usize,
        cond: usize,
        body: usize,
        fuel: usize,
    ) -> (r: Result<Signal, FruError>)
        ensures
            (final(self)@, r) == sx_while(ast@, old(self)@, scope, cond, body, fuel as nat),
        decreases fuel,
    {
        if fuel == 0 {
            return Err(FruError::OutOfFuel);
        }
        let f2 = fuel - 1;
        match self.evaluate_expression(ast, scope, cond, f2) {
            Ok(EvalOut::Val(FruValue::Bool(true))) => {
                match self.execute_statement(ast, scope, body, f2) {
                    Ok(Signal::Normal) => self.execute_while(ast, scope, cond, body, f2),
                    Ok(Signal::Continue) => self.execute_while(ast, scope, cond, body, f2),
                    Ok(Signal::Break) => Ok(Signal::Normal),
                    Ok(Signal::Return(v)) => Ok(Signal::Return(v)),
                    Err(e) => Err(e),
                }
            },
            Ok(EvalOut::Val(FruValue::Bool(false))) => Ok(Signal::Normal),
            Ok(EvalOut::Val(_)) => Err(FruError::NotABool),
            Ok(EvalOut::Sig(sig)) => Ok(sig),
            Err(e) => Err(e),
        }
    }

    /// Evaluates one expression: the result and the new state are exactly
    /// the spec interpreter\'s.
    #[verifier::rlimit(100)]
    pub fn evaluate_expression(&mut self, ast: &Ast, scope: usize, eidx: usize, fuel: usize) -> (r:
        Result<EvalOut, FruError>)
        ensures
            (final(self)@, r) == sx_expr(ast@, old(self)@, scope, eidx, fuel as nat),
        decreases fuel,
    {
        if fuel == 0 {
            return Err(FruError::OutOfFuel);
        }
        if eidx >= ast.exprs.len() {
            return Err(FruError::InternalFault);
        }
        proof {
            assert(ast@.exprs[eidx as int] == ast.exprs@[eidx as int]@);
        }
        let f2 = fuel - 1;
        match &ast.exprs[eidx] {
            ExprNode::Literal { value } => Ok(EvalOut::Val(*value)),
            ExprNode::Variable { ident } => {
                match self.get_variable(scope, *ident) {
                    Ok(v) => Ok(EvalOut::Val(v)),
                    Err(e) => Err(e),
                }
            },
            ExprNode::Block { body, expr } => {
                let ns = self.push_frame(Some(scope), ScopeBinding::Plain);
                match self.execute_statement_list(ast, ns, body, 0, f2) {
                    Ok(Signal::Normal) => self.evaluate_expression(ast, ns, *expr, f2),
                    Ok(sig) => Ok(EvalOut::Sig(sig)),
                    Err(e) => Err(e),
                }
            },
            ExprNode::Binary { operator, left, right } => {
                match self.evaluate_expression(ast, scope, *left, f2) {
                    Ok(EvalOut::Val(a)) => {
                        match self.evaluate_expression(ast, scope, *right, f2) {
                            Ok(EvalOut::Val(b)) => self.evaluate_binary(ast, *operator, a, b, f2),
                            Ok(EvalOut::Sig(sig)) => Ok(EvalOut::Sig(sig)),
                            Err(e) => Err(e),
                        }
                    },
                    Ok(EvalOut::Sig(sig)) => Ok(EvalOut::Sig(sig)),
                    Err(e) => Err(e),
                }
            },
            ExprNode::If { condition, then_body, else_body } => {
                match self.evaluate_expression(ast, scope, *condition, f2) {
                    Ok(EvalOut::Val(FruValue::Bool(true))) => self.evaluate_expression(
                        ast,
                        scope,
                        *then_body,
                        f2,
                    ),
                    Ok(EvalOut::Val(FruValue::Bool(false))) => self.evaluate_expression(
                        ast,
                        scope,
                        *else_body,
                        f2,
                    ),
                    Ok(EvalOut::Val(_)) => Err(FruError::NotABool),
                    Ok(EvalOut::Sig(sig)) => Ok(EvalOut::Sig(sig)),
                    Err(e) => Err(e),
                }
            },
            ExprNode::Function { args, body } => {
                let ghost st0 = self@;
                let params = copy_vec(args);
                let fidx = self.funcs.len();
                self.funcs.push(FruFunction::Plain { parameters: params, body: *body, scope });
                proof {
                    assert(self@.funcs =~= st0.funcs.push(
                        FruFunctionV::Plain { parameters: args@, body: *body, scope },
                    ));
                    assert(self@ =~= sp_alloc_func(
                        st0,
                        FruFunctionV::Plain { parameters: args@, body: *body, scope },
                    ).0);
                }
                Ok(EvalOut::Val(FruValue::Function(fidx)))
            },
            ExprNode::Call { what, args } => {
                match self.evaluate_expression(ast, scope, *what, f2) {
                    Ok(EvalOut::Val(fv)) => {
                        let acc: Vec<FruValue> = Vec::new();
                        proof {
                            assert(acc@ =~= Seq::<FruValue>::empty());
                        }
                        match self.evaluate_expression_list(ast, scope, args, 0, acc, f2) {
                            Ok(ArgsOut::Vals(vals)) => self.call_function(ast, fv, vals, f2),
                            Ok(ArgsOut::Sig(sig)) => Ok(EvalOut::Sig(sig)),
                            Err(e) => Err(e),
                        }
                    },
                    Ok(EvalOut::Sig(sig)) => Ok(EvalOut::Sig(sig)),
                    Err(e) => Err(e),
                }
            },
            ExprNode::CurryCall { what, args } => {
                match self.evaluate_expression(ast, scope, *what, f2) {
                    Ok(EvalOut::Val(FruValue::Function(fidx))) => {
                        let acc: Vec<FruValue> = Vec::new();
                        proof {
                            assert(acc@ =~= Seq::<FruValue>::empty());
                        }
                        match self.evaluate_expression_list(ast, scope, args, 0, acc, f2) {
                            Ok(ArgsOut::Vals(vals)) => {
                                let ghost st2 = self@;
                                let nf = self.funcs.len();
                                let ghost valsv = vals@;
                                self.funcs.push(FruFunction::Curried { base: fidx, bound: vals });
                                proof {
                                    assert(self@.funcs =~= st2.funcs.push(
                                        FruFunctionV::Curried { base: fidx, bound: valsv },
                                    ));
                                    assert(self@ =~= sp_alloc_func(
                                        st2,
                                        FruFunctionV::Curried { base: fidx, bound: valsv },
                                    ).0);
                                }
                                Ok(EvalOut::Val(FruValue::Function(nf)))
                            },
                            Ok(ArgsOut::Sig(sig)) => Ok(EvalOut::Sig(sig)),
                            Err(e) => Err(e),
                        }
                    },
                    Ok(EvalOut::Val(_)) => Err(FruError::NotCallable),
                    Ok(EvalOut::Sig(sig)) => Ok(EvalOut::Sig(sig)),
                    Err(e) => Err(e),
                }
            },
            ExprNode::Instantiation { what, args } => {
                match self.evaluate_expression(ast, scope, *what, f2) {
                    Ok(EvalOut::Val(FruValue::Type(t))) => {
                        let acc: Vec<FruValue> = Vec::new();
                        proof {
                            assert(acc@ =~= Seq::<FruValue>::empty());
                        }
                        match self.evaluate_expression_list(ast, scope, args, 0, acc, f2) {
                            Ok(ArgsOut::Vals(vals)) => {
                                if t.idx >= self.types.len() {
                                    return Err(FruError::InternalFault);
                                }
                                let ghost valsv = vals@;
                                let mut pairs: Vec<(Option<Identifier>, FruValue)> = Vec::new();
                                let mut q: usize = 0;
                                while q < vals.len()
                                    invariant
                                        0 <= q <= valsv.len(),
                                        valsv == vals@,
                                        pairs@.len() == q,
                                        forall|j: int|
                                            0 <= j < q ==> pairs@[j] == (
                                                None::<Identifier>,
                                                valsv[j],
                                            ),
                                    decreases valsv.len() - q,
                                {
                                    pairs.push((None, vals[q]));
                                    q = q + 1;
                                }
                                proof {
                                    assert(pairs@ =~= valsv.map_values(
                                        |v: FruValue| (None::<Identifier>, v),
                                    ));
                                }
                                let list = crate::fru_type::EvaluatedArgumentList { args: pairs };
                                match t.instantiate(self, list) {
                                    Ok(v) => Ok(EvalOut::Val(v)),
                                    Err(e) => Err(e),
                                }
                            },
                            Ok(ArgsOut::Sig(sig)) => Ok(EvalOut::Sig(sig)),
                            Err(e) => Err(e),
                        }
                    },
                    Ok(EvalOut::Val(_)) => Err(FruError::NotAType),
                    Ok(EvalOut::Sig(sig)) => Ok(EvalOut::Sig(sig)),
                    Err(e) => Err(e),
                }
            },
            ExprNode::FieldAccess { what, field } => {
                match self.evaluate_expression(ast, scope, *what, f2) {
                    Ok(EvalOut::Val(v)) => self.value_get_prop(ast, v, *field, f2),
                    Ok(EvalOut::Sig(sig)) => Ok(EvalOut::Sig(sig)),
                    Err(e) => Err(e),
                }
            },
        }
    }

    /// Evaluates an argument list left to right.
    pub fn evaluate_expression_list(
        &mut self,
        ast: &Ast,
        scope: usize,
        args: &Vec<usize>,
        i: usize,
        acc: Vec<FruValue>,
        fuel: usize,
    ) -> (r: Result<ArgsOut, FruError>)
        ensures
            (match r {
                Ok(out) => (final(self)@, Ok::<ArgsOutV, FruError>(out@)) == sx_expr_list(
                    ast@,
                    old(self)@,
                    scope,
                    args@,
                    i as int,
                    acc@,
                    fuel as nat,
                ),
                Err(e) => (final(self)@, Err::<ArgsOutV, FruError>(e)) == sx_expr_list(
                    ast@,
                    old(self)@,
                    scope,
                    args@,
                    i as int,
                    acc@,
                    fuel as nat,
                ),
            }),
        decreases fuel,
    {
        if fuel == 0 {
            return Err(FruError::OutOfFuel);
        }
        if i >= args.len() {
            return Ok(ArgsOut::Vals(acc));
        }
        let f2 = fuel - 1;
        match self.evaluate_expression(ast, scope, args[i], f2) {
            Ok(EvalOut::Val(v)) => {
                let mut acc2 = acc;
                acc2.push(v);
                self.evaluate_expression_list(ast, scope, args, i + 1, acc2, f2)
            },
            Ok(EvalOut::Sig(sig)) => Ok(ArgsOut::Sig(sig)),
            Err(e) => Err(e),
        }
    }

    /// Calls a value with evaluated arguments.
    pub fn call_function(
        &mut self,
        ast: &Ast,
        fv: FruValue,
        args: Vec<FruValue>,
        fuel: usize,
    ) -> (r: Result<EvalOut, FruError>)
        ensures
            (final(self)@, r) == sx_call_function(ast@, old(self)@, fv, args@, fuel as nat),
        decreases fuel,
    {
        if fuel == 0 {
            return Err(FruError::OutOfFuel);
        }
        let f2 = fuel - 1;
        match fv {
            FruValue::Function(fidx) => {
                if fidx >= self.funcs.len() {
                    return Err(FruError::InternalFault);
                }
                proof {
                    assert(self@.funcs[fidx as int] == self.funcs@[fidx as int]@);
                }
                match &self.funcs[fidx] {
                    FruFunction::Curried { base, bound } => {
                        let base = *base;
                        if base >= self.funcs.len() {
                            return Err(FruError::InternalFault);
                        }
                        let mut combined = copy_vec(bound);
                        let mut rest = args;
                        combined.append(&mut rest);
                        self.call_function(ast, FruValue::Function(base), combined, f2)
                    },
                    FruFunction::Plain { parameters, body, scope } => {
                        let body = *body;
                        let fscope = *scope;
                        let params = copy_vec(parameters);
                        if params.len() != args.len() {
                            return Err(
                                FruError::ArityMismatch {
                                    expected: params.len(),
                                    got: args.len(),
                                },
                            );
                        }
                        let ns = self.push_frame(Some(fscope), ScopeBinding::Plain);
                        let ghost st1 = self@;
                        let ghost paramsv = params@;
                        let ghost argsv = args@;
                        let mut j: usize = 0;
                        while j < params.len()
                            invariant
                                0 <= j <= paramsv.len(),
                                paramsv == params@,
                                argsv == args@,
                                paramsv.len() == argsv.len(),
                                self@ == sp_bind_params(
                                    st1,
                                    ns,
                                    paramsv.take(j as int),
                                    argsv.take(j as int),
                                ),
                            decreases paramsv.len() - j,
                        {
                            let ghost stj = self@;
                            let _ = self.let_variable(ns, params[j], args[j]);
                            proof {
                                assert(paramsv.take(j + 1).drop_last() =~= paramsv.take(j as int));
                                assert(argsv.take(j + 1).drop_last() =~= argsv.take(j as int));
                                assert(paramsv.take(j + 1).last() == paramsv[j as int]);
                                assert(argsv.take(j + 1).last() == argsv[j as int]);
                                assert(paramsv.take(j + 1).len() == argsv.take(j + 1).len());
                                assert(self@ == sp_bind_params(
                                    st1,
                                    ns,
                                    paramsv.take(j + 1),
                                    argsv.take(j + 1),
                                ));
                            }
                            j = j + 1;
                        }
                        proof {
                            assert(paramsv.take(paramsv.len() as int) =~= paramsv);
                            assert(argsv.take(argsv.len() as int) =~= argsv);
                        }
                        self.execute_function_body(ast, ns, body, f2)
                    },
                }
            },
            _ => Err(FruError::NotCallable),
        }
    }

    /// Runs a function body at the call boundary: normal completion yields
    /// the unit value, a return signal yields its value, and break or
    /// continue reaching here is a fatal engine error.
    pub fn execute_function_body(&mut self, ast: &Ast, scope: usize, body: usize, fuel: usize) -> (r:
        Result<EvalOut, FruError>)
        ensures
            (final(self)@, r) == sx_fn_body(ast@, old(self)@, scope, body, fuel as nat),
        decreases fuel,
    {
        if fuel == 0 {
            return Err(FruError::OutOfFuel);
        }
        match self.execute_statement(ast, scope, body, fuel - 1) {
            Ok(Signal::Normal) => Ok(EvalOut::Val(FruValue::Nah)),
            Ok(Signal::Return(v)) => Ok(EvalOut::Val(v)),
            Ok(Signal::Break) => Err(FruError::ControlEscaped),
            Ok(Signal::Continue) => Err(FruError::ControlEscaped),
            Err(e) => Err(e),
        }
    }

    /// Applies a binary operator to two evaluated operands, resolving the
    /// overload by the operands\' dynamic types.
    pub fn evaluate_binary(
        &mut self,
        ast: &Ast,
        operator: Identifier,
        a: FruValue,
        b: FruValue,
        fuel: usize,
    ) -> (r: Result<EvalOut, FruError>)
        ensures
            (final(self)@, r) == sx_binary(ast@, old(self)@, operator, a, b, fuel as nat),
        decreases fuel,
    {
        if fuel == 0 {
            return Err(FruError::OutOfFuel);
        }
        let f2 = fuel - 1;
        let ia = value_type_info(self, a);
        let ib = value_type_info(self, b);
        match (ia, ib) {
            (Ok((lsym, lt)), Ok((rsym, rt))) => {
                match self.resolve_operator(operator, lsym, lt, rsym, rt) {
                    Ok((op, swapped)) => {
                        let x = if swapped {
                            b
                        } else {
                            a
                        };
                        let y = if swapped {
                            a
                        } else {
                            b
                        };
                        self.apply_operator(ast, op, x, y, f2)
                    },
                    Err(e) => Err(e),
                }
            },
            (Err(e), _) => Err(e),
            (Ok(_), Err(e)) => Err(e),
        }
    }

    /// Applies one resolved operator implementation.
    pub fn apply_operator(
        &mut self,
        ast: &Ast,
        op: AnyOperator,
        a: FruValue,
        b: FruValue,
        fuel: usize,
    ) -> (r: Result<EvalOut, FruError>)
        ensures
            (final(self)@, r) == sx_apply_operator(ast@, old(self)@, op, a, b, fuel as nat),
        decreases fuel,
    {
        if fuel == 0 {
            return Err(FruError::OutOfFuel);
        }
        let f2 = fuel - 1;
        match op {
            AnyOperator::Builtin(bop) => {
                match apply_builtin(bop, a, b) {
                    Ok(v) => Ok(EvalOut::Val(v)),
                    Err(e) => Err(e),
                }
            },
            AnyOperator::User { left_ident, right_ident, body, scope } => {
                let ns = self.push_frame(Some(scope), ScopeBinding::Plain);
                let _ = self.let_variable(ns, left_ident, a);
                let _ = self.let_variable(ns, right_ident, b);
                self.execute_function_body(ast, ns, body, f2)
            },
        }
    }
}

impl Engine {
    /// Executes a type declaration: runs static initializers in order,
    /// allocates the descriptor, binds the type\'s name in the declaring
    /// scope.
    #[verifier::loop_isolation(false)]
    #[verifier::rlimit(60)]
    fn execute_type_statement(
        &mut self,
        ast: &Ast,
        scope: usize,
        type_type: crate::value::TypeFlavor,
        ident: Identifier,
        fields: &Vec<crate::value::FruField>,
        static_fields: &Vec<crate::ast::StaticFieldDecl>,
        watches: &Vec<crate::ast::RawWatch>,
        methods: &Vec<crate::ast::RawMethod>,
        static_methods: &Vec<crate::ast::RawMethod>,
        fuel: usize,
    ) -> (r: Result<Signal, FruError>)
        ensures
            (final(self)@, r) == sx_type_stmt(
                ast@,
                old(self)@,
                scope,
                type_type,
                ident,
                fields@,
                static_fields@,
                watches@.map_values(|w: crate::ast::RawWatch| w@),
                methods@.map_values(|m: crate::ast::RawMethod| m@),
                static_methods@.map_values(|m: crate::ast::RawMethod| m@),
                fuel as nat,
            ),
        decreases fuel,
    {
        if fuel == 0 {
            return Err(FruError::OutOfFuel);
        }
        let f2 = fuel - 1;
        let acc: Vec<FruValue> = Vec::new();
        proof {
            assert(acc@ =~= Seq::<FruValue>::empty());
        }
        match self.evaluate_static_inits(ast, scope, static_fields, 0, acc, f2) {
            Ok(ArgsOut::Vals(vals)) => {
                let ghost st1 = self@;
                let ghost valsv = vals@;
                let ghost declsv = static_fields@;
                let mut statics: Vec<(Identifier, FruValue)> = Vec::new();
                let mut j: usize = 0;
                proof {
                    assert(sx_static_inits(
                        ast@,
                        old(self)@,
                        scope,
                        declsv,
                        0,
                        Seq::empty(),
                        f2 as nat,
                    ).1 == Ok::<ArgsOutV, FruError>(ArgsOutV::Vals(valsv)));
                    lemma_static_inits_len(ast@, old(self)@, scope, declsv, 0, Seq::empty(), f2 as nat);
                }
                while j < static_fields.len() && j < vals.len()
                    invariant
                        0 <= j <= declsv.len(),
                        declsv == static_fields@,
                        valsv == vals@,
                        statics@.len() == j,
                        forall|i: int|
                            0 <= i < j ==> statics@[i] == (declsv[i].field.ident, valsv[i]),
                        j <= valsv.len(),
                    decreases declsv.len() - j,
                {
                    statics.push((static_fields[j].field.ident, vals[j]));
                    j = j + 1;
                }
                if statics.len() != static_fields.len() {
                    // The initializer list always yields one value per
                    // declaration; this branch is unreachable.
                    return Err(FruError::InternalFault);
                }
                proof {
                    assert(statics@ =~= Seq::new(
                        declsv.len(),
                        |i: int| (declsv[i].field.ident, valsv[i]),
                    ));
                }
                let props: Vec<crate::value::Property> = Vec::new();
                let sprops: Vec<crate::value::Property> = Vec::new();
                let tv = crate::value::FruType::new_value(
                    self,
                    ident,
                    type_type,
                    copy_vec(fields),
                    statics,
                    props,
                    sprops,
                    copy_methods(methods),
                    copy_methods(static_methods),
                    copy_watches(watches),
                    scope,
                );
                match tv {
                    FruValue::Type(t) => {
                        match self.let_variable(scope, ident, FruValue::Type(t)) {
                            Ok(()) => Ok(Signal::Normal),
                            Err(e) => Err(e),
                        }
                    },
                    _ => Err(FruError::InternalFault),
                }
            },
            Ok(ArgsOut::Sig(sig)) => Ok(sig),
            Err(e) => Err(e),
        }
    }

    /// Evaluates static field initializers left to right; a declaration
    /// without one contributes the unit value.
    fn evaluate_static_inits(
        &mut self,
        ast: &Ast,
        scope: usize,
        decls: &Vec<crate::ast::StaticFieldDecl>,
        i: usize,
        acc: Vec<FruValue>,
        fuel: usize,
    ) -> (r: Result<ArgsOut, FruError>)
        ensures
            (match r {
                Ok(out) => (final(self)@, Ok::<ArgsOutV, FruError>(out@)) == sx_static_inits(
                    ast@,
                    old(self)@,
                    scope,
                    decls@,
                    i as int,
                    acc@,
                    fuel as nat,
                ),
                Err(e) => (final(self)@, Err::<ArgsOutV, FruError>(e)) == sx_static_inits(
                    ast@,
                    old(self)@,
                    scope,
                    decls@,
                    i as int,
                    acc@,
                    fuel as nat,
                ),
            }),
        decreases fuel,
    {
        if fuel == 0 {
            return Err(FruError::OutOfFuel);
        }
        if i >= decls.len() {
            return Ok(ArgsOut::Vals(acc));
        }
        let f2 = fuel - 1;
        match decls[i].value {
            Some(einit) => {
                match self.evaluate_expression(ast, scope, einit, f2) {
                    Ok(EvalOut::Val(v)) => {
                        let mut acc2 = acc;
                        acc2.push(v);
                        self.evaluate_static_inits(ast, scope, decls, i + 1, acc2, f2)
                    },
                    Ok(EvalOut::Sig(sig)) => Ok(ArgsOut::Sig(sig)),
                    Err(e) => Err(e),
                }
            },
            None => {
                let mut acc2 = acc;
                acc2.push(FruValue::Nah);
                self.evaluate_static_inits(ast, scope, decls, i + 1, acc2, f2)
            },
        }
    }

    /// Member read on a value: static path on a type descriptor, instance
    /// path on an object, variable lookup on a native scope value.
    pub fn value_get_prop(&mut self, ast: &Ast, v: FruValue, ident: Identifier, fuel: usize) -> (r:
        Result<EvalOut, FruError>)
        ensures
            (final(self)@, r) == sx_value_get_prop(ast@, old(self)@, v, ident, fuel as nat),
        decreases fuel,
    {
        if fuel == 0 {
            return Err(FruError::OutOfFuel);
        }
        let f2 = fuel - 1;
        match v {
            FruValue::Type(t) => self.type_get_prop_inner(ast, t.idx, ident, f2),
            FruValue::Object(o) => self.object_get_prop(ast, o.idx, ident, f2),
            FruValue::Native(n) => {
                match self.get_variable(n.scope, ident) {
                    Ok(val) => Ok(EvalOut::Val(val)),
                    Err(e) => Err(e),
                }
            },
            _ => Err(FruError::NotAnObject),
        }
    }

    /// Static member read: static field, then static property getter, then
    /// static method, freshly bound.
    fn type_get_prop_inner(&mut self, ast: &Ast, tidx: usize, ident: Identifier, fuel: usize) -> (r:
        Result<EvalOut, FruError>)
        ensures
            (final(self)@, r) == sx_type_get_prop(ast@, old(self)@, tidx, ident, fuel as nat),
        decreases fuel,
    {
        if fuel == 0 {
            return Err(FruError::OutOfFuel);
        }
        if tidx >= self.types.len() {
            return Err(FruError::InternalFault);
        }
        proof {
            assert(self@.types[tidx as int] == self.types@[tidx as int]@);
        }
        let f2 = fuel - 1;
        match find_in_vars(&self.types[tidx].static_fields, ident) {
            Some(kf) => {
                return Ok(EvalOut::Val(self.types[tidx].static_fields[kf].1));
            },
            None => {},
        }
        match find_prop_in(&self.types[tidx].static_properties, ident) {
            Some(kp) => {
                let getter = self.types[tidx].static_properties[kp].getter;
                match getter {
                    Some(g) => {
                        let tscope = self.types[tidx].scope;
                        let ns = self.push_frame(Some(tscope), ScopeBinding::OfType(tidx));
                        match self.evaluate_expression(ast, ns, g, f2) {
                            Ok(EvalOut::Val(val)) => Ok(EvalOut::Val(val)),
                            Ok(EvalOut::Sig(Signal::Return(val))) => Ok(EvalOut::Val(val)),
                            Ok(EvalOut::Sig(_)) => Err(FruError::ControlEscaped),
                            Err(e) => Err(e),
                        }
                    },
                    None => Err(FruError::NoGetter(ident)),
                }
            },
            None => {
                match find_method_in(&self.types[tidx].static_methods, ident) {
                    Some(km) => {
                        let tscope = self.types[tidx].scope;
                        let params = copy_vec(&self.types[tidx].static_methods[km].args);
                        let body = self.types[tidx].static_methods[km].body;
                        let ns = self.push_frame(Some(tscope), ScopeBinding::OfType(tidx));
                        let ghost st1 = self@;
                        let fidx = self.funcs.len();
                        self.funcs.push(
                            FruFunction::Plain { parameters: params, body, scope: ns },
                        );
                        proof {
                            let mv = old(self)@.types[tidx as int].static_methods[
                                km as int
                            ];
                            assert(self@.funcs =~= st1.funcs.push(
                                FruFunctionV::Plain {
                                    parameters: mv.args,
                                    body: mv.body,
                                    scope: ns,
                                },
                            ));
                            assert(self@ =~= sp_alloc_func(
                                st1,
                                FruFunctionV::Plain {
                                    parameters: mv.args,
                                    body: mv.body,
                                    scope: ns,
                                },
                            ).0);
                        }
                        Ok(EvalOut::Val(FruValue::Function(fidx)))
                    },
                    None => {
                        let owner = self.types[tidx].ident;
                        Err(FruError::PropNotFound { ident, owner })
                    },
                }
            },
        }
    }

    /// Instance member read: property getter, then field, then method,
    /// freshly bound.
    fn object_get_prop(&mut self, ast: &Ast, oidx: usize, ident: Identifier, fuel: usize) -> (r:
        Result<EvalOut, FruError>)
        ensures
            (final(self)@, r) == sx_object_get_prop(ast@, old(self)@, oidx, ident, fuel as nat),
        decreases fuel,
    {
        if fuel == 0 {
            return Err(FruError::OutOfFuel);
        }
        if oidx >= self.objects.len() {
            return Err(FruError::InternalFault);
        }
        let tidx = self.objects[oidx].type_idx;
        if tidx >= self.types.len() {
            return Err(FruError::InternalFault);
        }
        proof {
            assert(self@.objects[oidx as int] == self.objects@[oidx as int]@);
            assert(self@.types[tidx as int] == self.types@[tidx as int]@);
        }
        let f2 = fuel - 1;
        match find_prop_in(&self.types[tidx].properties, ident) {
            Some(kp) => {
                let getter = self.types[tidx].properties[kp].getter;
                match getter {
                    Some(g) => {
                        let tscope = self.types[tidx].scope;
                        let ns = self.push_frame(Some(tscope), ScopeBinding::OfObject(oidx));
                        match self.evaluate_expression(ast, ns, g, f2) {
                            Ok(EvalOut::Val(val)) => Ok(EvalOut::Val(val)),
                            Ok(EvalOut::Sig(Signal::Return(val))) => Ok(EvalOut::Val(val)),
                            Ok(EvalOut::Sig(_)) => Err(FruError::ControlEscaped),
                            Err(e) => Err(e),
                        }
                    },
                    None => Err(FruError::NoGetter(ident)),
                }
            },
            None => {
                match find_field_in(&self.types[tidx].fields, ident) {
                    Some(kf) => {
                        if kf < self.objects[oidx].fields.len() {
                            Ok(EvalOut::Val(self.objects[oidx].fields[kf]))
                        } else {
                            Err(FruError::InternalFault)
                        }
                    },
                    None => {
                        match find_method_in(&self.types[tidx].methods, ident) {
                            Some(km) => {
                                let tscope = self.types[tidx].scope;
                                let params = copy_vec(&self.types[tidx].methods[km].args);
                                let body = self.types[tidx].methods[km].body;
                                let ns = self.push_frame(
                                    Some(tscope),
                                    ScopeBinding::OfObject(oidx),
                                );
                                let ghost st1 = self@;
                                let fidx = self.funcs.len();
                                self.funcs.push(
                                    FruFunction::Plain { parameters: params, body, scope: ns },
                                );
                                proof {
                                    let mv = old(self)@.types[tidx as int].methods[km as int];
                                    assert(self@.funcs =~= st1.funcs.push(
                                        FruFunctionV::Plain {
                                            parameters: mv.args,
                                            body: mv.body,
                                            scope: ns,
                                        },
                                    ));
                                    assert(self@ =~= sp_alloc_func(
                                        st1,
                                        FruFunctionV::Plain {
                                            parameters: mv.args,
                                            body: mv.body,
                                            scope: ns,
                                        },
                                    ).0);
                                }
                                Ok(EvalOut::Val(FruValue::Function(fidx)))
                            },
                            None => {
                                let owner = self.types[tidx].ident;
                                Err(FruError::PropNotFound { ident, owner })
                            },
                        }
                    },
                }
            },
        }
    }

    /// Member write on a value: static path on a type descriptor, instance
    /// path on an object, variable write on a native scope value.
    pub fn value_set_prop(
        &mut self,
        ast: &Ast,
        target: FruValue,
        ident: Identifier,
        v: FruValue,
        fuel: usize,
    ) -> (r: Result<Signal, FruError>)
        ensures
            (final(self)@, r) == sx_value_set_prop(ast@, old(self)@, target, ident, v, fuel as nat),
        decreases fuel,
    {
        if fuel == 0 {
            return Err(FruError::OutOfFuel);
        }
        let f2 = fuel - 1;
        match target {
            FruValue::Type(t) => self.type_set_prop_inner(ast, t.idx, ident, v, f2),
            FruValue::Object(o) => self.object_set_prop(ast, o.idx, ident, v, f2),
            FruValue::Native(n) => {
                match self.let_set_variable(n.scope, ident, v) {
                    Ok(()) => Ok(Signal::Normal),
                    Err(e) => Err(e),
                }
            },
            _ => Err(FruError::NotAnObject),
        }
    }

    /// Static member write: static field, then static property setter.
    fn type_set_prop_inner(
        &mut self,
        ast: &Ast,
        tidx: usize,
        ident: Identifier,
        v: FruValue,
        fuel: usize,
    ) -> (r: Result<Signal, FruError>)
        ensures
            (final(self)@, r) == sx_type_set_prop(ast@, old(self)@, tidx, ident, v, fuel as nat),
        decreases fuel,
    {
        if fuel == 0 {
            return Err(FruError::OutOfFuel);
        }
        if tidx >= self.types.len() {
            return Err(FruError::InternalFault);
        }
        proof {
            assert(self@.types[tidx as int] == self.types@[tidx as int]@);
        }
        let f2 = fuel - 1;
        let ghost st0 = self@;
        match find_in_vars(&self.types[tidx].static_fields, ident) {
            Some(kf) => {
                self.types[tidx].static_fields[kf] = (ident, v);
                proof {
                    let t = st0.types[tidx as int];
                    let t2 = crate::engine::TypeDataV {
                        static_fields: t.static_fields.update(kf as int, (ident, v)),
                        ..t
                    };
                    assert(self@.types =~= st0.types.update(tidx as int, t2));
                    assert(self@ =~= StateV { types: st0.types.update(tidx as int, t2), ..st0 });
                }
                return Ok(Signal::Normal);
            },
            None => {},
        }
        match find_prop_in(&self.types[tidx].static_properties, ident) {
            Some(kp) => {
                let setter = self.types[tidx].static_properties[kp].setter;
                match setter {
                    Some((pname, sbody)) => {
                        let tscope = self.types[tidx].scope;
                        let ns = self.push_frame(Some(tscope), ScopeBinding::OfType(tidx));
                        let _ = self.let_variable(ns, pname, v);
                        match self.execute_statement(ast, ns, sbody, f2) {
                            Ok(Signal::Normal) => Ok(Signal::Normal),
                            Ok(Signal::Return(_)) => Ok(Signal::Normal),
                            Ok(_) => Err(FruError::ControlEscaped),
                            Err(e) => Err(e),
                        }
                    },
                    None => Err(FruError::NoSetter(ident)),
                }
            },
            None => {
                let owner = self.types[tidx].ident;
                Err(FruError::PropNotFound { ident, owner })
            },
        }
    }

    /// Instance member write: property setter, then field.
    fn object_set_prop(
        &mut self,
        ast: &Ast,
        oidx: usize,
        ident: Identifier,
        v: FruValue,
        fuel: usize,
    ) -> (r: Result<Signal, FruError>)
        ensures
            (final(self)@, r) == sx_object_set_prop(ast@, old(self)@, oidx, ident, v, fuel as nat),
        decreases fuel,
    {
        if fuel == 0 {
            return Err(FruError::OutOfFuel);
        }
        if oidx >= self.objects.len() {
            return Err(FruError::InternalFault);
        }
        let tidx = self.objects[oidx].type_idx;
        if tidx >= self.types.len() {
            return Err(FruError::InternalFault);
        }
        proof {
            assert(self@.objects[oidx as int] == self.objects@[oidx as int]@);
            assert(self@.types[tidx as int] == self.types@[tidx as int]@);
        }
        let f2 = fuel - 1;
        let ghost st0 = self@;
        match find_prop_in(&self.types[tidx].properties, ident) {
            Some(kp) => {
                let setter = self.types[tidx].properties[kp].setter;
                match setter {
                    Some((pname, sbody)) => {
                        let tscope = self.types[tidx].scope;
                        let ns = self.push_frame(Some(tscope), ScopeBinding::OfObject(oidx));
                        let _ = self.let_variable(ns, pname, v);
                        match self.execute_statement(ast, ns, sbody, f2) {
                            Ok(Signal::Normal) => Ok(Signal::Normal),
                            Ok(Signal::Return(_)) => Ok(Signal::Normal),
                            Ok(_) => Err(FruError::ControlEscaped),
                            Err(e) => Err(e),
                        }
                    },
                    None => Err(FruError::NoSetter(ident)),
                }
            },
            None => {
                match find_field_in(&self.types[tidx].fields, ident) {
                    Some(kf) => {
                        if kf < self.objects[oidx].fields.len() {
                            self.objects[oidx].fields[kf] = v;
                            proof {
                                let o = st0.objects[oidx as int];
                                let o2 = crate::engine::ObjectDataV {
                                    fields: o.fields.update(kf as int, v),
                                    ..o
                                };
                                assert(self@.objects =~= st0.objects.update(oidx as int, o2));
                                assert(self@ =~= StateV {
                                    objects: st0.objects.update(oidx as int, o2),
                                    ..st0
                                });
                            }
                            Ok(Signal::Normal)
                        } else {
                            Err(FruError::InternalFault)
                        }
                    },
                    None => {
                        let owner = self.types[tidx].ident;
                        Err(FruError::PropNotFound { ident, owner })
                    },
                }
            },
        }
    }
}

/// The initializer list yields exactly one value per declaration.
pub proof fn lemma_static_inits_len(
    ast: AstV,
    st: StateV,
    scope: usize,
    decls: Seq<crate::ast::StaticFieldDecl>,
    i: int,
    acc: Seq<FruValue>,
    fuel: nat,
)
    requires
        0 <= i <= decls.len(),
    ensures
        (match sx_static_inits(ast, st, scope, decls, i, acc, fuel).1 {
            Ok(ArgsOutV::Vals(vals)) => vals.len() == acc.len() + (decls.len() - i),
            _ => true,
        }),
    decreases fuel,
{
    if fuel > 0 && i < decls.len() {
        let f2 = (fuel - 1) as nat;
        match decls[i].value {
            Some(einit) => {
                let (st1, r) = sx_expr(ast, st, scope, einit, f2);
                match r {
                    Ok(EvalOut::Val(v)) => {
                        lemma_static_inits_len(ast, st1, scope, decls, i + 1, acc.push(v), f2);
                    },
                    _ => {},
                }
            },
            None => {
                lemma_static_inits_len(ast, st, scope, decls, i + 1, acc.push(FruValue::Nah), f2);
            },
        }
    }
}

impl crate::value::FruType {
    /// Static member read on this type: static field, static property
    /// getter, or static method, in that order.
    pub fn get_prop(&self, e: &mut Engine, ast: &Ast, ident: Identifier, fuel: usize) -> (r:
        Result<EvalOut, FruError>)
        ensures
            (final(e)@, r) == sx_type_get_prop(ast@, old(e)@, self.idx, ident, fuel as nat),
    {
        if fuel == 0 {
            return Err(FruError::OutOfFuel);
        }
        e.type_get_prop_inner(ast, self.idx, ident, fuel)
    }

    /// Static member write on this type: static field, else static
    /// property setter.
    pub fn set_prop(
        &self,
        e: &mut Engine,
        ast: &Ast,
        ident: Identifier,
        value: FruValue,
        fuel: usize,
    ) -> (r: Result<Signal, FruError>)
        ensures
            (final(e)@, r) == sx_type_set_prop(ast@, old(e)@, self.idx, ident, value, fuel as nat),
    {
        if fuel == 0 {
            return Err(FruError::OutOfFuel);
        }
        e.type_set_prop_inner(ast, self.idx, ident, value, fuel)
    }
}

impl crate::native::BuiltinScopeInstance {
    /// The native value\'s reported type: the built-in native-object
    /// descriptor.
    pub fn get_type(&self) -> (r: FruValue)
        ensures
            r == FruValue::Type((crate::value::FruType { idx: 6 })),
    {
        FruValue::Type(crate::value::FruType { idx: 6 })
    }

    /// Property read: variable lookup in the captured scope.
    pub fn get_prop(&self, e: &Engine, ident: Identifier) -> (r: Result<FruValue, FruError>)
        ensures
            r == sp_get_var(e@, self.scope, ident),
    {
        e.get_variable(self.scope, ident)
    }

    /// Property write: sets the variable wherever the chain binds it, else
    /// declares it in the captured scope.
    pub fn set_prop(&self, e: &mut Engine, ident: Identifier, value: FruValue) -> (r: Result<
        (),
        FruError,
    >)
        ensures
            (final(e)@, r) == sp_let_set_var(old(e)@, self.scope, ident, value),
    {
        e.let_set_variable(self.scope, ident, value)
    }
}

/// The operator table a host installs on the built-in number descriptor:
/// the arithmetic and comparison operators on number pairs.
pub open spec fn numeric_op_entries() -> Seq<crate::engine::OpEntry> {
    seq![
        num_entry(crate::identifier::id_plus(), BuiltinOp::NumPlus),
        num_entry(crate::identifier::id_minus(), BuiltinOp::NumMinus),
        num_entry(crate::identifier::id_multiply(), BuiltinOp::NumMultiply),
        num_entry(crate::identifier::id_divide(), BuiltinOp::NumDivide),
        num_entry(crate::identifier::id_mod(), BuiltinOp::NumMod),
        num_entry(crate::identifier::id_less(), BuiltinOp::NumLess),
        num_entry(crate::identifier::id_less_eq(), BuiltinOp::NumLessEq),
        num_entry(crate::identifier::id_greater(), BuiltinOp::NumGreater),
        num_entry(crate::identifier::id_greater_eq(), BuiltinOp::NumGreaterEq),
        num_entry(crate::identifier::id_eq(), BuiltinOp::NumEq),
        num_entry(crate::identifier::id_not_eq(), BuiltinOp::NumNotEq),
    ]
}

/// One entry keyed (operator, Number, Number).
pub open spec fn num_entry(opk: int, bop: BuiltinOp) -> crate::engine::OpEntry {
    crate::engine::OpEntry {
        key: crate::identifier::OperatorIdentifier {
            op: identifier_of(opk),
            left: identifier_of(id_number()),
            right: identifier_of(id_number()),
        },
        commutative: false,
        op: AnyOperator::Builtin(bop),
    }
}

/// The operator table a host installs on the built-in boolean descriptor.
pub open spec fn bool_op_entries() -> Seq<crate::engine::OpEntry> {
    seq![
        bool_entry(crate::identifier::id_and(), BuiltinOp::BoolAnd),
        bool_entry(crate::identifier::id_or(), BuiltinOp::BoolOr),
    ]
}

/// One entry keyed (operator, Bool, Bool).
pub open spec fn bool_entry(opk: int, bop: BuiltinOp) -> crate::engine::OpEntry {
    crate::engine::OpEntry {
        key: crate::identifier::OperatorIdentifier {
            op: identifier_of(opk),
            left: identifier_of(id_bool()),
            right: identifier_of(id_bool()),
        },
        commutative: false,
        op: AnyOperator::Builtin(bop),
    }
}

impl Engine {
    /// Installs the standard numeric and boolean operators on the built-in
    /// number and boolean descriptors, as ordinary operator-table entries.
    /// The engine itself never hard-codes them: binary evaluation only ever
    /// consults the tables.
    pub fn install_builtin_operators(&mut self)
        requires
            old(self)@.types.len() > 2,
            old(self)@.types[1].operators == Seq::<crate::engine::OpEntry>::empty(),
            old(self)@.types[2].operators == Seq::<crate::engine::OpEntry>::empty(),
        ensures
            final(self)@.types[1] == (crate::engine::TypeDataV {
                operators: numeric_op_entries(),
                ..old(self)@.types[1]
            }),
            final(self)@.types[2] == (crate::engine::TypeDataV {
                operators: bool_op_entries(),
                ..old(self)@.types[2]
            }),
            final(self)@.types.len() == old(self)@.types.len(),
            forall|j: int|
                0 <= j < old(self)@.types.len() && j != 1 && j != 2 ==> final(self)@.types[j]
                    == old(self)@.types[j],
            final(self)@ == (StateV { types: final(self)@.types, ..old(self)@ }),
    {
        let ghost st0 = self@;
        let num = Identifier::for_number();
        let boo = Identifier::for_bool();
        proof {
            lemma_identifier_of(num);
            lemma_identifier_of(boo);
        }
        let mut nops: Vec<crate::engine::OpEntry> = Vec::new();
        nops.push(self.num_op(Identifier::for_plus(), BuiltinOp::NumPlus, num));
        nops.push(self.num_op(Identifier::for_minus(), BuiltinOp::NumMinus, num));
        nops.push(self.num_op(Identifier::for_multiply(), BuiltinOp::NumMultiply, num));
        nops.push(self.num_op(Identifier::for_divide(), BuiltinOp::NumDivide, num));
        nops.push(self.num_op(Identifier::for_mod(), BuiltinOp::NumMod, num));
        nops.push(self.num_op(Identifier::for_less(), BuiltinOp::NumLess, num));
        nops.push(self.num_op(Identifier::for_less_eq(), BuiltinOp::NumLessEq, num));
        nops.push(self.num_op(Identifier::for_greater(), BuiltinOp::NumGreater, num));
        nops.push(self.num_op(Identifier::for_greater_eq(), BuiltinOp::NumGreaterEq, num));
        nops.push(self.num_op(Identifier::for_eq(), BuiltinOp::NumEq, num));
        nops.push(self.num_op(Identifier::for_not_eq(), BuiltinOp::NumNotEq, num));
        let mut bops: Vec<crate::engine::OpEntry> = Vec::new();
        bops.push(self.num_op(Identifier::for_and(), BuiltinOp::BoolAnd, boo));
        bops.push(self.num_op(Identifier::for_or(), BuiltinOp::BoolOr, boo));
        proof {
            assert forall|a: Identifier| true implies #[trigger] identifier_of(a@) == a by {
                lemma_identifier_of(a);
            }
            assert(nops@ =~= numeric_op_entries());
            assert(bops@ =~= bool_op_entries());
        }
        self.types[1].operators = nops;
        self.types[2].operators = bops;
        proof {
            let t1 = crate::engine::TypeDataV { operators: numeric_op_entries(), ..st0.types[1] };
            let t2 = crate::engine::TypeDataV { operators: bool_op_entries(), ..st0.types[2] };
            assert(self@.types =~= st0.types.update(1, t1).update(2, t2));
            assert(self@ =~= StateV { types: self@.types, ..st0 });
        }
    }

    /// Builds one operator-table entry on the given type symbol pair.
    fn num_op(&self, opid: Identifier, bop: BuiltinOp, sym: Identifier) -> (r:
        crate::engine::OpEntry)
        ensures
            r == (crate::engine::OpEntry {
                key: crate::identifier::OperatorIdentifier { op: opid, left: sym, right: sym },
                commutative: false,
                op: AnyOperator::Builtin(bop),
            }),
    {
        crate::engine::OpEntry {
            key: crate::identifier::OperatorIdentifier { op: opid, left: sym, right: sym },
            commutative: false,
            op: AnyOperator::Builtin(bop),
        }
    }
}

/// A while loop whose body raises break ends right there, normally: the
/// state is the one the body left, and nothing after the break in that
/// iteration, nor any later check of the condition, is ever executed or
/// consulted.
pub proof fn lemma_while_break(
    ast: AstV,
    st: StateV,
    scope: usize,
    cond: usize,
    body: usize,
    fuel: nat,
    st1: StateV,
    st2: StateV,
)
    requires
        fuel > 0,
        sx_expr(ast, st, scope, cond, (fuel - 1) as nat) == (
            st1,
            Ok::<EvalOut, FruError>(EvalOut::Val(FruValue::Bool(true))),
        ),
        sx_stmt(ast, st1, scope, body, (fuel - 1) as nat) == (
            st2,
            Ok::<Signal, FruError>(Signal::Break),
        ),
    ensures
        sx_while(ast, st, scope, cond, body, fuel) == (
            st2,
            Ok::<Signal, FruError>(Signal::Normal),
        ),
{
}

/// A while loop whose body raises continue skips to the next check of the
/// condition: the loop goes on exactly as a fresh loop from the state the
/// body left.
pub proof fn lemma_while_continue(
    ast: AstV,
    st: StateV,
    scope: usize,
    cond: usize,
    body: usize,
    fuel: nat,
    st1: StateV,
    st2: StateV,
)
    requires
        fuel > 0,
        sx_expr(ast, st, scope, cond, (fuel - 1) as nat) == (
            st1,
            Ok::<EvalOut, FruError>(EvalOut::Val(FruValue::Bool(true))),
        ),
        sx_stmt(ast, st1, scope, body, (fuel - 1) as nat) == (
            st2,
            Ok::<Signal, FruError>(Signal::Continue),
        ),
    ensures
        sx_while(ast, st, scope, cond, body, fuel) == sx_while(
            ast,
            st2,
            scope,
            cond,
            body,
            (fuel - 1) as nat,
        ),
{
}

/// A statement of a list that raises a non-normal signal stops the list at
/// once: the statements after it are never executed, and the signal and the
/// state at that point are the list\'s result.
pub proof fn lemma_stmt_list_stops(
    ast: AstV,
    st: StateV,
    scope: usize,
    body: Seq<usize>,
    i: int,
    fuel: nat,
    st1: StateV,
    sig: Signal,
)
    requires
        fuel > 0,
        0 <= i < body.len(),
        sx_stmt(ast, st, scope, body[i], (fuel - 1) as nat) == (
            st1,
            Ok::<Signal, FruError>(sig),
        ),
        sig != Signal::Normal,
    ensures
        sx_stmt_list(ast, st, scope, body, i, fuel) == (st1, Ok::<Signal, FruError>(sig)),
{
}

/// A block statement whose statements raise a return propagates that
/// return as its own result, in the state the return was raised in.
pub proof fn lemma_block_propagates_return(
    ast: AstV,
    st: StateV,
    scope: usize,
    sidx: usize,
    b: Seq<usize>,
    fuel: nat,
    stR: StateV,
    v: FruValue,
)
    requires
        fuel > 0,
        sidx < ast.stmts.len(),
        ast.stmts[sidx as int] == (StmtNodeV::Block { body: b }),
        ({
            let (stA, nsA) = sp_push_frame(st, Some(scope), ScopeBinding::Plain);
            sx_stmt_list(ast, stA, nsA, b, 0, (fuel - 1) as nat) == (
                stR,
                Ok::<Signal, FruError>(Signal::Return(v)),
            )
        }),
    ensures
        sx_stmt(ast, st, scope, sidx, fuel) == (stR, Ok::<Signal, FruError>(Signal::Return(v))),
{
}

/// A return raised inside two nested blocks rides out through both: the
/// outer block\'s result is that same return, in the state the return was
/// raised in, so nothing that follows the return in either block ever
/// executes.
pub proof fn lemma_return_through_two_blocks(
    ast: AstV,
    st: StateV,
    scope: usize,
    outer: usize,
    ob: Seq<usize>,
    ib: Seq<usize>,
    v: FruValue,
    stR: StateV,
    fuel: nat,
)
    requires
        fuel >= 3,
        outer < ast.stmts.len(),
        ast.stmts[outer as int] == (StmtNodeV::Block { body: ob }),
        ob.len() > 0,
        ob[0] < ast.stmts.len(),
        ast.stmts[ob[0] as int] == (StmtNodeV::Block { body: ib }),
        ({
            let (stA, nsA) = sp_push_frame(st, Some(scope), ScopeBinding::Plain);
            let (stB, nsB) = sp_push_frame(stA, Some(nsA), ScopeBinding::Plain);
            sx_stmt_list(ast, stB, nsB, ib, 0, (fuel - 3) as nat) == (
                stR,
                Ok::<Signal, FruError>(Signal::Return(v)),
            )
        }),
    ensures
        sx_stmt(ast, st, scope, outer, fuel) == (
            stR,
            Ok::<Signal, FruError>(Signal::Return(v)),
        ),
{
    let (stA, nsA) = sp_push_frame(st, Some(scope), ScopeBinding::Plain);
    let (stB, nsB) = sp_push_frame(stA, Some(nsA), ScopeBinding::Plain);
    lemma_block_propagates_return(ast, stA, nsA, ob[0], ib, (fuel - 2) as nat, stR, v);
    lemma_stmt_list_stops(
        ast,
        stA,
        nsA,
        ob,
        0,
        (fuel - 1) as nat,
        stR,
        Signal::Return(v),
    );
}

/// Mutating a name that no frame on the chain binds fails with exactly
/// `UndefinedVariable`, and the state is untouched; with the name bound
/// anywhere on the chain, the mutation succeeds.
pub proof fn lemma_setvar_undefined(
    ast: AstV,
    st: StateV,
    scope: usize,
    sidx: usize,
    ident: Identifier,
    value: usize,
    fuel: nat,
    st1: StateV,
    v: FruValue,
)
    requires
        fuel > 0,
        sidx < ast.stmts.len(),
        ast.stmts[sidx as int] == (StmtNodeV::SetVar { ident, value }),
        sx_expr(ast, st, scope, value, (fuel - 1) as nat) == (
            st1,
            Ok::<EvalOut, FruError>(EvalOut::Val(v)),
        ),
        scope < st1.scopes.len(),
        crate::engine::sp_parents_below(st1.scopes),
    ensures
        !crate::engine::sp_chain_has(st1, scope, ident) ==> sx_stmt(ast, st, scope, sidx, fuel)
            == (st1, Err::<Signal, FruError>(FruError::UndefinedVariable(ident))),
        crate::engine::sp_chain_has(st1, scope, ident) ==> sx_stmt(ast, st, scope, sidx, fuel).1
            == Ok::<Signal, FruError>(Signal::Normal),
{
    crate::engine::lemma_set_undefined(st1, scope, ident, v);
}

/// Declaring a name with let touches only the innermost frame: every other
/// frame keeps its bindings, so an outer binding of the same name is only
/// shadowed, never changed.
pub proof fn lemma_let_scope_local(
    st: StateV,
    scope: usize,
    ident: Identifier,
    v: FruValue,
)
    requires
        scope < st.scopes.len(),
    ensures
        forall|j: int|
            0 <= j < st.scopes.len() && j != scope ==> sp_let_var(st, scope, ident, v).0.scopes[j]
                == st.scopes[j],
        sp_let_var(st, scope, ident, v).0.scopes.len() == st.scopes.len(),
        sp_let_var(st, scope, ident, v).1 is Ok,
{
}

} // verus!
