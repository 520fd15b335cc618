//! The type checker: cross-operand compatibility, decided while parsing,
//! before any translation. A failure is reported at the operator token's
//! position with the operator's fixed message.

use vstd::prelude::*;
use crate::ast::{binop_type_ok, spec_type_of, unary_type_ok, BinopKind, Expr, Type, UnaryKind};
use crate::diag::{binop_err_message, binop_err_msg, unary_err_message, unary_err_msg, DiagKind,
    Diagnostic};
use crate::token::Position;

verus! {

/// The comparison rule: both arms of one type, or a type error with the
/// given message at the given (operator token) position.
pub fn expression_arms_of_same_type(l: &Expr, r: &Expr, pos: Position, error: String) -> (res:
    Result<(), Diagnostic>)
    ensures
        res matches Result::Ok(_) <==> spec_type_of(l@) == spec_type_of(r@),
        res matches Result::Err(d) ==> d.kind == DiagKind::TypeError && d.message@ == error@
            && d.pos == pos,
{
    if l.get_type() == r.get_type() {
        Ok(())
    } else {
        Err(Diagnostic { kind: DiagKind::TypeError, message: error, pos })
    }
}

/// The whole compatibility rule of a binary operator, exactly as
/// `binop_type_ok` states it, failing with the operator's fixed message at
/// the operator token's position.
pub fn check_binop(k: BinopKind, l: &Expr, r: &Expr, pos: Position) -> (res: Result<
    (),
    Diagnostic,
>)
    ensures
        res matches Result::Ok(_) <==> binop_type_ok(k, spec_type_of(l@), spec_type_of(r@)),
        res matches Result::Err(d) ==> d.kind == DiagKind::TypeError && d.message@
            == binop_err_msg(k) && d.pos == pos,
{
    let is_cmp = match k {
        BinopKind::Equal | BinopKind::NotEqual | BinopKind::Less | BinopKind::LessEqual
            | BinopKind::Greater | BinopKind::GreaterEqual => true,
        _ => false,
    };
    if is_cmp {
        expression_arms_of_same_type(l, r, pos, binop_err_message(k))
    } else {
        let is_arith_op = match k {
            BinopKind::Add | BinopKind::Sub | BinopKind::Mul | BinopKind::Div
                | BinopKind::Modulo => true,
            _ => false,
        };
        let wanted = if is_arith_op {
            Type::Num
        } else {
            Type::Bool
        };
        if l.get_type() == wanted && r.get_type() == wanted {
            Ok(())
        } else {
            Err(Diagnostic { kind: DiagKind::TypeError, message: binop_err_message(k), pos })
        }
    }
}

/// The compatibility rule of a unary operator.
pub fn check_unary(k: UnaryKind, x: &Expr, pos: Position) -> (res: Result<(), Diagnostic>)
    ensures
        res matches Result::Ok(_) <==> unary_type_ok(k, spec_type_of(x@)),
        res matches Result::Err(d) ==> d.kind == DiagKind::TypeError && d.message@
            == unary_err_msg(k) && d.pos == pos,
{
    let wanted = match k {
        UnaryKind::Not => Type::Bool,
        UnaryKind::Neg => Type::Num,
    };
    if x.get_type() == wanted {
        Ok(())
    } else {
        Err(Diagnostic { kind: DiagKind::TypeError, message: unary_err_message(k), pos })
    }
}

} // verus!
