//! The meaning of a source expression: a ghost value domain and a recursive
//! evaluator. Division and modulo follow the shell's arithmetic, which
//! truncates toward zero; a zero divisor is given a fixed placeholder result
//! here, and every claim about generated code excludes that case.

use vstd::prelude::*;
use crate::ast::{BinopKind, SExpr, UnaryKind};

verus! {

/// A ghost value of the language: a mathematical integer, a character
/// sequence, or a boolean.
pub enum Value {
    Num(int),
    Text(Seq<char>),
    Bool(bool),
}

/// The numeric content of a value; zero on the domains that carry none.
pub open spec fn num_of(v: Value) -> int {
    match v {
        Value::Num(n) => n,
        _ => 0,
    }
}

/// The boolean content of a value; false on the domains that carry none.
pub open spec fn bool_of(v: Value) -> bool {
    match v {
        Value::Bool(b) => b,
        _ => false,
    }
}

/// The integer a sequence of decimal digits spells.
pub open spec fn dec_val(s: Seq<char>) -> int
    decreases s.len(),
{
    if s.len() == 0 {
        0
    } else {
        dec_val(s.drop_last()) * 10 + (s.last() as u32 - 48)
    }
}

/// Division truncating toward zero, as shell arithmetic divides; a zero
/// divisor yields the placeholder zero.
pub open spec fn tdiv(a: int, b: int) -> int {
    if b == 0 {
        0
    } else if (a < 0) == (b < 0) {
        abs_of(a) / abs_of(b)
    } else {
        -(abs_of(a) / abs_of(b))
    }
}

/// The remainder matching `tdiv`.
pub open spec fn tmod(a: int, b: int) -> int {
    a - b * tdiv(a, b)
}

pub open spec fn abs_of(a: int) -> int {
    if a < 0 {
        -a
    } else {
        a
    }
}

/// One as true, zero as false: how both the language's comparisons and the
/// shell's arithmetic tests report a truth value.
pub open spec fn int_of_bool(b: bool) -> int {
    if b {
        1
    } else {
        0
    }
}

/// The language's own meaning of each binary operator, on already evaluated
/// operands. Comparisons other than equality read their operands as numbers.
pub open spec fn binop_eval(k: BinopKind, l: Value, r: Value) -> Value {
    match k {
        BinopKind::Equal => Value::Bool(l == r),
        BinopKind::NotEqual => Value::Bool(l != r),
        BinopKind::Less => Value::Bool(num_of(l) < num_of(r)),
        BinopKind::LessEqual => Value::Bool(num_of(l) <= num_of(r)),
        BinopKind::Greater => Value::Bool(num_of(l) > num_of(r)),
        BinopKind::GreaterEqual => Value::Bool(num_of(l) >= num_of(r)),
        BinopKind::Add => Value::Num(num_of(l) + num_of(r)),
        BinopKind::Sub => Value::Num(num_of(l) - num_of(r)),
        BinopKind::Mul => Value::Num(num_of(l) * num_of(r)),
        BinopKind::Div => Value::Num(tdiv(num_of(l), num_of(r))),
        BinopKind::Modulo => Value::Num(tmod(num_of(l), num_of(r))),
        BinopKind::And => Value::Bool(bool_of(l) && bool_of(r)),
        BinopKind::Or => Value::Bool(bool_of(l) || bool_of(r)),
    }
}

/// The value an expression denotes in the source language.
pub open spec fn eval(e: SExpr) -> Value
    decreases e,
{
    match e {
        SExpr::Num(s) => Value::Num(dec_val(s)),
        SExpr::Text(s) => Value::Text(s),
        SExpr::Bool(b) => Value::Bool(b),
        SExpr::Unary(k, x) => match k {
            UnaryKind::Not => Value::Bool(!bool_of(eval(*x))),
            UnaryKind::Neg => Value::Num(-num_of(eval(*x))),
        },
        SExpr::Binop(k, l, r) => binop_eval(k, eval(*l), eval(*r)),
    }
}

/// No ordering operator stands over text operands. Ordering routes through
/// the shell's numeric comparison, so correctness is claimed for numbers.
pub open spec fn orderings_numeric(e: SExpr) -> bool
    decreases e,
{
    match e {
        SExpr::Unary(_, x) => orderings_numeric(*x),
        SExpr::Binop(k, l, r) => orderings_numeric(*l) && orderings_numeric(*r)
            && ((k matches (BinopKind::Less | BinopKind::LessEqual | BinopKind::Greater
            | BinopKind::GreaterEqual)) ==> crate::ast::spec_type_of(*l) == crate::ast::Type::Num),
        _ => true,
    }
}

/// Every division and modulo meets a nonzero divisor, so the shell's
/// arithmetic is defined wherever the tree computes.
pub open spec fn divisions_defined(e: SExpr) -> bool
    decreases e,
{
    match e {
        SExpr::Unary(_, x) => divisions_defined(*x),
        SExpr::Binop(k, l, r) => divisions_defined(*l) && divisions_defined(*r)
            && ((k matches (BinopKind::Div | BinopKind::Modulo)) ==> num_of(eval(*r)) != 0),
        _ => true,
    }
}

} // verus!
