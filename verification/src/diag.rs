//! Diagnostics: a message and a source position. A grammar failure is a
//! syntax error; an operand incompatibility is a type error, reported at the
//! operator token's position. Every message is pinned down exactly.

use vstd::prelude::*;
use vstd::string::StringExecFns;
use crate::ast::{BinopKind, UnaryKind};
use crate::token::Position;

verus! {

/// The two failure kinds this core can signal.
#[derive(Debug, Clone, Copy, PartialEq, Eq, Structural)]
pub enum DiagKind {
    SyntaxError,
    TypeError,
}

/// One failure: its kind, its message, and the position it is reported at.
#[derive(Debug, Clone)]
pub struct Diagnostic {
    pub kind: DiagKind,
    pub message: String,
    pub pos: Position,
}

/// The fixed message of each binary operator's type rule.
pub open spec fn binop_err_msg(k: BinopKind) -> Seq<char> {
    match k {
        BinopKind::Equal | BinopKind::NotEqual | BinopKind::Less | BinopKind::LessEqual
            | BinopKind::Greater | BinopKind::GreaterEqual
            => "Cannot compare two values of different types"@,
        BinopKind::Add => "Cannot add two values that are not numbers"@,
        BinopKind::Sub => "Cannot subtract two values that are not numbers"@,
        BinopKind::Mul => "Cannot multiply two values that are not numbers"@,
        BinopKind::Div => "Cannot divide two values that are not numbers"@,
        BinopKind::Modulo => "Cannot compute the modulo of two values that are not numbers"@,
        BinopKind::And => "Cannot perform logical conjunction on two values that are not booleans"@,
        BinopKind::Or => "Cannot perform logical disjunction on two values that are not booleans"@,
    }
}

/// The fixed message of each unary operator's type rule.
pub open spec fn unary_err_msg(k: UnaryKind) -> Seq<char> {
    match k {
        UnaryKind::Not => "Cannot negate a value that is not a boolean"@,
        UnaryKind::Neg => "Cannot negate a value that is not a number"@,
    }
}

/// The message of a mismatched token: the expected spelling and the found one.
pub open spec fn expected_token_msg(expected: Seq<char>, found: Seq<char>) -> Seq<char> {
    "Expected token '"@ + expected + "' but found '"@ + found + "'"@
}

/// The message of a token expected past the end of the stream.
pub open spec fn expected_token_eof_msg(expected: Seq<char>) -> Seq<char> {
    "Expected token '"@ + expected + "' but found the end of the expression"@
}

/// The message of an operand expected where an unusable token stands.
pub open spec fn expected_expr_msg(found: Seq<char>) -> Seq<char> {
    "Expected an expression but found '"@ + found + "'"@
}

/// The message of an operand expected past the end of the stream.
pub open spec fn expected_expr_eof_msg() -> Seq<char> {
    "Expected an expression but found the end of the expression"@
}

/// The message of a token left over after a complete expression.
pub open spec fn leftover_msg(found: Seq<char>) -> Seq<char> {
    "Unexpected token '"@ + found + "'"@
}

pub fn binop_err_message(k: BinopKind) -> (r: String)
    ensures
        r@ == binop_err_msg(k),
{
    match k {
        BinopKind::Equal | BinopKind::NotEqual | BinopKind::Less | BinopKind::LessEqual
            | BinopKind::Greater | BinopKind::GreaterEqual
            => String::from_str("Cannot compare two values of different types"),
        BinopKind::Add => String::from_str("Cannot add two values that are not numbers"),
        BinopKind::Sub => String::from_str("Cannot subtract two values that are not numbers"),
        BinopKind::Mul => String::from_str("Cannot multiply two values that are not numbers"),
        BinopKind::Div => String::from_str("Cannot divide two values that are not numbers"),
        BinopKind::Modulo => String::from_str(
            "Cannot compute the modulo of two values that are not numbers",
        ),
        BinopKind::And => String::from_str(
            "Cannot perform logical conjunction on two values that are not booleans",
        ),
        BinopKind::Or => String::from_str(
            "Cannot perform logical disjunction on two values that are not booleans",
        ),
    }
}

pub fn unary_err_message(k: UnaryKind) -> (r: String)
    ensures
        r@ == unary_err_msg(k),
{
    match k {
        UnaryKind::Not => String::from_str("Cannot negate a value that is not a boolean"),
        UnaryKind::Neg => String::from_str("Cannot negate a value that is not a number"),
    }
}

pub fn expected_token_message(expected: &str, found: &str) -> (r: String)
    ensures
        r@ == expected_token_msg(expected@, found@),
{
    let mut r = String::from_str("Expected token '");
    r.append(expected);
    r.append("' but found '");
    r.append(found);
    r.append("'");
    r
}

pub fn expected_token_eof_message(expected: &str) -> (r: String)
    ensures
        r@ == expected_token_eof_msg(expected@),
{
    let mut r = String::from_str("Expected token '");
    r.append(expected);
    r.append("' but found the end of the expression");
    r
}

pub fn expected_expr_message(found: &str) -> (r: String)
    ensures
        r@ == expected_expr_msg(found@),
{
    let mut r = String::from_str("Expected an expression but found '");
    r.append(found);
    r.append("'");
    r
}

pub fn expected_expr_eof_message() -> (r: String)
    ensures
        r@ == expected_expr_eof_msg(),
{
    String::from_str("Expected an expression but found the end of the expression")
}

pub fn leftover_message(found: &str) -> (r: String)
    ensures
        r@ == leftover_msg(found@),
{
    let mut r = String::from_str("Unexpected token '");
    r.append(found);
    r.append("'");
    r
}

} // verus!
