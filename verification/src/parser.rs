//! The expression grammar core: precedence-driven recursive descent over
//! the token stream. The grammar is stated once as a ghost function over
//! the token sequence; the executable parser is proved to return exactly
//! what the ghost grammar says, to consume tokens strictly forward, and to
//! hand back only well-typed trees — a node's compatibility check runs as
//! the node completes, so no ill-typed node ever escapes.
//!
//! Precedence, loosest first: `or`, `and`, equality, ordering, additive,
//! multiplicative, unary, then literals and parentheses. An operator's
//! right side is a full sub-expression of its own level, so chains nest
//! arbitrarily.

use vstd::prelude::*;
use vstd::string::{StrSliceExecFns, StringExecFns};
use crate::ast::{binop_type_ok, spec_type_of, unary_type_ok, well_typed, BinopKind, Expr, SExpr,
    UnaryKind};
use crate::diag::{binop_err_msg, expected_expr_eof_message, expected_expr_eof_msg,
    expected_expr_message, expected_expr_msg, expected_token_eof_message, expected_token_eof_msg,
    expected_token_message, expected_token_msg, leftover_message, leftover_msg, unary_err_msg,
    DiagKind, Diagnostic};
use crate::token::{is_number_word, is_text_token, is_text_word, number_word, str_eq, Position,
    Token};
use crate::typecheck::{check_binop, check_unary};

verus! {

/// The ghost outcome of parsing from a given index: the tree and the index
/// just past it, or the failure's kind, message and position.
pub enum Parsed {
    Found { e: SExpr, next: int },
    Failed { kind: DiagKind, msg: Seq<char>, pos: Position },
}

/// The position reported when the stream ends too early.
pub open spec fn eof_pos_spec(toks: Seq<Token>) -> Position {
    if toks.len() == 0 {
        Position { row: 0, col: 0 }
    } else {
        toks.last().pos
    }
}

pub fn eof_position(toks: &Vec<Token>) -> (r: Position)
    ensures
        r == eof_pos_spec(toks@),
{
    if toks.len() == 0 {
        Position { row: 0, col: 0 }
    } else {
        toks[toks.len() - 1].pos
    }
}

/// The operator spellings of each precedence level, loosest (0) to
/// tightest (5).
pub open spec fn level_op_spec(w: Seq<char>, level: int) -> Option<BinopKind> {
    if level == 0 {
        if w == "or"@ {
            Some(BinopKind::Or)
        } else {
            None
        }
    } else if level == 1 {
        if w == "and"@ {
            Some(BinopKind::And)
        } else {
            None
        }
    } else if level == 2 {
        if w == "=="@ {
            Some(BinopKind::Equal)
        } else if w == "!="@ {
            Some(BinopKind::NotEqual)
        } else {
            None
        }
    } else if level == 3 {
        if w == "<"@ {
            Some(BinopKind::Less)
        } else if w == "<="@ {
            Some(BinopKind::LessEqual)
        } else if w == ">"@ {
            Some(BinopKind::Greater)
        } else if w == ">="@ {
            Some(BinopKind::GreaterEqual)
        } else {
            None
        }
    } else if level == 4 {
        if w == "+"@ {
            Some(BinopKind::Add)
        } else if w == "-"@ {
            Some(BinopKind::Sub)
        } else {
            None
        }
    } else {
        if w == "*"@ {
            Some(BinopKind::Mul)
        } else if w == "/"@ {
            Some(BinopKind::Div)
        } else if w == "%"@ {
            Some(BinopKind::Modulo)
        } else {
            None
        }
    }
}

/// The unary operator spellings.
pub open spec fn unary_op_spec(w: Seq<char>) -> Option<UnaryKind> {
    if w == "not"@ {
        Some(UnaryKind::Not)
    } else if w == "-"@ {
        Some(UnaryKind::Neg)
    } else {
        None
    }
}

/// The ghost grammar of a literal or a parenthesized sub-expression.
pub open spec fn sp_primary(toks: Seq<Token>, i: int) -> Parsed
    decreases toks.len() - i, 0int,
{
    if i < 0 || i >= toks.len() {
        Parsed::Failed {
            kind: DiagKind::SyntaxError,
            msg: expected_expr_eof_msg(),
            pos: eof_pos_spec(toks),
        }
    } else {
        let w = toks[i].word@;
        if w == "("@ {
            match sp_binop_level(toks, i + 1, 0) {
                Parsed::Found { e, next } => {
                    if next < toks.len() && toks[next].word@ == ")"@ {
                        Parsed::Found { e, next: next + 1 }
                    } else if next < toks.len() {
                        Parsed::Failed {
                            kind: DiagKind::SyntaxError,
                            msg: expected_token_msg(")"@, toks[next].word@),
                            pos: toks[next].pos,
                        }
                    } else {
                        Parsed::Failed {
                            kind: DiagKind::SyntaxError,
                            msg: expected_token_eof_msg(")"@),
                            pos: eof_pos_spec(toks),
                        }
                    }
                },
                f => f,
            }
        } else if w == "true"@ {
            Parsed::Found { e: SExpr::Bool(true), next: i + 1 }
        } else if w == "false"@ {
            Parsed::Found { e: SExpr::Bool(false), next: i + 1 }
        } else if number_word(w) {
            Parsed::Found { e: SExpr::Num(w), next: i + 1 }
        } else if is_text_word(w) {
            Parsed::Found { e: SExpr::Text(w.subrange(1, w.len() - 1)), next: i + 1 }
        } else {
            Parsed::Failed {
                kind: DiagKind::SyntaxError,
                msg: expected_expr_msg(w),
                pos: toks[i].pos,
            }
        }
    }
}

/// The ghost grammar of a unary chain.
pub open spec fn sp_unary(toks: Seq<Token>, i: int) -> Parsed
    decreases toks.len() - i, 1int,
{
    if 0 <= i < toks.len() && unary_op_spec(toks[i].word@) matches Some(_) {
        let k = unary_op_spec(toks[i].word@)->Some_0;
        match sp_unary(toks, i + 1) {
            Parsed::Found { e, next } => {
                if unary_type_ok(k, spec_type_of(e)) {
                    Parsed::Found { e: SExpr::Unary(k, Box::new(e)), next }
                } else {
                    Parsed::Failed {
                        kind: DiagKind::TypeError,
                        msg: unary_err_msg(k),
                        pos: toks[i].pos,
                    }
                }
            },
            f => f,
        }
    } else {
        sp_primary(toks, i)
    }
}

/// The ghost grammar of one precedence level: the left operand at the next
/// tighter level, then, if this level's operator follows, the right operand
/// as a full sub-expression of this level, then the compatibility check at
/// the operator token's position.
pub open spec fn sp_binop_level(toks: Seq<Token>, i: int, level: int) -> Parsed
    decreases toks.len() - i, 7int - level,
        when 0 <= i <= toks.len() && 0 <= level <= 5
{
    let left = if level >= 5 {
        sp_unary(toks, i)
    } else {
        sp_binop_level(toks, i, level + 1)
    };
    match left {
        Parsed::Found { e: l, next: j } => {
            if i <= j && j < toks.len() && level_op_spec(toks[j].word@, level) matches Some(_) {
                let k = level_op_spec(toks[j].word@, level)->Some_0;
                match sp_binop_level(toks, j + 1, level) {
                    Parsed::Found { e: r, next } => {
                        if binop_type_ok(k, spec_type_of(l), spec_type_of(r)) {
                            Parsed::Found {
                                e: SExpr::Binop(k, Box::new(l), Box::new(r)),
                                next,
                            }
                        } else {
                            Parsed::Failed {
                                kind: DiagKind::TypeError,
                                msg: binop_err_msg(k),
                                pos: toks[j].pos,
                            }
                        }
                    },
                    f => f,
                }
            } else {
                Parsed::Found { e: l, next: j }
            }
        },
        f => f,
    }
}

/// The ghost grammar of a whole unit: one expression, with nothing left
/// over.
pub open spec fn sp_parse(toks: Seq<Token>) -> Parsed {
    match sp_binop_level(toks, 0, 0) {
        Parsed::Found { e, next } => {
            if next == toks.len() {
                Parsed::Found { e, next }
            } else {
                Parsed::Failed {
                    kind: DiagKind::SyntaxError,
                    msg: leftover_msg(toks[next].word@),
                    pos: toks[next].pos,
                }
            }
        },
        f => f,
    }
}

/// What the executable parser owes at each level: exactly the ghost
/// grammar's outcome, strictly forward consumption, and a well-typed tree.
pub open spec fn parse_matches(
    sp: Parsed,
    r: Result<(Expr, usize), Diagnostic>,
    toks: Seq<Token>,
    i: int,
) -> bool {
    match r {
        Result::Ok((e, j)) => sp == (Parsed::Found { e: e@, next: j as int }) && i < j
            <= toks.len() && well_typed(e@),
        Result::Err(d) => sp == (Parsed::Failed { kind: d.kind, msg: d.message@, pos: d.pos }),
    }
}

/// This level's operator spelled by the token, if any.
pub fn level_op(word: &str, level: u8) -> (r: Option<BinopKind>)
    requires
        level <= 5,
    ensures
        r == level_op_spec(word@, level as int),
{
    if level == 0 {
        if str_eq(word, "or") {
            Some(BinopKind::Or)
        } else {
            None
        }
    } else if level == 1 {
        if str_eq(word, "and") {
            Some(BinopKind::And)
        } else {
            None
        }
    } else if level == 2 {
        if str_eq(word, "==") {
            Some(BinopKind::Equal)
        } else if str_eq(word, "!=") {
            Some(BinopKind::NotEqual)
        } else {
            None
        }
    } else if level == 3 {
        if str_eq(word, "<") {
            Some(BinopKind::Less)
        } else if str_eq(word, "<=") {
            Some(BinopKind::LessEqual)
        } else if str_eq(word, ">") {
            Some(BinopKind::Greater)
        } else if str_eq(word, ">=") {
            Some(BinopKind::GreaterEqual)
        } else {
            None
        }
    } else if level == 4 {
        if str_eq(word, "+") {
            Some(BinopKind::Add)
        } else if str_eq(word, "-") {
            Some(BinopKind::Sub)
        } else {
            None
        }
    } else {
        if str_eq(word, "*") {
            Some(BinopKind::Mul)
        } else if str_eq(word, "/") {
            Some(BinopKind::Div)
        } else if str_eq(word, "%") {
            Some(BinopKind::Modulo)
        } else {
            None
        }
    }
}

pub fn unary_op(word: &str) -> (r: Option<UnaryKind>)
    ensures
        r == unary_op_spec(word@),
{
    if str_eq(word, "not") {
        Some(UnaryKind::Not)
    } else if str_eq(word, "-") {
        Some(UnaryKind::Neg)
    } else {
        None
    }
}

/// Consumes one token of the exact expected spelling, or fails with a
/// syntax error naming the expected token and the actual token found.
pub fn consume_token(toks: &Vec<Token>, i: usize, expected: &str) -> (r: Result<usize, Diagnostic>)
    requires
        i <= toks@.len(),
    ensures
        match r {
            Result::Ok(j) => i < toks@.len() && toks@[i as int].word@ == expected@ && j == i + 1,
            Result::Err(d) => d.kind == DiagKind::SyntaxError && (if i < toks@.len() {
                toks@[i as int].word@ != expected@ && d.message@ == expected_token_msg(
                    expected@,
                    toks@[i as int].word@,
                ) && d.pos == toks@[i as int].pos
            } else {
                d.message@ == expected_token_eof_msg(expected@) && d.pos == eof_pos_spec(toks@)
            }),
        },
{
    if i < toks.len() {
        if str_eq(toks[i].word.as_str(), expected) {
            Ok(i + 1)
        } else {
            Err(
                Diagnostic {
                    kind: DiagKind::SyntaxError,
                    message: expected_token_message(expected, toks[i].word.as_str()),
                    pos: toks[i].pos,
                },
            )
        }
    } else {
        Err(
            Diagnostic {
                kind: DiagKind::SyntaxError,
                message: expected_token_eof_message(expected),
                pos: eof_position(toks),
            },
        )
    }
}

/// Parses a literal or a parenthesized sub-expression.
pub fn parse_primary(toks: &Vec<Token>, i: usize) -> (r: Result<(Expr, usize), Diagnostic>)
    requires
        i <= toks@.len(),
    ensures
        parse_matches(sp_primary(toks@, i as int), r, toks@, i as int),
    decreases toks@.len() - i, 0int,
{
    if i >= toks.len() {
        return Err(
            Diagnostic {
                kind: DiagKind::SyntaxError,
                message: expected_expr_eof_message(),
                pos: eof_position(toks),
            },
        );
    }
    let w = toks[i].word.as_str();
    if str_eq(w, "(") {
        match parse_binop_level(toks, i + 1, 0) {
            Ok((e, next)) => {
                match consume_token(toks, next, ")") {
                    Ok(after) => Ok((e, after)),
                    Err(d) => Err(d),
                }
            },
            Err(d) => Err(d),
        }
    } else if str_eq(w, "true") {
        Ok((Expr::Bool(true), i + 1))
    } else if str_eq(w, "false") {
        Ok((Expr::Bool(false), i + 1))
    } else if is_number_word(w) {
        Ok((Expr::Num(toks[i].word.clone()), i + 1))
    } else if is_text_token(w) {
        let n = w.unicode_len();
        let content = String::from_str(w.substring_char(1, n - 1));
        Ok((Expr::Text(content), i + 1))
    } else {
        Err(
            Diagnostic {
                kind: DiagKind::SyntaxError,
                message: expected_expr_message(w),
                pos: toks[i].pos,
            },
        )
    }
}

/// Parses a chain of unary operators around a primary, checking each as it
/// completes.
pub fn parse_unary(toks: &Vec<Token>, i: usize) -> (r: Result<(Expr, usize), Diagnostic>)
    requires
        i <= toks@.len(),
    ensures
        parse_matches(sp_unary(toks@, i as int), r, toks@, i as int),
    decreases toks@.len() - i, 1int,
{
    if i < toks.len() {
        let op = unary_op(toks[i].word.as_str());
        if let Some(k) = op {
            let tokpos = toks[i].pos;
            match parse_unary(toks, i + 1) {
                Ok((e, next)) => {
                    match check_unary(k, &e, tokpos) {
                        Ok(_) => Ok((Expr::Unary(k, Box::new(e)), next)),
                        Err(d) => Err(d),
                    }
                },
                Err(d) => Err(d),
            }
        } else {
            parse_primary(toks, i)
        }
    } else {
        parse_primary(toks, i)
    }
}

/// Parses one precedence level: the left operand at the tighter level, the
/// operator token if it is this level's, the right operand as a full
/// sub-expression, then the compatibility check at the operator token's
/// position — before the node is returned.
pub fn parse_binop_level(toks: &Vec<Token>, i: usize, level: u8) -> (r: Result<
    (Expr, usize),
    Diagnostic,
>)
    requires
        i <= toks@.len(),
        level <= 5,
    ensures
        parse_matches(sp_binop_level(toks@, i as int, level as int), r, toks@, i as int),
    decreases toks@.len() - i, 7int - level,
{
    let left = if level == 5 {
        parse_unary(toks, i)
    } else {
        parse_binop_level(toks, i, level + 1)
    };
    match left {
        Ok((l, j)) => {
            if j < toks.len() {
                let op = level_op(toks[j].word.as_str(), level);
                if let Some(k) = op {
                    let tokpos = toks[j].pos;
                    match parse_binop_level(toks, j + 1, level) {
                        Ok((r2, next)) => {
                            match check_binop(k, &l, &r2, tokpos) {
                                Ok(_) => Ok((Expr::Binop(k, Box::new(l), Box::new(r2)), next)),
                                Err(d) => Err(d),
                            }
                        },
                        Err(d) => Err(d),
                    }
                } else {
                    Ok((l, j))
                }
            } else {
                Ok((l, j))
            }
        },
        Err(d) => Err(d),
    }
}

/// Parses a whole unit: one expression covering every token. On success the
/// tree is well-typed; on failure no tree — and so no generated code —
/// exists for the unit.
pub fn parse(tokens: &Vec<Token>) -> (r: Result<Expr, Diagnostic>)
    ensures
        ({
            let sp = sp_parse(tokens@);
            match r {
                Result::Ok(e) => sp == (Parsed::Found { e: e@, next: tokens@.len() as int })
                    && well_typed(e@),
                Result::Err(d) => sp == (Parsed::Failed {
                    kind: d.kind,
                    msg: d.message@,
                    pos: d.pos,
                }),
            }
        }),
{
    match parse_binop_level(tokens, 0, 0) {
        Ok((e, j)) => {
            if j == tokens.len() {
                Ok(e)
            } else {
                Err(
                    Diagnostic {
                        kind: DiagKind::SyntaxError,
                        message: leftover_message(tokens[j].word.as_str()),
                        pos: tokens[j].pos,
                    },
                )
            }
        },
        Err(d) => Err(d),
    }
}

} // verus!
