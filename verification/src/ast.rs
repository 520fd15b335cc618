//! The abstract syntax tree of expressions, its ghost deep view, and the
//! static type system: every node answers a side-effect-free type query, and
//! a well-typed tree is the only thing the translator accepts.

use vstd::prelude::*;

verus! {

/// The closed set of value domains. No domain coerces into another.
#[derive(Debug, Clone, Copy, PartialEq, Eq, Structural)]
pub enum Type {
    Bool,
    Num,
    Text,
}

/// The binary operator kinds: equality, ordering, arithmetic and logic.
#[derive(Debug, Clone, Copy, PartialEq, Eq, Structural)]
pub enum BinopKind {
    Equal,
    NotEqual,
    Less,
    LessEqual,
    Greater,
    GreaterEqual,
    Add,
    Sub,
    Mul,
    Div,
    Modulo,
    And,
    Or,
}

/// The unary operator kinds: logical and numeric negation.
#[derive(Debug, Clone, Copy, PartialEq, Eq, Structural)]
pub enum UnaryKind {
    Not,
    Neg,
}

/// An expression node. A binary node owns its two children outright: the
/// tree is exclusively owned, with no sharing and no cycles.
#[derive(Debug)]
pub enum Expr {
    /// A number literal, kept as its decimal spelling.
    Num(String),
    /// A text literal, kept without its surrounding quote marks.
    Text(String),
    /// A boolean literal.
    Bool(bool),
    Unary(UnaryKind, Box<Expr>),
    Binop(BinopKind, Box<Expr>, Box<Expr>),
}

/// The ghost shape of an expression: the same tree with every spelling taken
/// as its sequence of characters. All contracts speak of this view.
pub enum SExpr {
    Num(Seq<char>),
    Text(Seq<char>),
    Bool(bool),
    Unary(UnaryKind, Box<SExpr>),
    Binop(BinopKind, Box<SExpr>, Box<SExpr>),
}

pub open spec fn expr_view(e: Expr) -> SExpr
    decreases e,
{
    match e {
        Expr::Num(s) => SExpr::Num(s@),
        Expr::Text(s) => SExpr::Text(s@),
        Expr::Bool(b) => SExpr::Bool(b),
        Expr::Unary(k, x) => SExpr::Unary(k, Box::new(expr_view(*x))),
        Expr::Binop(k, l, r) => SExpr::Binop(k, Box::new(expr_view(*l)), Box::new(expr_view(*r))),
    }
}

impl View for Expr {
    type V = SExpr;

    open spec fn view(&self) -> SExpr {
        expr_view(*self)
    }
}

/// Whether an operator is a comparison: equality, inequality or ordering.
pub open spec fn is_comparison(k: BinopKind) -> bool {
    k matches (BinopKind::Equal | BinopKind::NotEqual | BinopKind::Less | BinopKind::LessEqual
        | BinopKind::Greater | BinopKind::GreaterEqual)
}

/// Whether an operator computes a number from two numbers.
pub open spec fn is_arith(k: BinopKind) -> bool {
    k matches (BinopKind::Add | BinopKind::Sub | BinopKind::Mul | BinopKind::Div
        | BinopKind::Modulo)
}

/// Whether an operator is a logical connective.
pub open spec fn is_logic(k: BinopKind) -> bool {
    k matches (BinopKind::And | BinopKind::Or)
}

/// The static type of a node: a pure function of its children. Comparisons
/// and logic yield Bool, arithmetic yields Num, literals their own domain.
pub open spec fn spec_type_of(e: SExpr) -> Type
    decreases e,
{
    match e {
        SExpr::Num(_) => Type::Num,
        SExpr::Text(_) => Type::Text,
        SExpr::Bool(_) => Type::Bool,
        SExpr::Unary(k, _) => match k {
            UnaryKind::Not => Type::Bool,
            UnaryKind::Neg => Type::Num,
        },
        SExpr::Binop(k, _, _) => if is_arith(k) {
            Type::Num
        } else {
            Type::Bool
        },
    }
}

/// The compatibility rule a binary node must pass before it may exist:
/// comparisons take two operands of one type, arithmetic two numbers,
/// logic two booleans.
pub open spec fn binop_type_ok(k: BinopKind, tl: Type, tr: Type) -> bool {
    if is_comparison(k) {
        tl == tr
    } else if is_arith(k) {
        tl == Type::Num && tr == Type::Num
    } else {
        tl == Type::Bool && tr == Type::Bool
    }
}

/// The compatibility rule for a unary node.
pub open spec fn unary_type_ok(k: UnaryKind, t: Type) -> bool {
    match k {
        UnaryKind::Not => t == Type::Bool,
        UnaryKind::Neg => t == Type::Num,
    }
}

/// A tree in which every operator node satisfies its compatibility rule.
/// Only such trees may reach the translator.
pub open spec fn well_typed(e: SExpr) -> bool
    decreases e,
{
    match e {
        SExpr::Num(_) => true,
        SExpr::Text(_) => true,
        SExpr::Bool(_) => true,
        SExpr::Unary(k, x) => well_typed(*x) && unary_type_ok(k, spec_type_of(*x)),
        SExpr::Binop(k, l, r) => well_typed(*l) && well_typed(*r) && binop_type_ok(
            k,
            spec_type_of(*l),
            spec_type_of(*r),
        ),
    }
}

/// No operator in this core yields text, so a well-typed tree of type Text
/// is a text literal.
pub proof fn lemma_text_typed_is_literal(e: SExpr)
    requires
        well_typed(e),
        spec_type_of(e) == Type::Text,
    ensures
        e matches SExpr::Text(_),
{
}

impl Expr {
    /// The static type of this node, repeatable and side-effect free.
    pub fn get_type(&self) -> (t: Type)
        ensures
            t == spec_type_of(self@),
    {
        match self {
            Expr::Num(_) => Type::Num,
            Expr::Text(_) => Type::Text,
            Expr::Bool(_) => Type::Bool,
            Expr::Unary(k, _) => match k {
                UnaryKind::Not => Type::Bool,
                UnaryKind::Neg => Type::Num,
            },
            Expr::Binop(k, _, _) => match k {
                BinopKind::Add | BinopKind::Sub | BinopKind::Mul | BinopKind::Div
                    | BinopKind::Modulo => Type::Num,
                _ => Type::Bool,
            },
        }
    }
}

} // verus!
