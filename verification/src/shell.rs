//! A ghost model of the shell fragments the translator emits. Each form has
//! an exact rendering (the very text emitted) and a meaning under the
//! shell's rules: arithmetic expansion computes over integers reporting
//! truth as one and zero, and the sentinel-prefixed string test wrapped in a
//! command substitution echoes the comparison's outcome.

use vstd::prelude::*;
use crate::ast::{spec_type_of, BinopKind, SExpr, Type, UnaryKind};
use crate::sem::{eval, int_of_bool, num_of, tdiv, tmod, Value};

verus! {

/// The closed family of emitted fragments.
pub enum ShellForm {
    /// A bare numeral, kept as its decimal spelling.
    NumLit(Seq<char>),
    /// A quoted string literal.
    StrLit(Seq<char>),
    /// An arithmetic expansion over two sub-fragments.
    Arith(BinopKind, Box<ShellForm>, Box<ShellForm>),
    /// An arithmetic expansion over one sub-fragment.
    ArithUnary(UnaryKind, Box<ShellForm>),
    /// A sentinel-prefixed string test inside a command substitution. The
    /// flag says whether it reports equality or inequality; the operands are
    /// the raw (quote-stripped) character sequences.
    StrTest(bool, Seq<char>, Seq<char>),
}

/// The shell's spelling of each binary operator inside arithmetic expansion.
pub open spec fn binop_sym(k: BinopKind) -> Seq<char> {
    match k {
        BinopKind::Equal => "=="@,
        BinopKind::NotEqual => "!="@,
        BinopKind::Less => "<"@,
        BinopKind::LessEqual => "<="@,
        BinopKind::Greater => ">"@,
        BinopKind::GreaterEqual => ">="@,
        BinopKind::Add => "+"@,
        BinopKind::Sub => "-"@,
        BinopKind::Mul => "*"@,
        BinopKind::Div => "/"@,
        BinopKind::Modulo => "%"@,
        BinopKind::And => "&&"@,
        BinopKind::Or => "||"@,
    }
}

/// The shell's spelling of each unary operator inside arithmetic expansion.
pub open spec fn unary_sym(k: UnaryKind) -> Seq<char> {
    match k {
        UnaryKind::Not => "!"@,
        UnaryKind::Neg => "-"@,
    }
}

/// The exact text of a form: what the translator emits for it.
pub open spec fn render(f: ShellForm) -> Seq<char>
    decreases f,
{
    match f {
        ShellForm::NumLit(s) => s,
        ShellForm::StrLit(s) => "\""@ + s + "\""@,
        ShellForm::Arith(k, l, r) => "$(( "@ + render(*l) + " "@ + binop_sym(k) + " "@ + render(*r)
            + " ))"@,
        ShellForm::ArithUnary(k, x) => "$(( "@ + unary_sym(k) + " "@ + render(*x) + " ))"@,
        ShellForm::StrTest(want_eq, l, r) => "$([ \"_"@ + l + "\" "@ + (if want_eq {
            "!="@
        } else {
            "=="@
        }) + " \"_"@ + r + "\" ]; echo $?)"@,
    }
}

/// A character sequence with the sentinel prefixed, as the string test
/// hands its operands to the shell.
pub open spec fn sentineled(s: Seq<char>) -> Seq<char> {
    seq!['_'] + s
}

/// What an arithmetic expansion computes for each operator, over the
/// numeric reading of its operands. Logic follows the shell: any nonzero
/// operand counts as true.
pub open spec fn arith_sem(k: BinopKind, a: int, b: int) -> int {
    match k {
        BinopKind::Equal => int_of_bool(a == b),
        BinopKind::NotEqual => int_of_bool(a != b),
        BinopKind::Less => int_of_bool(a < b),
        BinopKind::LessEqual => int_of_bool(a <= b),
        BinopKind::Greater => int_of_bool(a > b),
        BinopKind::GreaterEqual => int_of_bool(a >= b),
        BinopKind::Add => a + b,
        BinopKind::Sub => a - b,
        BinopKind::Mul => a * b,
        BinopKind::Div => tdiv(a, b),
        BinopKind::Modulo => tmod(a, b),
        BinopKind::And => int_of_bool(a != 0 && b != 0),
        BinopKind::Or => int_of_bool(a != 0 || b != 0),
    }
}

/// The value a fragment yields where the shell substitutes it. A string
/// test compares the sentinel-prefixed operands: the test's exit status,
/// echoed, reports one exactly on the wanted outcome.
pub open spec fn shell_eval(f: ShellForm) -> Value
    decreases f,
{
    match f {
        ShellForm::NumLit(s) => Value::Num(crate::sem::dec_val(s)),
        ShellForm::StrLit(s) => Value::Text(s),
        ShellForm::Arith(k, l, r) => Value::Num(
            arith_sem(k, num_of(shell_eval(*l)), num_of(shell_eval(*r))),
        ),
        ShellForm::ArithUnary(k, x) => match k {
            UnaryKind::Not => Value::Num(int_of_bool(num_of(shell_eval(*x)) == 0)),
            UnaryKind::Neg => Value::Num(-num_of(shell_eval(*x))),
        },
        ShellForm::StrTest(want_eq, l, r) => Value::Num(
            int_of_bool(want_eq == (sentineled(l) == sentineled(r))),
        ),
    }
}

/// The text a text-typed expression holds. In this core no operator yields
/// text, so a well-typed text operand is a literal.
pub open spec fn text_content(e: SExpr) -> Seq<char> {
    match e {
        SExpr::Text(s) => s,
        _ => Seq::empty(),
    }
}

/// The form the translator emits for a well-typed expression. Text equality
/// and inequality take the sentinel-prefixed string test; everything else
/// routes through arithmetic expansion.
pub open spec fn form_of(e: SExpr) -> ShellForm
    decreases e,
{
    match e {
        SExpr::Num(s) => ShellForm::NumLit(s),
        SExpr::Text(s) => ShellForm::StrLit(s),
        SExpr::Bool(b) => ShellForm::NumLit(
            if b {
                seq!['1']
            } else {
                seq!['0']
            },
        ),
        SExpr::Unary(k, x) => ShellForm::ArithUnary(k, Box::new(form_of(*x))),
        SExpr::Binop(k, l, r) => {
            if (k matches (BinopKind::Equal | BinopKind::NotEqual)) && spec_type_of(*l)
                == Type::Text && spec_type_of(*r) == Type::Text {
                ShellForm::StrTest(
                    k matches BinopKind::Equal,
                    text_content(*l),
                    text_content(*r),
                )
            } else {
                ShellForm::Arith(k, Box::new(form_of(*l)), Box::new(form_of(*r)))
            }
        },
    }
}

/// How a source value appears where the shell substitutes a fragment:
/// numbers and text as themselves, a boolean as one or zero.
pub open spec fn encode(v: Value) -> Value {
    match v {
        Value::Bool(b) => Value::Num(int_of_bool(b)),
        _ => v,
    }
}

} // verus!
