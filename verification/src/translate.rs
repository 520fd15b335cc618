//! The code generator: a pure function of a type-checked node and a mutable
//! translation context to a shell fragment. Numeric and boolean work routes
//! through a shared arithmetic-expansion rule; text equality strips the
//! quoting the nested translation introduced, prefixes each operand with a
//! sentinel so the shell cannot mistake an operand for a flag, and wraps a
//! string test in a command substitution.

use vstd::prelude::*;
use vstd::string::{StrSliceExecFns, StringExecFns};
use crate::ast::{well_typed, BinopKind, Expr, SExpr, Type, UnaryKind};
use crate::shell::{binop_sym, form_of, render, text_content, unary_sym, ShellForm};

verus! {

/// Per-compilation-unit translation state: a fresh-name counter. It is
/// created fresh for each unit, threaded explicitly through every translate
/// call, and never shared across units.
#[derive(Debug, Clone, PartialEq, Eq, Structural)]
pub struct TranslateMetadata {
    pub fresh_name_id: u64,
}

impl TranslateMetadata {
    pub fn new() -> (r: Self)
        ensures
            r.fresh_name_id == 0,
    {
        TranslateMetadata { fresh_name_id: 0 }
    }

    /// Hands out the next fresh identifier, never repeating one.
    pub fn gen_id(&mut self) -> (r: u64)
        requires
            old(self).fresh_name_id < u64::MAX,
        ensures
            final(self).fresh_name_id == old(self).fresh_name_id + 1,
            r == old(self).fresh_name_id,
    {
        let id = self.fresh_name_id;
        self.fresh_name_id = self.fresh_name_id + 1;
        id
    }
}

/// What stripping the quoting markers from a fragment leaves: a leading
/// quote mark goes, then a trailing one.
pub open spec fn strip_spec(s: Seq<char>) -> Seq<char> {
    let t = if s.len() > 0 && s.index(0) == '"' {
        s.subrange(1, s.len() as int)
    } else {
        s
    };
    if t.len() > 0 && t.index(t.len() - 1) == '"' {
        t.subrange(0, t.len() - 1)
    } else {
        t
    }
}

/// Removes the quoting markers a nested translation put around a text
/// fragment, so that the fragment embeds into a further-quoted context
/// without doubling them.
pub fn strip_text_quotes(text: &mut String)
    ensures
        final(text)@ == strip_spec(old(text)@),
{
    let n = text.as_str().unicode_len();
    let start: usize = if n > 0 && text.as_str().get_char(0) == '"' {
        1
    } else {
        0
    };
    let end: usize = if n > start && text.as_str().get_char(n - 1) == '"' {
        n - 1
    } else {
        n
    };
    let stripped = String::from_str(text.as_str().substring_char(start, end));
    proof {
        assert(stripped@ =~= strip_spec(text@));
    }
    *text = stripped;
}

/// Stripping recovers exactly the content of a quoted fragment.
pub proof fn lemma_strip_quoted(s: Seq<char>)
    ensures
        strip_spec("\""@ + s + "\""@) == s,
{
    reveal_strlit("\"");
    assert("\""@ =~= seq!['"']);
    let full = "\""@ + s + "\""@;
    assert(full.index(0) == '"');
    assert(full.subrange(1, full.len() as int) =~= s + "\""@);
    let t = s + "\""@;
    assert(t.index(t.len() - 1) == '"');
    assert(t.subrange(0, t.len() - 1) =~= s);
}

/// The shell's spelling of a binary operator.
pub fn binop_symbol(k: BinopKind) -> (r: &'static str)
    ensures
        r@ == binop_sym(k),
{
    match k {
        BinopKind::Equal => "==",
        BinopKind::NotEqual => "!=",
        BinopKind::Less => "<",
        BinopKind::LessEqual => "<=",
        BinopKind::Greater => ">",
        BinopKind::GreaterEqual => ">=",
        BinopKind::Add => "+",
        BinopKind::Sub => "-",
        BinopKind::Mul => "*",
        BinopKind::Div => "/",
        BinopKind::Modulo => "%",
        BinopKind::And => "&&",
        BinopKind::Or => "||",
    }
}

/// The shell's spelling of a unary operator.
pub fn unary_symbol(k: UnaryKind) -> (r: &'static str)
    ensures
        r@ == unary_sym(k),
{
    match k {
        UnaryKind::Not => "!",
        UnaryKind::Neg => "-",
    }
}

/// The shared computation rule: wraps two already-translated operands and
/// the operator's shell spelling in an arithmetic expansion, safe to embed
/// in a larger expression.
pub fn translate_computation(
    meta: &mut TranslateMetadata,
    op: BinopKind,
    left: String,
    right: String,
) -> (r: String)
    ensures
        r@ == "$(( "@ + left@ + " "@ + binop_sym(op) + " "@ + right@ + " ))"@,
        *final(meta) == *old(meta),
{
    let mut r = String::from_str("$(( ");
    r.append(left.as_str());
    r.append(" ");
    r.append(binop_symbol(op));
    r.append(" ");
    r.append(right.as_str());
    r.append(" ))");
    r
}

/// The computation rule for a unary operator.
pub fn translate_computation_unary(
    meta: &mut TranslateMetadata,
    op: UnaryKind,
    operand: String,
) -> (r: String)
    ensures
        r@ == "$(( "@ + unary_sym(op) + " "@ + operand@ + " ))"@,
        *final(meta) == *old(meta),
{
    let mut r = String::from_str("$(( ");
    r.append(unary_symbol(op));
    r.append(" ");
    r.append(operand.as_str());
    r.append(" ))");
    r
}

impl Expr {
    /// Emits the shell fragment of a type-checked tree, walking it bottom-up
    /// and left to right. The fragment is exactly the rendering of the
    /// tree's shell form; translation never fails on a type-checked tree,
    /// and these operators leave the context unchanged.
    pub fn translate(&self, meta: &mut TranslateMetadata) -> (r: String)
        requires
            well_typed(self@),
        ensures
            r@ == render(form_of(self@)),
            *final(meta) == *old(meta),
        decreases *self,
    {
        match self {
            Expr::Num(s) => s.clone(),
            Expr::Text(s) => {
                let mut r = String::from_str("\"");
                r.append(s.as_str());
                r.append("\"");
                r
            },
            Expr::Bool(b) => {
                proof {
                    reveal_strlit("1");
                    reveal_strlit("0");
                    assert("1"@ =~= seq!['1']);
                    assert("0"@ =~= seq!['0']);
                }
                if *b {
                    String::from_str("1")
                } else {
                    String::from_str("0")
                }
            },
            Expr::Unary(k, x) => {
                let xf = x.translate(meta);
                translate_computation_unary(meta, *k, xf)
            },
            Expr::Binop(k, l, r) => {
                let mut left = l.translate(meta);
                let mut right = r.translate(meta);
                let is_equality = match k {
                    BinopKind::Equal | BinopKind::NotEqual => true,
                    _ => false,
                };
                if is_equality && l.get_type() == Type::Text && r.get_type() == Type::Text {
                    proof {
                        crate::ast::lemma_text_typed_is_literal(l@);
                        crate::ast::lemma_text_typed_is_literal(r@);
                        lemma_strip_quoted(text_content(l@));
                        lemma_strip_quoted(text_content(r@));
                    }
                    strip_text_quotes(&mut left);
                    strip_text_quotes(&mut right);
                    let mut out = String::from_str("$([ \"_");
                    out.append(left.as_str());
                    out.append("\" ");
                    out.append(
                        if matches!(k, BinopKind::Equal) {
                            "!="
                        } else {
                            "=="
                        },
                    );
                    out.append(" \"_");
                    out.append(right.as_str());
                    out.append("\" ]; echo $?)");
                    out
                } else {
                    translate_computation(meta, *k, left, right)
                }
            },
        }
    }
}

} // verus!
