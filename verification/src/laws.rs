//! The guarantees the pipeline gives as a whole: the emitted fragment of a
//! type-checked tree means, under the shell model, exactly what the source
//! expression means; equality agrees with each domain's native equality;
//! mismatched comparisons are rejected at the operator token; and quote
//! stripping leaves no residue.

use vstd::prelude::*;
use crate::ast::{binop_type_ok, lemma_text_typed_is_literal, spec_type_of, well_typed, BinopKind,
    SExpr, Type};
use crate::diag::binop_err_msg;
use crate::parser::{sp_binop_level, Parsed};
use crate::sem::{divisions_defined, eval, int_of_bool, num_of, orderings_numeric, Value};
use crate::shell::{encode, form_of, render, sentineled, shell_eval, text_content};
use crate::token::Token;
use crate::translate::{lemma_strip_quoted, strip_spec};

verus! {

/// Prefixing both operands with the sentinel neither merges distinct texts
/// nor splits equal ones: the test decides exactly on the bare contents.
pub proof fn lemma_sentinel_faithful(a: Seq<char>, b: Seq<char>)
    ensures
        (sentineled(a) == sentineled(b)) <==> (a == b),
{
    if sentineled(a) == sentineled(b) {
        assert(sentineled(a).len() == 1 + a.len());
        assert(sentineled(b).len() == 1 + b.len());
        assert(a.len() == b.len());
        assert forall|k: int| 0 <= k < a.len() implies a[k] == b[k] by {
            assert(sentineled(a)[k + 1] == a[k]);
            assert(sentineled(b)[k + 1] == b[k]);
        }
        assert(a =~= b);
    }
    if a == b {
        assert(sentineled(a) =~= sentineled(b));
    }
}

/// A well-typed tree evaluates inside its static domain.
pub proof fn lemma_eval_typed(e: SExpr)
    requires
        well_typed(e),
    ensures
        spec_type_of(e) == Type::Num ==> eval(e) matches Value::Num(_),
        spec_type_of(e) == Type::Text ==> eval(e) matches Value::Text(_),
        spec_type_of(e) == Type::Bool ==> eval(e) matches Value::Bool(_),
    decreases e,
{
    match e {
        SExpr::Unary(_, x) => lemma_eval_typed(*x),
        SExpr::Binop(_, l, r) => {
            lemma_eval_typed(*l);
            lemma_eval_typed(*r);
        },
        _ => {},
    }
}

/// Soundness of the translation: for every well-typed tree whose ordering
/// comparisons are numeric and whose divisors are nonzero, the emitted
/// fragment evaluates, under the shell model, to the encoding of the value
/// the source expression denotes.
pub proof fn lemma_translation_sound(e: SExpr)
    requires
        well_typed(e),
        orderings_numeric(e),
        divisions_defined(e),
    ensures
        shell_eval(form_of(e)) == encode(eval(e)),
    decreases e,
{
    match e {
        SExpr::Bool(b) => {
            assert(seq!['1'].drop_last() =~= Seq::<char>::empty());
            assert(seq!['0'].drop_last() =~= Seq::<char>::empty());
            assert(crate::sem::dec_val(Seq::<char>::empty()) == 0);
            assert(crate::sem::dec_val(seq!['1']) == 1);
            assert(crate::sem::dec_val(seq!['0']) == 0);
        },
        SExpr::Unary(k, x) => {
            lemma_translation_sound(*x);
            lemma_eval_typed(*x);
        },
        SExpr::Binop(k, l, r) => {
            lemma_translation_sound(*l);
            lemma_translation_sound(*r);
            lemma_eval_typed(*l);
            lemma_eval_typed(*r);
            if (k matches (BinopKind::Equal | BinopKind::NotEqual)) && spec_type_of(*l)
                == Type::Text && spec_type_of(*r) == Type::Text {
                lemma_text_typed_is_literal(*l);
                lemma_text_typed_is_literal(*r);
                lemma_sentinel_faithful(text_content(*l), text_content(*r));
            }
        },
        _ => {},
    }
}

/// Comparing any well-behaved expression with itself yields a fragment the
/// shell evaluates as true.
pub proof fn lemma_self_equality(x: SExpr)
    requires
        well_typed(x),
        orderings_numeric(x),
        divisions_defined(x),
    ensures
        well_typed(SExpr::Binop(BinopKind::Equal, Box::new(x), Box::new(x))),
        shell_eval(form_of(SExpr::Binop(BinopKind::Equal, Box::new(x), Box::new(x))))
            == Value::Num(1),
{
    let e = SExpr::Binop(BinopKind::Equal, Box::new(x), Box::new(x));
    lemma_translation_sound(e);
}

/// Two operands of one type always pass the equality check, and the
/// fragment's outcome is exactly that type's native equality of the two
/// values.
pub proof fn lemma_equality_agrees(l: SExpr, r: SExpr)
    requires
        well_typed(l),
        well_typed(r),
        spec_type_of(l) == spec_type_of(r),
        orderings_numeric(l),
        orderings_numeric(r),
        divisions_defined(l),
        divisions_defined(r),
    ensures
        binop_type_ok(BinopKind::Equal, spec_type_of(l), spec_type_of(r)),
        well_typed(SExpr::Binop(BinopKind::Equal, Box::new(l), Box::new(r))),
        shell_eval(form_of(SExpr::Binop(BinopKind::Equal, Box::new(l), Box::new(r))))
            == Value::Num(int_of_bool(eval(l) == eval(r))),
{
    let e = SExpr::Binop(BinopKind::Equal, Box::new(l), Box::new(r));
    lemma_translation_sound(e);
}

/// Numeric equality in particular: for every pair of numeric operands —
/// zero, negatives through numeric negation, any integers — the fragment
/// reports one exactly when the numbers are equal.
pub proof fn lemma_numeric_equality(l: SExpr, r: SExpr)
    requires
        well_typed(l),
        well_typed(r),
        spec_type_of(l) == Type::Num,
        spec_type_of(r) == Type::Num,
        orderings_numeric(l),
        orderings_numeric(r),
        divisions_defined(l),
        divisions_defined(r),
    ensures
        shell_eval(form_of(SExpr::Binop(BinopKind::Equal, Box::new(l), Box::new(r))))
            == Value::Num(int_of_bool(num_of(eval(l)) == num_of(eval(r)))),
{
    lemma_equality_agrees(l, r);
    lemma_eval_typed(l);
    lemma_eval_typed(r);
}

/// Text equality for every pair of contents, the empty text included: the
/// sentinel-prefixed test reports one exactly when the texts are equal.
pub proof fn lemma_text_equality(a: Seq<char>, b: Seq<char>)
    ensures
        shell_eval(form_of(SExpr::Binop(
            BinopKind::Equal,
            Box::new(SExpr::Text(a)),
            Box::new(SExpr::Text(b)),
        ))) == Value::Num(int_of_bool(a == b)),
{
    let e = SExpr::Binop(BinopKind::Equal, Box::new(SExpr::Text(a)), Box::new(SExpr::Text(b)));
    assert(well_typed(SExpr::Text(a)));
    assert(well_typed(SExpr::Text(b)));
    assert(well_typed(e));
    assert(orderings_numeric(SExpr::Text(a)));
    assert(orderings_numeric(SExpr::Text(b)));
    assert(orderings_numeric(e));
    assert(divisions_defined(SExpr::Text(a)));
    assert(divisions_defined(SExpr::Text(b)));
    assert(divisions_defined(e));
    lemma_translation_sound(e);
    assert(eval(SExpr::Text(a)) == Value::Text(a));
    assert(eval(SExpr::Text(b)) == Value::Text(b));
    assert((Value::Text(a) == Value::Text(b)) <==> (a == b));
    assert(eval(e) == Value::Bool(a == b));
}

/// Two operands of one type pass the equality check while parsing: the
/// grammar returns the equality node itself, with no error.
pub proof fn lemma_matched_equality_accepted(
    toks: Seq<Token>,
    i: int,
    j: int,
    next: int,
    l: SExpr,
    r: SExpr,
)
    requires
        0 <= i <= j < toks.len(),
        sp_binop_level(toks, i, 3) == (Parsed::Found { e: l, next: j }),
        toks[j].word@ == "=="@,
        sp_binop_level(toks, j + 1, 2) == (Parsed::Found { e: r, next }),
        spec_type_of(l) == spec_type_of(r),
    ensures
        sp_binop_level(toks, i, 2) == (Parsed::Found {
            e: SExpr::Binop(BinopKind::Equal, Box::new(l), Box::new(r)),
            next,
        }),
{
}

/// A number compared for equality with a text is rejected while parsing:
/// the grammar returns the fixed comparison message as a type error at the
/// `==` token's position — and no tree, so nothing is ever translated for
/// the unit.
pub proof fn lemma_mismatched_equality_rejected(
    toks: Seq<Token>,
    i: int,
    j: int,
    next: int,
    l: SExpr,
    r: SExpr,
)
    requires
        0 <= i <= j < toks.len(),
        sp_binop_level(toks, i, 3) == (Parsed::Found { e: l, next: j }),
        spec_type_of(l) == Type::Num,
        toks[j].word@ == "=="@,
        sp_binop_level(toks, j + 1, 2) == (Parsed::Found { e: r, next }),
        spec_type_of(r) == Type::Text,
    ensures
        !binop_type_ok(BinopKind::Equal, spec_type_of(l), spec_type_of(r)),
        sp_binop_level(toks, i, 2) == (Parsed::Failed {
            kind: crate::diag::DiagKind::TypeError,
            msg: binop_err_msg(BinopKind::Equal),
            pos: toks[j].pos,
        }),
{
}

/// Quote stripping is exact and idempotent: on a translated text literal it
/// recovers the content; content free of quote marks is left untouched and
/// keeps no residual quote mark that could alter meaning in a larger quoted
/// context.
pub proof fn lemma_strip_leaves_no_quote(s: Seq<char>)
    requires
        forall|k: int| 0 <= k < s.len() ==> s[k] != '"',
    ensures
        strip_spec(render(form_of(SExpr::Text(s)))) == s,
        strip_spec(s) == s,
{
    lemma_strip_quoted(s);
}

} // verus!
