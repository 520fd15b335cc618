use shellexpr::ast::Type;
use shellexpr::diag::DiagKind;
use shellexpr::parser::parse;
use shellexpr::token::{Position, Token};
use shellexpr::translate::{strip_text_quotes, TranslateMetadata};

fn tok(word: &str, col: usize) -> Token {
    Token {
        word: word.to_string(),
        pos: Position { row: 1, col },
    }
}

fn toks(words: &[&str]) -> Vec<Token> {
    words
        .iter()
        .enumerate()
        .map(|(i, w)| tok(w, i + 1))
        .collect()
}

fn translated(words: &[&str]) -> String {
    let e = parse(&toks(words)).expect("expression should parse");
    let mut meta = TranslateMetadata::new();
    e.translate(&mut meta)
}

#[test]
fn number_equality_is_a_numeric_test() {
    assert_eq!(translated(&["5", "==", "5"]), "$(( 5 == 5 ))");
    assert_eq!(translated(&["5", "==", "6"]), "$(( 5 == 6 ))");
    assert_eq!(translated(&["0", "==", "0"]), "$(( 0 == 0 ))");
}

#[test]
fn equality_node_has_type_bool() {
    let e = parse(&toks(&["5", "==", "5"])).expect("should parse");
    assert_eq!(e.get_type(), Type::Bool);
    let e = parse(&toks(&["\"a\"", "==", "\"b\""])).expect("should parse");
    assert_eq!(e.get_type(), Type::Bool);
    let e = parse(&toks(&["true", "==", "false"])).expect("should parse");
    assert_eq!(e.get_type(), Type::Bool);
}

#[test]
fn text_equality_uses_sentinel_test() {
    assert_eq!(
        translated(&["\"foo\"", "==", "\"foo\""]),
        "$([ \"_foo\" != \"_foo\" ]; echo $?)"
    );
    assert_eq!(
        translated(&["\"foo\"", "==", "\"bar\""]),
        "$([ \"_foo\" != \"_bar\" ]; echo $?)"
    );
}

#[test]
fn empty_text_equality_keeps_the_sentinel() {
    assert_eq!(
        translated(&["\"\"", "==", "\"\""]),
        "$([ \"_\" != \"_\" ]; echo $?)"
    );
}

#[test]
fn trailing_space_text_comparison_type_checks() {
    let e = parse(&toks(&["\"a\"", "==", "\"a \""])).expect("both arms are text");
    assert_eq!(e.get_type(), Type::Bool);
    let mut meta = TranslateMetadata::new();
    assert_eq!(
        e.translate(&mut meta),
        "$([ \"_a\" != \"_a \" ]; echo $?)"
    );
}

#[test]
fn text_inequality_flips_the_test() {
    assert_eq!(
        translated(&["\"a\"", "!=", "\"b\""]),
        "$([ \"_a\" == \"_b\" ]; echo $?)"
    );
}

#[test]
fn number_text_comparison_is_a_type_error_at_the_operator() {
    let d = parse(&toks(&["5", "==", "\"a\""])).expect_err("types differ");
    assert_eq!(d.kind, DiagKind::TypeError);
    assert_eq!(
        d.message.as_str(),
        "Cannot compare two values of different types"
    );
    assert_eq!(d.pos, Position { row: 1, col: 2 });
}

#[test]
fn bool_number_comparison_is_a_type_error() {
    let d = parse(&toks(&["true", "==", "1"])).expect_err("types differ");
    assert_eq!(d.kind, DiagKind::TypeError);
    assert_eq!(
        d.message.as_str(),
        "Cannot compare two values of different types"
    );
}

#[test]
fn boolean_literals_translate_to_one_and_zero() {
    assert_eq!(translated(&["true", "==", "false"]), "$(( 1 == 0 ))");
    assert_eq!(translated(&["not", "true"]), "$(( ! 1 ))");
}

#[test]
fn logic_translates_to_shell_connectives() {
    assert_eq!(translated(&["true", "and", "false"]), "$(( 1 && 0 ))");
    assert_eq!(translated(&["true", "or", "false"]), "$(( 1 || 0 ))");
}

#[test]
fn ordering_translates_to_numeric_comparison() {
    assert_eq!(translated(&["1", "<", "2"]), "$(( 1 < 2 ))");
    assert_eq!(translated(&["1", "<=", "2"]), "$(( 1 <= 2 ))");
    assert_eq!(translated(&["2", ">", "1"]), "$(( 2 > 1 ))");
    assert_eq!(translated(&["2", ">=", "1"]), "$(( 2 >= 1 ))");
}

#[test]
fn multiplication_binds_tighter_than_addition() {
    assert_eq!(
        translated(&["1", "+", "2", "*", "3"]),
        "$(( 1 + $(( 2 * 3 )) ))"
    );
}

#[test]
fn parentheses_override_precedence() {
    assert_eq!(
        translated(&["(", "1", "+", "2", ")", "*", "3"]),
        "$(( $(( 1 + 2 )) * 3 ))"
    );
}

#[test]
fn division_and_modulo_translate() {
    assert_eq!(translated(&["7", "/", "2"]), "$(( 7 / 2 ))");
    assert_eq!(translated(&["7", "%", "2"]), "$(( 7 % 2 ))");
}

#[test]
fn negative_numbers_compare_through_negation() {
    assert_eq!(
        translated(&["-", "5", "==", "-", "5"]),
        "$(( $(( - 5 )) == $(( - 5 )) ))"
    );
}

#[test]
fn nested_equality_embeds_in_arithmetic() {
    assert_eq!(
        translated(&["true", "==", "(", "1", "==", "1", ")"]),
        "$(( 1 == $(( 1 == 1 )) ))"
    );
}

#[test]
fn missing_closing_paren_is_a_syntax_error() {
    let d = parse(&toks(&["(", "1"])).expect_err("paren never closes");
    assert_eq!(d.kind, DiagKind::SyntaxError);
    assert_eq!(
        d.message.as_str(),
        "Expected token ')' but found the end of the expression"
    );
}

#[test]
fn wrong_closing_token_names_both_tokens() {
    let d = parse(&toks(&["(", "1", "]"])).expect_err("wrong closer");
    assert_eq!(d.kind, DiagKind::SyntaxError);
    assert_eq!(d.message.as_str(), "Expected token ')' but found ']'");
    assert_eq!(d.pos, Position { row: 1, col: 3 });
}

#[test]
fn empty_stream_is_a_syntax_error() {
    let d = parse(&Vec::new()).expect_err("nothing to parse");
    assert_eq!(d.kind, DiagKind::SyntaxError);
    assert_eq!(
        d.message.as_str(),
        "Expected an expression but found the end of the expression"
    );
}

#[test]
fn operator_without_operand_is_a_syntax_error() {
    let d = parse(&toks(&["=="])).expect_err("no operand");
    assert_eq!(d.kind, DiagKind::SyntaxError);
    assert_eq!(d.message.as_str(), "Expected an expression but found '=='");
    assert_eq!(d.pos, Position { row: 1, col: 1 });
}

#[test]
fn leftover_token_is_a_syntax_error() {
    let d = parse(&toks(&["1", "2"])).expect_err("second literal is left over");
    assert_eq!(d.kind, DiagKind::SyntaxError);
    assert_eq!(d.message.as_str(), "Unexpected token '2'");
    assert_eq!(d.pos, Position { row: 1, col: 2 });
}

#[test]
fn adding_text_is_a_type_error() {
    let d = parse(&toks(&["1", "+", "\"a\""])).expect_err("text is not a number");
    assert_eq!(d.kind, DiagKind::TypeError);
    assert_eq!(
        d.message.as_str(),
        "Cannot add two values that are not numbers"
    );
    assert_eq!(d.pos, Position { row: 1, col: 2 });
}

#[test]
fn adding_booleans_is_a_type_error() {
    let d = parse(&toks(&["true", "+", "true"])).expect_err("booleans do not add");
    assert_eq!(d.kind, DiagKind::TypeError);
    assert_eq!(
        d.message.as_str(),
        "Cannot add two values that are not numbers"
    );
}

#[test]
fn subtraction_multiplication_division_modulo_need_numbers() {
    let d = parse(&toks(&["\"a\"", "-", "\"b\""])).expect_err("text does not subtract");
    assert_eq!(
        d.message.as_str(),
        "Cannot subtract two values that are not numbers"
    );
    let d = parse(&toks(&["true", "*", "1"])).expect_err("bool does not multiply");
    assert_eq!(
        d.message.as_str(),
        "Cannot multiply two values that are not numbers"
    );
    let d = parse(&toks(&["\"a\"", "/", "1"])).expect_err("text does not divide");
    assert_eq!(
        d.message.as_str(),
        "Cannot divide two values that are not numbers"
    );
    let d = parse(&toks(&["true", "%", "1"])).expect_err("bool has no modulo");
    assert_eq!(
        d.message.as_str(),
        "Cannot compute the modulo of two values that are not numbers"
    );
}

#[test]
fn logic_needs_booleans() {
    let d = parse(&toks(&["1", "and", "2"])).expect_err("numbers are not booleans");
    assert_eq!(d.kind, DiagKind::TypeError);
    assert_eq!(
        d.message.as_str(),
        "Cannot perform logical conjunction on two values that are not booleans"
    );
    let d = parse(&toks(&["1", "or", "2"])).expect_err("numbers are not booleans");
    assert_eq!(
        d.message.as_str(),
        "Cannot perform logical disjunction on two values that are not booleans"
    );
}

#[test]
fn unary_operators_check_their_operand() {
    let d = parse(&toks(&["not", "5"])).expect_err("a number is not a boolean");
    assert_eq!(d.kind, DiagKind::TypeError);
    assert_eq!(
        d.message.as_str(),
        "Cannot negate a value that is not a boolean"
    );
    assert_eq!(d.pos, Position { row: 1, col: 1 });
    let d = parse(&toks(&["-", "\"a\""])).expect_err("text is not a number");
    assert_eq!(
        d.message.as_str(),
        "Cannot negate a value that is not a number"
    );
}

#[test]
fn strip_text_quotes_removes_one_pair() {
    let mut s = "\"abc\"".to_string();
    strip_text_quotes(&mut s);
    assert_eq!(s, "abc");
    let mut s = "\"\"".to_string();
    strip_text_quotes(&mut s);
    assert_eq!(s, "");
    let mut s = "abc".to_string();
    strip_text_quotes(&mut s);
    assert_eq!(s, "abc");
    let mut s = "\"".to_string();
    strip_text_quotes(&mut s);
    assert_eq!(s, "");
}

#[test]
fn stripped_fragment_holds_no_residual_quote() {
    let e = parse(&toks(&["\"a\"", "==", "\"a\""])).expect("should parse");
    let mut meta = TranslateMetadata::new();
    let fragment = e.translate(&mut meta);
    assert_eq!(fragment, "$([ \"_a\" != \"_a\" ]; echo $?)");
    let quotes = fragment.chars().filter(|c| *c == '"').count();
    assert_eq!(quotes, 4);
}

#[test]
fn self_equality_of_each_domain() {
    assert_eq!(translated(&["5", "==", "5"]), "$(( 5 == 5 ))");
    assert_eq!(translated(&["true", "==", "true"]), "$(( 1 == 1 ))");
    assert_eq!(
        translated(&["\"x\"", "==", "\"x\""]),
        "$([ \"_x\" != \"_x\" ]; echo $?)"
    );
}

#[test]
fn translation_leaves_the_context_unchanged() {
    let e = parse(&toks(&["1", "+", "2"])).expect("should parse");
    let mut meta = TranslateMetadata::new();
    let _ = e.translate(&mut meta);
    assert_eq!(meta.fresh_name_id, 0);
}

#[test]
fn fresh_ids_count_up() {
    let mut meta = TranslateMetadata::new();
    assert_eq!(meta.gen_id(), 0);
    assert_eq!(meta.gen_id(), 1);
    assert_eq!(meta.fresh_name_id, 2);
}

#[test]
fn leading_zero_numeral_is_rejected() {
    let d = parse(&toks(&["007"])).expect_err("the shell would read it as octal");
    assert_eq!(d.kind, DiagKind::SyntaxError);
    assert_eq!(d.message.as_str(), "Expected an expression but found '007'");
    let zero = parse(&toks(&["0"])).expect("a lone zero is a numeral");
    assert_eq!(zero.get_type(), Type::Num);
}

#[test]
fn deep_chains_nest_on_the_right() {
    assert_eq!(
        translated(&["1", "+", "2", "+", "3"]),
        "$(( 1 + $(( 2 + 3 )) ))"
    );
}
