use java_compiler::ast::class::{AstClass, AstMethod, AstParameter, AstScope};
use java_compiler::scanner::token::TokenType;
use java_compiler::ast::expression::Expression;
use java_compiler::ast::statement::Statement;
use java_compiler::test_support::comparator::ComparisonResult;
use java_compiler::test_support::{build_class_from_source_and_compare, build_method_only_and_compare};

fn simple_source() -> String {
    "public class Simple {\n    public static void main(String[] args) {\n        System.out.println(\"Hello World\");\n    }\n}\n".to_string()
}

#[test]
fn should_build_simple_ast() {
    let expected = AstClass::new(
        "Simple".to_string(),
        AstScope::Public,
        false,
        false,
        vec![AstMethod::new(
            "main".to_string(),
            AstScope::Public,
            false,
            true,
            "void".to_string(),
            false,
            vec![AstParameter::new("args".to_string(), "String".to_string(), false)],
            vec![Statement::new_expression_statement(Expression::new_object_expression(
                Expression::new_static_identifier("System".to_string()),
                Expression::new_object_expression(
                    Expression::new_static_identifier("out".to_string()),
                    Expression::new_call(
                        "println".to_string(),
                        vec![Expression::new_string_literal("Hello World".to_string())],
                    ),
                ),
            ))],
        )],
    );

    let result = build_class_from_source_and_compare(simple_source().as_str(), &expected);
    assert!(matches!(result, ComparisonResult::Match), "Not a match: {:?}", result);
}

#[test]
fn should_build_method_with_string_variable_assignment() {
    let content = r#"
        public static void main(String[] args) {
            String message = "hello";
            System.out.println(message);
        }
        "#;
    let expected = AstMethod::new(
        "main".to_string(),
        AstScope::Public,
        false,
        true,
        "void".to_string(),
        false,
        vec![AstParameter::new("args".to_string(), "String".to_string(), false)],
        vec![
            Statement::new_var_assignment(
                "message".to_string(),
                Some("String".to_string()),
                false,
                Some(Expression::new_string_literal("hello".to_string())),
            ),
            Statement::new_expression_statement(Expression::new_object_expression(
                Expression::new_static_identifier("System".to_string()),
                Expression::new_object_expression(
                    Expression::new_static_identifier("out".to_string()),
                    Expression::new_call(
                        "println".to_string(),
                        vec![Expression::new_static_identifier("message".to_string())],
                    ),
                ),
            )),
        ],
    );

    let result = build_method_only_and_compare(content, &expected);
    assert!(matches!(result, ComparisonResult::Match), "Not a match: {:?}", result);
}

#[test]
fn reparsing_identical_source_gives_equal_asts() {
    let first = java_compiler::build_ast(simple_source().as_str()).unwrap();
    let second = java_compiler::build_ast(simple_source().as_str()).unwrap();
    let mut differences: Vec<String> = Vec::new();
    java_compiler::test_support::comparator::check_and_report_difference_in_class(
        &first,
        &second,
        "Class",
        &mut differences,
    );
    assert_eq!(differences.len(), 0);
}

#[test]
fn failed_alternative_restores_cursor_position() {
    // a lone semicolon matches no expression alternative
    let tokens = java_compiler::scanner::scanner::scan("; x");
    let mut parser = java_compiler::ast::parser::AstParser::for_tokens(tokens);
    parser.auto_commit = false;
    let before = parser.position;
    let r = java_compiler::ast::expression_structure::find_next_expression(&mut parser);
    assert!(r.is_none());
    assert_eq!(parser.position, before);
    assert_eq!(parser.transaction_positions.len(), 0);
}

#[test]
fn rollback_restores_saved_position() {
    let tokens = java_compiler::scanner::scanner::scan("a b c");
    let mut parser = java_compiler::ast::parser::AstParser::for_tokens(tokens);
    parser.auto_commit = false;
    parser.start_transaction();
    parser.next_token();
    parser.next_token();
    assert_eq!(parser.position, 2);
    parser.rollback();
    assert_eq!(parser.position, 0);
}

#[test]
fn scanner_produces_expected_token_kinds() {
    let tokens = java_compiler::scanner::scanner::scan("public class A { }");
    let kinds: Vec<TokenType> = tokens.iter().map(|t| t.token_type).collect();
    assert_eq!(
        kinds,
        vec![
            TokenType::Public,
            TokenType::Class,
            TokenType::Identifier,
            TokenType::LeftBrace,
            TokenType::RightBrace,
            TokenType::Eof,
        ]
    );
    assert_eq!(tokens[2].lexeme.as_ref().unwrap(), "A");
}

#[test]
fn scanner_decodes_string_literals() {
    let tokens = java_compiler::scanner::scanner::scan("\"hi there\"");
    assert_eq!(tokens.len(), 2);
    match tokens[0].literal.as_ref().unwrap() {
        java_compiler::scanner::token::Literal::Text(s) => assert_eq!(s, "hi there"),
    }
}

#[test]
fn unsupported_construct_reports_parse_error() {
    let r = java_compiler::build_ast("public public");
    assert!(matches!(r, Err(java_compiler::ast::ParseError::NoTransitionAvailable { .. })));
}

#[test]
fn missing_terminator_is_malformed_statement() {
    let r = java_compiler::build_ast(
        "public class A { public static void main(String[] args) { System.out.println(\"x\") } }",
    );
    assert!(matches!(r, Err(java_compiler::ast::ParseError::MalformedStatement { .. })));
}
