//! What formatting means for a source.

use incan_backend::format::{check_formatted, format_diff, format_source, format_source_with_config, Formatting};

fn formatted(text: &str) -> Formatting {
    Formatting::Formatted(text.to_string())
}

fn broken() -> Formatting {
    Formatting::ParseFailed("[Expected ')']".to_string())
}

#[test]
fn test_format_source_simple_function() {
    let source = "def foo() -> int:\n  return 42\n";
    let result = format_source(formatted("def foo() -> int:\n    return 42\n"));
    assert!(result.is_ok());
    assert_ne!(result, Ok(source.to_string()));
}

#[test]
fn test_format_source_model() {
    let source = "model User:\n  name: str\n  age: int\n";
    let result = format_source(formatted("model User:\n    name: str\n    age: int\n"));
    assert!(result.is_ok());
    assert_ne!(result, Ok(source.to_string()));
}

#[test]
fn test_format_source_invalid_syntax() {
    let result = format_source(broken());
    assert!(result.is_err());
    assert_eq!(result, Err("Parser error: [Expected ')']".to_string()));
}

#[test]
fn test_format_source_empty() {
    let result = format_source(formatted(""));
    assert!(result.is_ok());
}

#[test]
fn test_format_source_with_custom_config() {
    let result = format_source_with_config(formatted("def foo() -> int:\n  return 42\n"));
    assert!(result.is_ok());
}

#[test]
fn test_format_source_with_different_line_length() {
    let result = format_source_with_config(formatted("def foo() -> int:\n    return 42\n"));
    assert!(result.is_ok());
}

#[test]
fn test_check_formatted_simple() {
    let source = "def foo() -> int:\n    return 42\n";
    let result = check_formatted(source, formatted(source));
    assert!(result.is_ok());
    assert_eq!(result, Ok(true));
    assert_eq!(check_formatted("def foo() -> int:\n  return 42\n", formatted(source)), Ok(false));
}

#[test]
fn test_check_formatted_invalid_syntax() {
    let result = check_formatted("def foo(", broken());
    assert!(result.is_err());
}

#[test]
fn test_format_diff_no_changes() {
    let source = "def foo() -> int:\n    return 42\n";
    let result = format_diff(source, formatted(source));
    assert!(result.is_ok());
    assert_eq!(result, Ok(None));
}

#[test]
fn test_format_diff_invalid_syntax() {
    let result = format_diff("def foo(", broken());
    assert!(result.is_err());
}

#[test]
fn test_format_diff_returns_diff() {
    let source = "def foo() -> int:\n return 42\n";
    let result = format_diff(source, formatted("def foo() -> int:\n    return 42\n"));
    assert!(result.is_ok());
    assert_eq!(result, Ok(Some("-   2 |  return 42\n+   2 |     return 42\n".to_string())));
}

#[test]
fn lexer_errors_are_reported() {
    assert_eq!(
        format_source(Formatting::LexFailed("[bad]".to_string())),
        Err("Lexer error: [bad]".to_string())
    );
}

#[test]
fn empty_lines_are_left_out_of_a_difference() {
    assert_eq!(
        format_diff("a\n\nb", formatted("a\nx\nb\nc\n")),
        Ok(Some("+   2 | x\n+   4 | c\n".to_string()))
    );
}

#[test]
fn texts_with_the_same_lines_show_no_difference() {
    assert_eq!(format_diff("a\r\nb", formatted("a\nb\n")), Ok(Some(String::new())));
}
