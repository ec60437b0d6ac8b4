use mcp_rust_docs::text::{lower_char, push_decimal, push_u32_list, trimmed};
use mcp_rust_docs::validation::validate_crate_name_chars;

#[test]
fn crate_name_chars_accepts_published_charset() {
    assert_eq!(validate_crate_name_chars("serde_json-2"), Ok(()));
    assert_eq!(validate_crate_name_chars(&"x".repeat(64)), Ok(()));
}

#[test]
fn crate_name_chars_rejects_with_reason() {
    assert_eq!(
        validate_crate_name_chars(""),
        Err("crate name must not be empty".to_string())
    );
    assert_eq!(
        validate_crate_name_chars(&"x".repeat(65)),
        Err("crate name longer than 64 characters".to_string())
    );
    assert_eq!(
        validate_crate_name_chars("tokio?x=1"),
        Err("crate name contains disallowed characters: \"tokio?x=1\"".to_string())
    );
    assert_eq!(
        validate_crate_name_chars("é"),
        Err("crate name contains disallowed characters: \"é\"".to_string())
    );
}

#[test]
fn crate_name_length_counts_bytes() {
    let name = "é".repeat(33);
    assert_eq!(
        validate_crate_name_chars(&name),
        Err("crate name longer than 64 characters".to_string())
    );
}

#[test]
fn text_helpers() {
    assert_eq!(trimmed("\u{3000} a b \n"), "a b");
    assert_eq!(lower_char('Q'), 'q');
    assert_eq!(lower_char('É'), 'É');
    let mut s = String::from("n=");
    push_decimal(&mut s, 1234567890);
    assert_eq!(s, "n=1234567890");
    let mut s = String::new();
    push_u32_list(&mut s, &vec![]);
    push_u32_list(&mut s, &vec![7, 0, 42]);
    assert_eq!(s, "[][7, 0, 42]");
}
