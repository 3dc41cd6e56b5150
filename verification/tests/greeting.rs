use tiptv::{format_greeting, greet, MAX_NAME_LENGTH};

#[test]
fn test_greet_with_name() {
    // Test that greet returns a proper greeting message
    let name = "Test User".to_string();
    let result = greet(name.clone());
    assert!(result.is_ok());

    let greeting = result.unwrap();
    // Greeting should contain the user's name
    assert!(greeting.contains(&name),
            "Greeting '{}' should contain name '{}'", greeting, name);
    // Greeting should contain "TIPTV"
    assert!(greeting.contains("TIPTV"),
            "Greeting should mention TIPTV");
}

#[test]
fn test_greet_with_empty_name() {
    // Test that greet rejects empty names after validation
    let name = "".to_string();
    let result = greet(name);
    assert!(result.is_err());

    let error = result.unwrap_err();
    // Should return an error about empty name
    assert!(error.contains("empty"));
}

#[test]
fn test_greet_with_long_name() {
    // Test that greet rejects names that are too long
    let name = "a".repeat(101); // 101 characters, exceeds max of 100
    let result = greet(name);
    assert!(result.is_err());

    let error = result.unwrap_err();
    // Should return an error about length
    assert!(error.contains("maximum length"));
}

#[test]
fn test_greet_sanitizes_input() {
    // Test that greet sanitizes special characters
    let name = "Test<script>alert('xss')</script>User".to_string();
    let result = greet(name);
    assert!(result.is_ok());

    let greeting = result.unwrap();
    // Should not contain script tags
    assert!(!greeting.contains("<script>"));
    assert!(!greeting.contains("</script>"));
    // Should contain sanitized version
    assert!(greeting.contains("TestscriptalertxssscriptUser"));
}

#[test]
fn greeting_wording() {
    assert_eq!(format_greeting("Ann"), "Hello, Ann! Welcome to TIPTV.");
    assert_eq!(format_greeting(""), "Hello, ! Welcome to TIPTV.");
}

#[test]
fn greet_exact_output() {
    assert_eq!(
        greet("Test User".to_string()),
        Ok("Hello, Test User! Welcome to TIPTV.".to_string())
    );
    assert_eq!(
        greet("Test<script>alert('xss')</script>User".to_string()),
        Ok("Hello, TestscriptalertxssscriptUser! Welcome to TIPTV.".to_string())
    );
}

#[test]
fn greet_exact_errors() {
    assert_eq!(greet(String::new()), Err("Name cannot be empty".to_string()));
    assert_eq!(greet("   ".to_string()), Err("Name cannot be empty".to_string()));
    assert_eq!(greet("<>".to_string()), Err("Name cannot be empty".to_string()));
    assert_eq!(
        greet("a".repeat(101)),
        Err("Input exceeds maximum length of 100 characters".to_string())
    );
}

#[test]
fn greet_limit_is_one_hundred_characters() {
    assert_eq!(MAX_NAME_LENGTH, 100);
    assert!(greet("a".repeat(100)).is_ok());
    assert!(greet("a".repeat(101)).is_err());
    // One hundred characters of two bytes each are within the limit.
    assert!(greet("é".repeat(100)).is_ok());
    assert!(greet("é".repeat(101)).is_err());
}

#[test]
fn greet_rejects_long_name_before_sanitizing() {
    // 101 characters that would all be dropped: the length decides.
    assert_eq!(
        greet("<".repeat(101)),
        Err("Input exceeds maximum length of 100 characters".to_string())
    );
}

#[test]
fn greet_keeps_surrounding_whitespace() {
    assert_eq!(greet(" Ann ".to_string()), Ok("Hello,  Ann ! Welcome to TIPTV.".to_string()));
}
