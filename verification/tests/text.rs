use headstash::error::ContractError;
use headstash::signature::{compute_plaintext_msg, validate_plaintext_msg};
use headstash::state::{Config, Owner};
use headstash::text::{text_contains, text_occurs_at, text_replace};

#[test]
fn replace_matches_the_standard_library() {
    let cases = [
        ("My account is {wallet}", "{wallet}", "terp1abc"),
        ("{wallet}{wallet}", "{wallet}", "x"),
        ("{wallet} and {wallet} again {wallet}", "{wallet}", ""),
        ("no placeholder", "{wallet}", "terp1abc"),
        ("", "{wallet}", "terp1abc"),
        ("{wallet", "{wallet}", "terp1abc"),
        ("{{wallet}}", "{wallet}", "w"),
        ("aaaa", "aa", "b"),
        ("aaa", "aa", "b"),
        ("ababab", "aba", "X"),
        ("héllo {wallet} wörld", "{wallet}", "ü"),
        ("{wallet}", "{wallet}", "{wallet}{wallet}"),
    ];
    for (text, pattern, with) in cases {
        assert_eq!(text_replace(text, pattern, with), text.replace(pattern, with));
    }
}

#[test]
fn replace_with_empty_pattern_changes_nothing() {
    assert_eq!(text_replace("abc", "", "x"), "abc");
    assert_eq!(text_replace("", "", "x"), "");
}

#[test]
fn contains_finds_the_pattern_anywhere() {
    assert!(text_contains("{wallet}", "{wallet}"));
    assert!(text_contains("a{wallet}", "{wallet}"));
    assert!(text_contains("{wallet}b", "{wallet}"));
    assert!(text_contains("é{wallet}é", "{wallet}"));
    assert!(!text_contains("{wallet", "{wallet}"));
    assert!(!text_contains("", "{wallet}"));
    assert!(!text_contains("{ wallet }", "{wallet}"));
    assert!(text_contains("", ""));
    assert!(text_contains("abc", ""));
}

#[test]
fn occurs_at_counts_characters() {
    assert!(text_occurs_at("é{wallet}", "{wallet}", 1));
    assert!(!text_occurs_at("é{wallet}", "{wallet}", 2));
    assert!(!text_occurs_at("é{wallet}", "{wallet}", 0));
    assert!(!text_occurs_at("abc", "c", 3));
    assert!(text_occurs_at("abc", "", 3));
    assert!(!text_occurs_at("abc", "", 4));
}

#[test]
fn plaintext_names_the_sender() {
    let config = Config {
        owner: Owner::Frozen,
        claim_msg_plaintext: "I, {wallet}, claim for {wallet}".to_string(),
    };
    assert_eq!(compute_plaintext_msg(&config, "terp1abc"), "I, terp1abc, claim for terp1abc");
    let plain = Config { owner: Owner::Frozen, claim_msg_plaintext: "nothing".to_string() };
    assert_eq!(compute_plaintext_msg(&plain, "terp1abc"), "nothing");
}

#[test]
fn template_needs_the_placeholder() {
    assert_eq!(validate_plaintext_msg("{wallet}".to_string()), Ok(()));
    assert_eq!(
        validate_plaintext_msg("wallet".to_string()),
        Err(ContractError::PlaintextMsgNoWallet {})
    );
    assert_eq!(validate_plaintext_msg(String::new()), Err(ContractError::PlaintextMsgNoWallet {}));
}

#[test]
fn template_is_at_most_1000_bytes_long() {
    let exact = format!("{}{}", "{wallet}", "a".repeat(992));
    assert_eq!(exact.len(), 1000);
    assert_eq!(validate_plaintext_msg(exact), Ok(()));
    let long = format!("{}{}", "{wallet}", "a".repeat(993));
    assert_eq!(validate_plaintext_msg(long), Err(ContractError::PlaintextTooLong {}));
    // bytes count, not characters
    let wide = format!("{}{}", "{wallet}", "é".repeat(497));
    assert_eq!(wide.len(), 1002);
    assert_eq!(validate_plaintext_msg(wide), Err(ContractError::PlaintextTooLong {}));
    // a missing placeholder is reported first
    assert_eq!(
        validate_plaintext_msg("a".repeat(2000)),
        Err(ContractError::PlaintextMsgNoWallet {})
    );
}
