use secret::Checker;
use secret::Strength;

/* Weak passwords */
#[test]
fn passwords_less_than_8_chars_long_are_always_weak() {
    let checker = Checker::new();

    assert_eq!(Strength::Weak, checker.check("1234567"));
    assert_eq!(Strength::Weak, checker.check("1a3b5c7"));
    assert_eq!(Strength::Weak, checker.check("1aAb5c7"));
    assert_eq!(Strength::Weak, checker.check("1aAb5c@"));
}

#[test]
fn passwords_that_are_common_are_weak() {
    let checker = Checker::new();

    assert_eq!(Strength::Weak, checker.check("qwerty"));
    assert_eq!(Strength::Weak, checker.check("password"));
    assert_eq!(Strength::Weak, checker.check("secret"));
}

#[test]
fn passwords_with_only_small_letters_are_weak() {
    let checker = Checker::new();
    assert_eq!(Strength::Weak, checker.check("qwertyuiop"));
}

#[test]
fn passwords_with_only_capital_letters_are_weak() {
    let checker = Checker::new();
    assert_eq!(Strength::Weak, checker.check("QWERTYUIOP"));
}

#[test]
fn passwords_with_only_numbers_are_weak() {
    let checker = Checker::new();
    assert_eq!(Strength::Weak, checker.check("1234567890"));
}

#[test]
fn passwords_with_only_symbols_are_weak() {
    let checker = Checker::new();
    assert_eq!(Strength::Weak, checker.check("!@#$%^&*()"));
}

#[test]
fn passwords_with_a_single_repetitive_character_are_weak() {
    let checker = Checker::new();

    assert_eq!(Strength::Weak, checker.check("aaaaaaaaaa"));
    assert_eq!(Strength::Weak, checker.check("AAAAAAAAAA"));
    assert_eq!(Strength::Weak, checker.check("1111111111"));
    assert_eq!(Strength::Weak, checker.check("@@@@@@@@@@"));
}

/* Medium passwords */
#[test]
fn passwords_at_least_8_chars_long_with_2_char_types_in_them_are_medium() {
    let checker = Checker::new();

    assert_eq!(Strength::Medium, checker.check("abcdABCD"));
    assert_eq!(Strength::Medium, checker.check("abcd!@#$"));
    assert_eq!(Strength::Medium, checker.check("abcd1234"));
    assert_eq!(Strength::Medium, checker.check("ABCD1234"));
    assert_eq!(Strength::Medium, checker.check("ABCD!@#$"));
    assert_eq!(Strength::Medium, checker.check("1234!@#$"));
    assert_eq!(Strength::Medium, checker.check("S0meL0ngP4ssw0rd"));
}

#[test]
fn passwords_at_least_8_chars_long_with_3_char_types_in_them_are_medium() {
    let checker = Checker::new();

    assert_eq!(Strength::Medium, checker.check("abcDEF12"));
    assert_eq!(Strength::Medium, checker.check("abcDEF!@"));
    assert_eq!(Strength::Medium, checker.check("ABC123!@"));
    assert_eq!(Strength::Medium, checker.check("abc123!@"));
    assert_eq!(Strength::Medium, checker.check("S0meStr0ngPassw0rd"));
}

/* Strong passwords */
#[test]
fn passwords_at_least_8_chars_long_with_all_char_types_in_them_are_strong() {
    let checker = Checker::new();

    assert_eq!(Strength::Strong, checker.check("12abCD!@"));
    assert_eq!(Strength::Strong, checker.check("12345aA!"));
    assert_eq!(Strength::Strong, checker.check("abcdeT7*"));
    assert_eq!(Strength::Strong, checker.check("QWERTy6^"));
    assert_eq!(Strength::Strong, checker.check("S0meL0n(P@ssWORD"));
}

/* Edge cases and class predicates */
#[test]
fn empty_passwords_are_weak() {
    let checker = Checker::new();
    assert_eq!(Strength::Weak, checker.check(""));
}

#[test]
fn exactly_8_chars_of_a_single_class_are_weak() {
    let checker = Checker::new();
    assert_eq!(Strength::Weak, checker.check("aaaaaaaa"));
}

#[test]
fn checking_is_deterministic() {
    let checker = Checker::new();

    assert_eq!(checker.check("12abCD!@"), checker.check("12abCD!@"));
    assert_eq!(checker.check("qwerty"), checker.check("qwerty"));
    assert_eq!(checker.check("abcdABCD"), checker.check("abcdABCD"));
}

#[test]
fn class_predicates_detect_each_class() {
    let checker = Checker::new();

    assert!(checker.has_small_letters("abc"));
    assert!(!checker.has_small_letters("ABC123!@"));
    assert!(checker.has_capital_letters("ABC"));
    assert!(!checker.has_capital_letters("abc123!@"));
    assert!(checker.has_numbers("123"));
    assert!(!checker.has_numbers("abcABC!@"));
    assert!(checker.has_special_chars("!@#"));
    assert!(!checker.has_special_chars("abcABC123"));
}
