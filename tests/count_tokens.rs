use tokenizer::{count_tokens, is_whitespace};

#[test]
fn empty_text_has_no_tokens() {
    assert_eq!(count_tokens(""), 0);
}

#[test]
fn two_words() {
    assert_eq!(count_tokens("hello world"), 2);
}

#[test]
fn leading_and_trailing_white_space() {
    assert_eq!(count_tokens("   leading and trailing   "), 3);
}

#[test]
fn tab_and_newline_separate() {
    assert_eq!(count_tokens("one\ttwo\nthree"), 3);
}

#[test]
fn single_word() {
    assert_eq!(count_tokens("single"), 1);
}

#[test]
fn three_spaces_have_no_tokens() {
    assert_eq!(count_tokens("   "), 0);
}

#[test]
fn mixed_white_space_only_has_no_tokens() {
    assert_eq!(count_tokens(" \t\n\r \u{0B}\u{0C}\t  \n"), 0);
    assert_eq!(count_tokens("\u{3000}\u{A0}\u{2028}\u{85}"), 0);
}

#[test]
fn unicode_spaces_separate() {
    assert_eq!(count_tokens("a\u{3000}b\u{A0}c\u{2009}d\u{1680}e"), 5);
    assert_eq!(count_tokens("\u{2029}x\u{205F}y\u{202F}"), 2);
}

#[test]
fn non_white_space_unicode_is_part_of_a_token() {
    assert_eq!(count_tokens("héllo wörld 越南"), 3);
    assert_eq!(count_tokens("a\u{200B}b"), 1);
}

#[test]
fn collapsing_white_space_keeps_count() {
    let pairs = [
        ("a \t\n b", "a b"),
        ("  x  y  ", " x y "),
        ("p\u{3000}\u{3000}q", "p q"),
    ];
    for (long, short) in pairs {
        assert_eq!(count_tokens(long), count_tokens(short));
    }
    assert_eq!(count_tokens("a \t\n b"), 2);
}

#[test]
fn joining_with_a_space_adds_counts() {
    let a = "alpha beta";
    let b = "gamma";
    let joined = format!("{} {}", a, b);
    assert_eq!(count_tokens(a) + count_tokens(b), count_tokens(&joined));
    assert_eq!(count_tokens(&joined), 3);
}

#[test]
fn joining_without_separator_can_merge_tokens() {
    assert_eq!(count_tokens("ab"), 1);
    assert_eq!(count_tokens("a") + count_tokens("b"), 2);
}

#[test]
fn long_text_counts_every_token() {
    let text = "word ".repeat(10000);
    assert_eq!(count_tokens(&text), 10000);
    let dense = "x\n".repeat(5000);
    assert_eq!(count_tokens(&dense), 5000);
}

#[test]
fn classifier_agrees_with_std_on_every_char() {
    for u in 0u32..=0x10FFFF {
        if let Some(c) = char::from_u32(u) {
            assert_eq!(is_whitespace(c), c.is_whitespace(), "U+{:04X}", u);
        }
    }
}

#[test]
fn classifier_on_common_characters() {
    assert!(is_whitespace(' '));
    assert!(is_whitespace('\t'));
    assert!(is_whitespace('\n'));
    assert!(is_whitespace('\r'));
    assert!(is_whitespace('\u{3000}'));
    assert!(!is_whitespace('a'));
    assert!(!is_whitespace('\u{200B}'));
    assert!(!is_whitespace('\u{180E}'));
}
