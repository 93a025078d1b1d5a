use anarpg::class::{contains_token, delimits};

#[test]
fn a_label_is_cut_at_commas_semicolons_and_white_space() {
    let mut c = '\0';
    loop {
        let expected = c == ',' || c == ';' || c.is_whitespace();
        assert_eq!(delimits(c), expected, "U+{:04X}", c as u32);
        if c == char::MAX {
            break;
        }
        c = match char::from_u32(c as u32 + 1) {
            Some(next) => next,
            None => '\u{E000}',
        };
    }
}

#[test]
fn the_delimiters_by_name() {
    for c in [',', ';', ' ', '\t', '\n', '\u{000B}', '\u{000C}', '\r', '\u{0085}', '\u{00A0}',
        '\u{1680}', '\u{2000}', '\u{200A}', '\u{2028}', '\u{2029}', '\u{202F}', '\u{205F}',
        '\u{3000}']
    {
        assert!(delimits(c), "U+{:04X}", c as u32);
    }
    for c in ['a', 'Z', '0', '-', '_', '.', ':', '/', '\u{0008}', '\u{000E}', '\u{001F}',
        '\u{180E}', '\u{200B}', '\u{2060}', '\u{FEFF}', '越']
    {
        assert!(!delimits(c), "U+{:04X}", c as u32);
    }
}

#[test]
fn contains_token_compares_letter_for_letter() {
    assert!(contains_token("demon ranger", "demon"));
    assert!(contains_token("demon ranger", "ranger"));
    assert!(!contains_token("demon ranger", "Demon"));
    assert!(!contains_token("Demon ranger", "demon"));
    assert!(!contains_token("demon ranger", "human"));
    assert!(!contains_token("demon ranger", "demon ranger"));
}

#[test]
fn contains_token_wants_the_whole_token() {
    assert!(!contains_token("human, cop, woman", "man"));
    assert!(contains_token("human, cop, woman", "woman"));
    assert!(!contains_token("human, cop, woman", "wo"));
    assert!(!contains_token("human, cop, woman", "cop,"));
    assert!(!contains_token("rangers", "ranger"));
    assert!(!contains_token("ranger", "rangers"));
    assert!(contains_token("a", "a"));
    assert!(contains_token("b;a", "a"));
    assert!(contains_token("a;b", "a"));
    assert!(!contains_token("ab", "a"));
    assert!(!contains_token("ab", "b"));
}

#[test]
fn contains_token_finds_a_later_token_behind_a_near_miss() {
    assert!(contains_token("man woman man", "man"));
    assert!(contains_token("woman man", "man"));
    assert!(contains_token("manx man", "man"));
    assert!(contains_token("ma man", "man"));
}

#[test]
fn contains_token_has_no_empty_token() {
    assert!(!contains_token("", ""));
    assert!(!contains_token(" ", ""));
    assert!(!contains_token("a,,b", ""));
    assert!(!contains_token(",a", ""));
    assert!(!contains_token("a,", ""));
    assert!(!contains_token("", "a"));
    assert!(contains_token(",,a,,", "a"));
    assert!(contains_token(" \t;,a", "a"));
}
