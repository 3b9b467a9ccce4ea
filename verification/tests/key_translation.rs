use kenterm::keys::{base_char, shifted_char, Key};

#[test]
fn base_mapping_letters_and_digits() {
    assert_eq!(base_char(Key::LetterA), Some('a'));
    assert_eq!(base_char(Key::LetterM), Some('m'));
    assert_eq!(base_char(Key::LetterZ), Some('z'));
    assert_eq!(base_char(Key::Num0), Some('0'));
    assert_eq!(base_char(Key::Num5), Some('5'));
    assert_eq!(base_char(Key::Num9), Some('9'));
}

#[test]
fn base_mapping_space_and_punctuation() {
    assert_eq!(base_char(Key::Space), Some(' '));
    assert_eq!(base_char(Key::Apostrophe), Some('\''));
    assert_eq!(base_char(Key::Comma), Some(','));
    assert_eq!(base_char(Key::Minus), Some('-'));
    assert_eq!(base_char(Key::Period), Some('.'));
    assert_eq!(base_char(Key::Slash), Some('/'));
    assert_eq!(base_char(Key::Semicolon), Some(';'));
    assert_eq!(base_char(Key::Equal), Some('='));
    assert_eq!(base_char(Key::LeftBracket), Some('['));
    assert_eq!(base_char(Key::Backslash), Some('\\'));
    assert_eq!(base_char(Key::RightBracket), Some(']'));
    assert_eq!(base_char(Key::GraveAccent), Some('`'));
}

#[test]
fn control_and_unknown_keys_yield_no_character() {
    assert_eq!(base_char(Key::Enter), None);
    assert_eq!(base_char(Key::Backspace), None);
    assert_eq!(base_char(Key::Unknown), None);
}

#[test]
fn shift_substitutes_digit_row_symbols() {
    assert_eq!(shifted_char('1'), '!');
    assert_eq!(shifted_char('2'), '@');
    assert_eq!(shifted_char('3'), '#');
    assert_eq!(shifted_char('4'), '$');
    assert_eq!(shifted_char('5'), '%');
    assert_eq!(shifted_char('6'), '^');
    assert_eq!(shifted_char('7'), '&');
    assert_eq!(shifted_char('8'), '*');
    assert_eq!(shifted_char('9'), '(');
    assert_eq!(shifted_char('0'), ')');
    assert_eq!(shifted_char('='), '+');
    assert_eq!(shifted_char('\''), '"');
    assert_eq!(shifted_char('\\'), '|');
    assert_eq!(shifted_char(','), '<');
    assert_eq!(shifted_char('.'), '>');
    assert_eq!(shifted_char('`'), '~');
}

#[test]
fn shift_uppercases_letters() {
    assert_eq!(shifted_char('a'), 'A');
    assert_eq!(shifted_char('k'), 'K');
    assert_eq!(shifted_char('z'), 'Z');
}

#[test]
fn shift_leaves_other_characters_unchanged() {
    assert_eq!(shifted_char('-'), '-');
    assert_eq!(shifted_char(';'), ';');
    assert_eq!(shifted_char('['), '[');
    assert_eq!(shifted_char(']'), ']');
    assert_eq!(shifted_char('/'), '/');
    assert_eq!(shifted_char(' '), ' ');
}
