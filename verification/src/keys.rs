//! Logical key identifiers and the fixed key-to-character tables.
//!
//! A key press carries a logical key, not a scan code. Printable keys map to
//! a base ASCII character through `base_char`; while shift is held the base
//! character is remapped through `shifted_char`, which substitutes the
//! digit-row symbols and uppercases letters. Control keys (enter, backspace)
//! and unknown keys map to no character.

use vstd::prelude::*;

verus! {

/// A logical keyboard key, as delivered by the windowing layer.
///
/// `Letter*` keys produce lowercase letters, `Num*` keys digits; the
/// punctuation keys carry their unshifted US-layout character. `Enter` and
/// `Backspace` are control keys; `Unknown` stands for every key the console
/// ignores.
#[derive(Clone, Copy, PartialEq, Eq, Structural, Debug)]
pub enum Key {
    LetterA,
    LetterB,
    LetterC,
    LetterD,
    LetterE,
    LetterF,
    LetterG,
    LetterH,
    LetterI,
    LetterJ,
    LetterK,
    LetterL,
    LetterM,
    LetterN,
    LetterO,
    LetterP,
    LetterQ,
    LetterR,
    LetterS,
    LetterT,
    LetterU,
    LetterV,
    LetterW,
    LetterX,
    LetterY,
    LetterZ,
    Num0,
    Num1,
    Num2,
    Num3,
    Num4,
    Num5,
    Num6,
    Num7,
    Num8,
    Num9,
    Space,
    Apostrophe,
    Comma,
    Minus,
    Period,
    Slash,
    Semicolon,
    Equal,
    LeftBracket,
    Backslash,
    RightBracket,
    GraveAccent,
    Enter,
    Backspace,
    Unknown,
}

/// The fixed key-to-base-character table: the character a printable key
/// yields with shift up, `None` for control and unknown keys.
pub open spec fn base_char_of(k: Key) -> Option<char> {
    match k {
        Key::LetterA => Some('a'),
        Key::LetterB => Some('b'),
        Key::LetterC => Some('c'),
        Key::LetterD => Some('d'),
        Key::LetterE => Some('e'),
        Key::LetterF => Some('f'),
        Key::LetterG => Some('g'),
        Key::LetterH => Some('h'),
        Key::LetterI => Some('i'),
        Key::LetterJ => Some('j'),
        Key::LetterK => Some('k'),
        Key::LetterL => Some('l'),
        Key::LetterM => Some('m'),
        Key::LetterN => Some('n'),
        Key::LetterO => Some('o'),
        Key::LetterP => Some('p'),
        Key::LetterQ => Some('q'),
        Key::LetterR => Some('r'),
        Key::LetterS => Some('s'),
        Key::LetterT => Some('t'),
        Key::LetterU => Some('u'),
        Key::LetterV => Some('v'),
        Key::LetterW => Some('w'),
        Key::LetterX => Some('x'),
        Key::LetterY => Some('y'),
        Key::LetterZ => Some('z'),
        Key::Num0 => Some('0'),
        Key::Num1 => Some('1'),
        Key::Num2 => Some('2'),
        Key::Num3 => Some('3'),
        Key::Num4 => Some('4'),
        Key::Num5 => Some('5'),
        Key::Num6 => Some('6'),
        Key::Num7 => Some('7'),
        Key::Num8 => Some('8'),
        Key::Num9 => Some('9'),
        Key::Space => Some(' '),
        Key::Apostrophe => Some('\''),
        Key::Comma => Some(','),
        Key::Minus => Some('-'),
        Key::Period => Some('.'),
        Key::Slash => Some('/'),
        Key::Semicolon => Some(';'),
        Key::Equal => Some('='),
        Key::LeftBracket => Some('['),
        Key::Backslash => Some('\\'),
        Key::RightBracket => Some(']'),
        Key::GraveAccent => Some('`'),
        Key::Enter => None,
        Key::Backspace => None,
        Key::Unknown => None,
    }
}

/// The fixed shift-substitution table: digit-row symbols and a few
/// punctuation swaps; lowercase letters uppercase; every other character is
/// unchanged.
pub open spec fn shifted_char_of(c: char) -> char {
    match c {
        '1' => '!',
        '2' => '@',
        '3' => '#',
        '4' => '$',
        '5' => '%',
        '6' => '^',
        '7' => '&',
        '8' => '*',
        '9' => '(',
        '0' => ')',
        '=' => '+',
        '\'' => '"',
        '\\' => '|',
        ',' => '<',
        '.' => '>',
        '`' => '~',
        'a' => 'A',
        'b' => 'B',
        'c' => 'C',
        'd' => 'D',
        'e' => 'E',
        'f' => 'F',
        'g' => 'G',
        'h' => 'H',
        'i' => 'I',
        'j' => 'J',
        'k' => 'K',
        'l' => 'L',
        'm' => 'M',
        'n' => 'N',
        'o' => 'O',
        'p' => 'P',
        'q' => 'Q',
        'r' => 'R',
        's' => 'S',
        't' => 'T',
        'u' => 'U',
        'v' => 'V',
        'w' => 'W',
        'x' => 'X',
        'y' => 'Y',
        'z' => 'Z',
        _ => c,
    }
}

/// The character a key press appends given the current shift state: the base
/// character, remapped through the shift table while shift is held.
pub open spec fn typed_char_of(k: Key, shift: bool) -> Option<char> {
    match base_char_of(k) {
        Some(c) => if shift {
            Some(shifted_char_of(c))
        } else {
            Some(c)
        },
        None => None,
    }
}

/// The base character of a printable key (shift up), `None` for control and
/// unknown keys.
pub fn base_char(k: Key) -> (r: Option<char>)
    ensures
        r == base_char_of(k),
{
    match k {
        Key::LetterA => Some('a'),
        Key::LetterB => Some('b'),
        Key::LetterC => Some('c'),
        Key::LetterD => Some('d'),
        Key::LetterE => Some('e'),
        Key::LetterF => Some('f'),
        Key::LetterG => Some('g'),
        Key::LetterH => Some('h'),
        Key::LetterI => Some('i'),
        Key::LetterJ => Some('j'),
        Key::LetterK => Some('k'),
        Key::LetterL => Some('l'),
        Key::LetterM => Some('m'),
        Key::LetterN => Some('n'),
        Key::LetterO => Some('o'),
        Key::LetterP => Some('p'),
        Key::LetterQ => Some('q'),
        Key::LetterR => Some('r'),
        Key::LetterS => Some('s'),
        Key::LetterT => Some('t'),
        Key::LetterU => Some('u'),
        Key::LetterV => Some('v'),
        Key::LetterW => Some('w'),
        Key::LetterX => Some('x'),
        Key::LetterY => Some('y'),
        Key::LetterZ => Some('z'),
        Key::Num0 => Some('0'),
        Key::Num1 => Some('1'),
        Key::Num2 => Some('2'),
        Key::Num3 => Some('3'),
        Key::Num4 => Some('4'),
        Key::Num5 => Some('5'),
        Key::Num6 => Some('6'),
        Key::Num7 => Some('7'),
        Key::Num8 => Some('8'),
        Key::Num9 => Some('9'),
        Key::Space => Some(' '),
        Key::Apostrophe => Some('\''),
        Key::Comma => Some(','),
        Key::Minus => Some('-'),
        Key::Period => Some('.'),
        Key::Slash => Some('/'),
        Key::Semicolon => Some(';'),
        Key::Equal => Some('='),
        Key::LeftBracket => Some('['),
        Key::Backslash => Some('\\'),
        Key::RightBracket => Some(']'),
        Key::GraveAccent => Some('`'),
        Key::Enter => None,
        Key::Backspace => None,
        Key::Unknown => None,
    }
}

/// The shifted form of a base character: the digit-row symbol substitution,
/// uppercase for lowercase letters, the character itself otherwise.
pub fn shifted_char(c: char) -> (r: char)
    ensures
        r == shifted_char_of(c),
{
    match c {
        '1' => '!',
        '2' => '@',
        '3' => '#',
        '4' => '$',
        '5' => '%',
        '6' => '^',
        '7' => '&',
        '8' => '*',
        '9' => '(',
        '0' => ')',
        '=' => '+',
        '\'' => '"',
        '\\' => '|',
        ',' => '<',
        '.' => '>',
        '`' => '~',
        'a' => 'A',
        'b' => 'B',
        'c' => 'C',
        'd' => 'D',
        'e' => 'E',
        'f' => 'F',
        'g' => 'G',
        'h' => 'H',
        'i' => 'I',
        'j' => 'J',
        'k' => 'K',
        'l' => 'L',
        'm' => 'M',
        'n' => 'N',
        'o' => 'O',
        'p' => 'P',
        'q' => 'Q',
        'r' => 'R',
        's' => 'S',
        't' => 'T',
        'u' => 'U',
        'v' => 'V',
        'w' => 'W',
        'x' => 'X',
        'y' => 'Y',
        'z' => 'Z',
        _ => c,
    }
}

/// The translation law for printable keys: with shift up a printable key
/// yields exactly its base character, and with shift held it yields exactly
/// the shift table's image of that base character; control and unknown keys
/// never yield a character.
pub proof fn lemma_key_translation(k: Key)
    ensures
        base_char_of(k) is Some ==> typed_char_of(k, false) == Some(base_char_of(k)->Some_0),
        base_char_of(k) is Some ==> typed_char_of(k, true) == Some(
            shifted_char_of(base_char_of(k)->Some_0),
        ),
        base_char_of(k) is None ==> typed_char_of(k, false) is None && typed_char_of(
            k,
            true,
        ) is None,
{
}

/// The digit-row law of the shift table: with shift held, each digit key and
/// each of the swapped punctuation keys yields exactly its documented
/// substitute symbol.
pub proof fn lemma_digit_row_shift()
    ensures
        typed_char_of(Key::Num1, true) == Some('!'),
        typed_char_of(Key::Num2, true) == Some('@'),
        typed_char_of(Key::Num3, true) == Some('#'),
        typed_char_of(Key::Num4, true) == Some('$'),
        typed_char_of(Key::Num5, true) == Some('%'),
        typed_char_of(Key::Num6, true) == Some('^'),
        typed_char_of(Key::Num7, true) == Some('&'),
        typed_char_of(Key::Num8, true) == Some('*'),
        typed_char_of(Key::Num9, true) == Some('('),
        typed_char_of(Key::Num0, true) == Some(')'),
        typed_char_of(Key::Equal, true) == Some('+'),
        typed_char_of(Key::Apostrophe, true) == Some('"'),
        typed_char_of(Key::Backslash, true) == Some('|'),
        typed_char_of(Key::Comma, true) == Some('<'),
        typed_char_of(Key::Period, true) == Some('>'),
        typed_char_of(Key::GraveAccent, true) == Some('~'),
{
}

/// The uppercase law of the shift table: every lowercase letter a key can
/// produce is mapped to the letter 32 code points below it, its uppercase
/// form.
pub proof fn lemma_shift_uppercases_letters(c: char)
    requires
        'a' <= c <= 'z',
    ensures
        shifted_char_of(c) as int == c as int - 32,
{
}

} // verus!
