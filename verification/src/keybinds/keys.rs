//! The keys of a keyboard and the buttons of a mouse, and the characters
//! that the keys type.

use vstd::prelude::*;

verus! {

/// Whether a bind swallows the input event that fired it.
#[derive(Debug, Clone, Copy, PartialEq, Eq, Structural)]
pub enum BlockInput {
    Block,
    DontBlock,
}

/// A key of the keyboard.
#[derive(Debug, Eq, PartialEq, Hash, Copy, Clone, Structural)]
pub enum Keyboard {
    BackspaceKey,
    TabKey,
    EnterKey,
    EscapeKey,
    SpaceKey,
    PageUpKey,
    PageDownKey,
    EndKey,
    HomeKey,
    LeftKey,
    UpKey,
    RightKey,
    DownKey,
    InsertKey,
    DeleteKey,
    Numrow0Key,
    Numrow1Key,
    Numrow2Key,
    Numrow3Key,
    Numrow4Key,
    Numrow5Key,
    Numrow6Key,
    Numrow7Key,
    Numrow8Key,
    Numrow9Key,
    AKey,
    BKey,
    CKey,
    DKey,
    EKey,
    FKey,
    GKey,
    HKey,
    IKey,
    JKey,
    KKey,
    LKey,
    MKey,
    NKey,
    OKey,
    PKey,
    QKey,
    RKey,
    SKey,
    TKey,
    UKey,
    VKey,
    WKey,
    XKey,
    YKey,
    ZKey,
    LSuper,
    RSuper,
    Numpad0Key,
    Numpad1Key,
    Numpad2Key,
    Numpad3Key,
    Numpad4Key,
    Numpad5Key,
    Numpad6Key,
    Numpad7Key,
    Numpad8Key,
    Numpad9Key,
    F1Key,
    F2Key,
    F3Key,
    F4Key,
    F5Key,
    F6Key,
    F7Key,
    F8Key,
    F9Key,
    F10Key,
    F11Key,
    F12Key,
    F13Key,
    F14Key,
    F15Key,
    F16Key,
    F17Key,
    F18Key,
    F19Key,
    F20Key,
    F21Key,
    F22Key,
    F23Key,
    F24Key,
    NumLockKey,
    ScrollLockKey,
    CapsLockKey,
    LShiftKey,
    RShiftKey,
    LControlKey,
    RControlKey,
    LAltKey,
    RAltKey,
    BrowserBackKey,
    BrowserForwardKey,
    BrowserRefreshKey,
    VolumeMuteKey,
    VolumeDownKey,
    VolumeUpKey,
    MediaNextTrackKey,
    MediaPrevTrackKey,
    MediaStopKey,
    MediaPlayPauseKey,
    BackquoteKey,
    SlashKey,
    BackslashKey,
    CommaKey,
    PeriodKey,
    MinusKey,
    QuoteKey,
    SemicolonKey,
    LBracketKey,
    RBracketKey,
    EqualKey,
    /// A key that has no name here, by its platform code.
    OtherKey(u64),
}

/// A button of the mouse.
#[derive(Debug, Eq, PartialEq, Hash, Copy, Clone, Structural)]
pub enum MouseButton {
    LeftButton,
    MiddleButton,
    RightButton,
    X1Button,
    X2Button,
    /// A button that has no name here, by its platform code.
    OtherButton(u32),
}

/// The mouse cursor.
pub struct MouseCursor;

/// The mouse wheel.
pub struct MouseWheel;

/// The character that a key types without a modifier, for the keys that
/// type one. The digit keys of the number pad type the same digits as those
/// of the number row.
pub open spec fn key_char(k: Keyboard) -> Option<char> {
    match k {
        Keyboard::AKey => Some('a'),
        Keyboard::BKey => Some('b'),
        Keyboard::CKey => Some('c'),
        Keyboard::DKey => Some('d'),
        Keyboard::EKey => Some('e'),
        Keyboard::FKey => Some('f'),
        Keyboard::GKey => Some('g'),
        Keyboard::HKey => Some('h'),
        Keyboard::IKey => Some('i'),
        Keyboard::JKey => Some('j'),
        Keyboard::KKey => Some('k'),
        Keyboard::LKey => Some('l'),
        Keyboard::MKey => Some('m'),
        Keyboard::NKey => Some('n'),
        Keyboard::OKey => Some('o'),
        Keyboard::PKey => Some('p'),
        Keyboard::QKey => Some('q'),
        Keyboard::RKey => Some('r'),
        Keyboard::SKey => Some('s'),
        Keyboard::TKey => Some('t'),
        Keyboard::UKey => Some('u'),
        Keyboard::VKey => Some('v'),
        Keyboard::WKey => Some('w'),
        Keyboard::XKey => Some('x'),
        Keyboard::YKey => Some('y'),
        Keyboard::ZKey => Some('z'),
        Keyboard::Numpad0Key => Some('0'),
        Keyboard::Numpad1Key => Some('1'),
        Keyboard::Numpad2Key => Some('2'),
        Keyboard::Numpad3Key => Some('3'),
        Keyboard::Numpad4Key => Some('4'),
        Keyboard::Numpad5Key => Some('5'),
        Keyboard::Numpad6Key => Some('6'),
        Keyboard::Numpad7Key => Some('7'),
        Keyboard::Numpad8Key => Some('8'),
        Keyboard::Numpad9Key => Some('9'),
        Keyboard::Numrow0Key => Some('0'),
        Keyboard::Numrow1Key => Some('1'),
        Keyboard::Numrow2Key => Some('2'),
        Keyboard::Numrow3Key => Some('3'),
        Keyboard::Numrow4Key => Some('4'),
        Keyboard::Numrow5Key => Some('5'),
        Keyboard::Numrow6Key => Some('6'),
        Keyboard::Numrow7Key => Some('7'),
        Keyboard::Numrow8Key => Some('8'),
        Keyboard::Numrow9Key => Some('9'),
        Keyboard::BackslashKey => Some('\\'),
        Keyboard::SlashKey => Some('/'),
        Keyboard::CommaKey => Some(','),
        Keyboard::PeriodKey => Some('.'),
        Keyboard::MinusKey => Some('-'),
        Keyboard::QuoteKey => Some('"'),
        Keyboard::SemicolonKey => Some(';'),
        Keyboard::LBracketKey => Some('['),
        Keyboard::RBracketKey => Some(']'),
        Keyboard::EqualKey => Some('='),
        _ => None,
    }
}

/// Computes [`key_char`].
#[verifier::when_used_as_spec(key_char)]
pub fn from_keybd_key(k: Keyboard) -> (r: Option<char>)
    ensures
        r == key_char(k),
{
    match k {
        Keyboard::AKey => Some('a'),
        Keyboard::BKey => Some('b'),
        Keyboard::CKey => Some('c'),
        Keyboard::DKey => Some('d'),
        Keyboard::EKey => Some('e'),
        Keyboard::FKey => Some('f'),
        Keyboard::GKey => Some('g'),
        Keyboard::HKey => Some('h'),
        Keyboard::IKey => Some('i'),
        Keyboard::JKey => Some('j'),
        Keyboard::KKey => Some('k'),
        Keyboard::LKey => Some('l'),
        Keyboard::MKey => Some('m'),
        Keyboard::NKey => Some('n'),
        Keyboard::OKey => Some('o'),
        Keyboard::PKey => Some('p'),
        Keyboard::QKey => Some('q'),
        Keyboard::RKey => Some('r'),
        Keyboard::SKey => Some('s'),
        Keyboard::TKey => Some('t'),
        Keyboard::UKey => Some('u'),
        Keyboard::VKey => Some('v'),
        Keyboard::WKey => Some('w'),
        Keyboard::XKey => Some('x'),
        Keyboard::YKey => Some('y'),
        Keyboard::ZKey => Some('z'),
        Keyboard::Numpad0Key => Some('0'),
        Keyboard::Numpad1Key => Some('1'),
        Keyboard::Numpad2Key => Some('2'),
        Keyboard::Numpad3Key => Some('3'),
        Keyboard::Numpad4Key => Some('4'),
        Keyboard::Numpad5Key => Some('5'),
        Keyboard::Numpad6Key => Some('6'),
        Keyboard::Numpad7Key => Some('7'),
        Keyboard::Numpad8Key => Some('8'),
        Keyboard::Numpad9Key => Some('9'),
        Keyboard::Numrow0Key => Some('0'),
        Keyboard::Numrow1Key => Some('1'),
        Keyboard::Numrow2Key => Some('2'),
        Keyboard::Numrow3Key => Some('3'),
        Keyboard::Numrow4Key => Some('4'),
        Keyboard::Numrow5Key => Some('5'),
        Keyboard::Numrow6Key => Some('6'),
        Keyboard::Numrow7Key => Some('7'),
        Keyboard::Numrow8Key => Some('8'),
        Keyboard::Numrow9Key => Some('9'),
        Keyboard::BackslashKey => Some('\\'),
        Keyboard::SlashKey => Some('/'),
        Keyboard::CommaKey => Some(','),
        Keyboard::PeriodKey => Some('.'),
        Keyboard::MinusKey => Some('-'),
        Keyboard::QuoteKey => Some('"'),
        Keyboard::SemicolonKey => Some(';'),
        Keyboard::LBracketKey => Some('['),
        Keyboard::RBracketKey => Some(']'),
        Keyboard::EqualKey => Some('='),
        _ => None,
    }
}

/// The key that types a character, alone or together with shift. The digits
/// belong to the keys of the number row.
pub open spec fn char_key(c: char) -> Option<Keyboard> {
    if c == ' ' {
        Some(Keyboard::SpaceKey)
    } else if c == 'A' || c == 'a' {
        Some(Keyboard::AKey)
    } else if c == 'B' || c == 'b' {
        Some(Keyboard::BKey)
    } else if c == 'C' || c == 'c' {
        Some(Keyboard::CKey)
    } else if c == 'D' || c == 'd' {
        Some(Keyboard::DKey)
    } else if c == 'E' || c == 'e' {
        Some(Keyboard::EKey)
    } else if c == 'F' || c == 'f' {
        Some(Keyboard::FKey)
    } else if c == 'G' || c == 'g' {
        Some(Keyboard::GKey)
    } else if c == 'H' || c == 'h' {
        Some(Keyboard::HKey)
    } else if c == 'I' || c == 'i' {
        Some(Keyboard::IKey)
    } else if c == 'J' || c == 'j' {
        Some(Keyboard::JKey)
    } else if c == 'K' || c == 'k' {
        Some(Keyboard::KKey)
    } else if c == 'L' || c == 'l' {
        Some(Keyboard::LKey)
    } else if c == 'M' || c == 'm' {
        Some(Keyboard::MKey)
    } else if c == 'N' || c == 'n' {
        Some(Keyboard::NKey)
    } else if c == 'O' || c == 'o' {
        Some(Keyboard::OKey)
    } else if c == 'P' || c == 'p' {
        Some(Keyboard::PKey)
    } else if c == 'Q' || c == 'q' {
        Some(Keyboard::QKey)
    } else if c == 'R' || c == 'r' {
        Some(Keyboard::RKey)
    } else if c == 'S' || c == 's' {
        Some(Keyboard::SKey)
    } else if c == 'T' || c == 't' {
        Some(Keyboard::TKey)
    } else if c == 'U' || c == 'u' {
        Some(Keyboard::UKey)
    } else if c == 'V' || c == 'v' {
        Some(Keyboard::VKey)
    } else if c == 'W' || c == 'w' {
        Some(Keyboard::WKey)
    } else if c == 'X' || c == 'x' {
        Some(Keyboard::XKey)
    } else if c == 'Y' || c == 'y' {
        Some(Keyboard::YKey)
    } else if c == 'Z' || c == 'z' {
        Some(Keyboard::ZKey)
    } else if c == '0' || c == ')' {
        Some(Keyboard::Numrow0Key)
    } else if c == '1' || c == '!' {
        Some(Keyboard::Numrow1Key)
    } else if c == '2' || c == '@' {
        Some(Keyboard::Numrow2Key)
    } else if c == '3' || c == '#' {
        Some(Keyboard::Numrow3Key)
    } else if c == '4' || c == '$' {
        Some(Keyboard::Numrow4Key)
    } else if c == '5' || c == '%' {
        Some(Keyboard::Numrow5Key)
    } else if c == '6' || c == '^' {
        Some(Keyboard::Numrow6Key)
    } else if c == '7' || c == '&' {
        Some(Keyboard::Numrow7Key)
    } else if c == '8' || c == '*' {
        Some(Keyboard::Numrow8Key)
    } else if c == '9' || c == '(' {
        Some(Keyboard::Numrow9Key)
    } else if c == '`' || c == '~' {
        Some(Keyboard::BackquoteKey)
    } else if c == '/' || c == '?' {
        Some(Keyboard::SlashKey)
    } else if c == ',' || c == '<' {
        Some(Keyboard::CommaKey)
    } else if c == '.' || c == '>' {
        Some(Keyboard::PeriodKey)
    } else if c == '-' || c == '_' {
        Some(Keyboard::MinusKey)
    } else if c == ';' || c == ':' {
        Some(Keyboard::SemicolonKey)
    } else if c == '[' || c == '{' {
        Some(Keyboard::LBracketKey)
    } else if c == ']' || c == '}' {
        Some(Keyboard::RBracketKey)
    } else if c == '=' || c == '+' {
        Some(Keyboard::EqualKey)
    } else if c == '\\' || c == '|' {
        Some(Keyboard::BackslashKey)
    } else if c == '\'' || c == '"' {
        Some(Keyboard::QuoteKey)
    } else {
        None
    }
}

/// Computes [`char_key`].
#[verifier::when_used_as_spec(char_key)]
pub fn get_keybd_key(c: char) -> (r: Option<Keyboard>)
    ensures
        r == char_key(c),
{
    match c {
        ' ' => Some(Keyboard::SpaceKey),
        'A' | 'a' => Some(Keyboard::AKey),
        'B' | 'b' => Some(Keyboard::BKey),
        'C' | 'c' => Some(Keyboard::CKey),
        'D' | 'd' => Some(Keyboard::DKey),
        'E' | 'e' => Some(Keyboard::EKey),
        'F' | 'f' => Some(Keyboard::FKey),
        'G' | 'g' => Some(Keyboard::GKey),
        'H' | 'h' => Some(Keyboard::HKey),
        'I' | 'i' => Some(Keyboard::IKey),
        'J' | 'j' => Some(Keyboard::JKey),
        'K' | 'k' => Some(Keyboard::KKey),
        'L' | 'l' => Some(Keyboard::LKey),
        'M' | 'm' => Some(Keyboard::MKey),
        'N' | 'n' => Some(Keyboard::NKey),
        'O' | 'o' => Some(Keyboard::OKey),
        'P' | 'p' => Some(Keyboard::PKey),
        'Q' | 'q' => Some(Keyboard::QKey),
        'R' | 'r' => Some(Keyboard::RKey),
        'S' | 's' => Some(Keyboard::SKey),
        'T' | 't' => Some(Keyboard::TKey),
        'U' | 'u' => Some(Keyboard::UKey),
        'V' | 'v' => Some(Keyboard::VKey),
        'W' | 'w' => Some(Keyboard::WKey),
        'X' | 'x' => Some(Keyboard::XKey),
        'Y' | 'y' => Some(Keyboard::YKey),
        'Z' | 'z' => Some(Keyboard::ZKey),
        '0' | ')' => Some(Keyboard::Numrow0Key),
        '1' | '!' => Some(Keyboard::Numrow1Key),
        '2' | '@' => Some(Keyboard::Numrow2Key),
        '3' | '#' => Some(Keyboard::Numrow3Key),
        '4' | '$' => Some(Keyboard::Numrow4Key),
        '5' | '%' => Some(Keyboard::Numrow5Key),
        '6' | '^' => Some(Keyboard::Numrow6Key),
        '7' | '&' => Some(Keyboard::Numrow7Key),
        '8' | '*' => Some(Keyboard::Numrow8Key),
        '9' | '(' => Some(Keyboard::Numrow9Key),
        '`' | '~' => Some(Keyboard::BackquoteKey),
        '/' | '?' => Some(Keyboard::SlashKey),
        ',' | '<' => Some(Keyboard::CommaKey),
        '.' | '>' => Some(Keyboard::PeriodKey),
        '-' | '_' => Some(Keyboard::MinusKey),
        ';' | ':' => Some(Keyboard::SemicolonKey),
        '[' | '{' => Some(Keyboard::LBracketKey),
        ']' | '}' => Some(Keyboard::RBracketKey),
        '=' | '+' => Some(Keyboard::EqualKey),
        '\\' | '|' => Some(Keyboard::BackslashKey),
        '\'' | '"' => Some(Keyboard::QuoteKey),
        _ => None,
    }
}

/// The character of a key leads back to a key that types the same character.
pub proof fn lemma_key_char_round_trip(k: Keyboard)
    requires
        key_char(k) is Some,
    ensures
        char_key(key_char(k)->Some_0) is Some,
        key_char(char_key(key_char(k)->Some_0)->Some_0) == key_char(k),
{
}

/// A capital letter has the key of its small letter.
pub proof fn lemma_capital_shares_key(capital: char, small: char)
    requires
        'A' <= capital <= 'Z',
        small as int == capital as int + 32,
    ensures
        'a' <= small <= 'z',
        char_key(capital) is Some,
        char_key(capital) == char_key(small),
{
}

impl Keyboard {
    /// The place of a named key among the named keys.
    pub open spec fn ordinal(self) -> int {
        match self {
            Keyboard::BackspaceKey => 0,
            Keyboard::TabKey => 1,
            Keyboard::EnterKey => 2,
            Keyboard::EscapeKey => 3,
            Keyboard::SpaceKey => 4,
            Keyboard::PageUpKey => 5,
            Keyboard::PageDownKey => 6,
            Keyboard::EndKey => 7,
            Keyboard::HomeKey => 8,
            Keyboard::LeftKey => 9,
            Keyboard::UpKey => 10,
            Keyboard::RightKey => 11,
            Keyboard::DownKey => 12,
            Keyboard::InsertKey => 13,
            Keyboard::DeleteKey => 14,
            Keyboard::Numrow0Key => 15,
            Keyboard::Numrow1Key => 16,
            Keyboard::Numrow2Key => 17,
            Keyboard::Numrow3Key => 18,
            Keyboard::Numrow4Key => 19,
            Keyboard::Numrow5Key => 20,
            Keyboard::Numrow6Key => 21,
            Keyboard::Numrow7Key => 22,
            Keyboard::Numrow8Key => 23,
            Keyboard::Numrow9Key => 24,
            Keyboard::AKey => 25,
            Keyboard::BKey => 26,
            Keyboard::CKey => 27,
            Keyboard::DKey => 28,
            Keyboard::EKey => 29,
            Keyboard::FKey => 30,
            Keyboard::GKey => 31,
            Keyboard::HKey => 32,
            Keyboard::IKey => 33,
            Keyboard::JKey => 34,
            Keyboard::KKey => 35,
            Keyboard::LKey => 36,
            Keyboard::MKey => 37,
            Keyboard::NKey => 38,
            Keyboard::OKey => 39,
            Keyboard::PKey => 40,
            Keyboard::QKey => 41,
            Keyboard::RKey => 42,
            Keyboard::SKey => 43,
            Keyboard::TKey => 44,
            Keyboard::UKey => 45,
            Keyboard::VKey => 46,
            Keyboard::WKey => 47,
            Keyboard::XKey => 48,
            Keyboard::YKey => 49,
            Keyboard::ZKey => 50,
            Keyboard::LSuper => 51,
            Keyboard::RSuper => 52,
            Keyboard::Numpad0Key => 53,
            Keyboard::Numpad1Key => 54,
            Keyboard::Numpad2Key => 55,
            Keyboard::Numpad3Key => 56,
            Keyboard::Numpad4Key => 57,
            Keyboard::Numpad5Key => 58,
            Keyboard::Numpad6Key => 59,
            Keyboard::Numpad7Key => 60,
            Keyboard::Numpad8Key => 61,
            Keyboard::Numpad9Key => 62,
            Keyboard::F1Key => 63,
            Keyboard::F2Key => 64,
            Keyboard::F3Key => 65,
            Keyboard::F4Key => 66,
            Keyboard::F5Key => 67,
            Keyboard::F6Key => 68,
            Keyboard::F7Key => 69,
            Keyboard::F8Key => 70,
            Keyboard::F9Key => 71,
            Keyboard::F10Key => 72,
            Keyboard::F11Key => 73,
            Keyboard::F12Key => 74,
            Keyboard::F13Key => 75,
            Keyboard::F14Key => 76,
            Keyboard::F15Key => 77,
            Keyboard::F16Key => 78,
            Keyboard::F17Key => 79,
            Keyboard::F18Key => 80,
            Keyboard::F19Key => 81,
            Keyboard::F20Key => 82,
            Keyboard::F21Key => 83,
            Keyboard::F22Key => 84,
            Keyboard::F23Key => 85,
            Keyboard::F24Key => 86,
            Keyboard::NumLockKey => 87,
            Keyboard::ScrollLockKey => 88,
            Keyboard::CapsLockKey => 89,
            Keyboard::LShiftKey => 90,
            Keyboard::RShiftKey => 91,
            Keyboard::LControlKey => 92,
            Keyboard::RControlKey => 93,
            Keyboard::LAltKey => 94,
            Keyboard::RAltKey => 95,
            Keyboard::BrowserBackKey => 96,
            Keyboard::BrowserForwardKey => 97,
            Keyboard::BrowserRefreshKey => 98,
            Keyboard::VolumeMuteKey => 99,
            Keyboard::VolumeDownKey => 100,
            Keyboard::VolumeUpKey => 101,
            Keyboard::MediaNextTrackKey => 102,
            Keyboard::MediaPrevTrackKey => 103,
            Keyboard::MediaStopKey => 104,
            Keyboard::MediaPlayPauseKey => 105,
            Keyboard::BackquoteKey => 106,
            Keyboard::SlashKey => 107,
            Keyboard::BackslashKey => 108,
            Keyboard::CommaKey => 109,
            Keyboard::PeriodKey => 110,
            Keyboard::MinusKey => 111,
            Keyboard::QuoteKey => 112,
            Keyboard::SemicolonKey => 113,
            Keyboard::LBracketKey => 114,
            Keyboard::RBracketKey => 115,
            Keyboard::EqualKey => 116,
            Keyboard::OtherKey(_) => 117,
        }
    }

    /// Every named key once, in the order of their declaration.
    pub fn all() -> (r: Vec<Keyboard>)
        ensures
            r@.len() == 117,
            forall|k: Keyboard|
                !(k is OtherKey) ==> 0 <= #[trigger] k.ordinal() < r@.len() && r@[k.ordinal()] == k,
            forall|i: int| 0 <= i < r@.len() ==> !(#[trigger] r@[i] is OtherKey) && r@[i].ordinal() == i,
    {
        let r: Vec<Keyboard> = vec![
            Keyboard::BackspaceKey,
            Keyboard::TabKey,
            Keyboard::EnterKey,
            Keyboard::EscapeKey,
            Keyboard::SpaceKey,
            Keyboard::PageUpKey,
            Keyboard::PageDownKey,
            Keyboard::EndKey,
            Keyboard::HomeKey,
            Keyboard::LeftKey,
            Keyboard::UpKey,
            Keyboard::RightKey,
            Keyboard::DownKey,
            Keyboard::InsertKey,
            Keyboard::DeleteKey,
            Keyboard::Numrow0Key,
            Keyboard::Numrow1Key,
            Keyboard::Numrow2Key,
            Keyboard::Numrow3Key,
            Keyboard::Numrow4Key,
            Keyboard::Numrow5Key,
            Keyboard::Numrow6Key,
            Keyboard::Numrow7Key,
            Keyboard::Numrow8Key,
            Keyboard::Numrow9Key,
            Keyboard::AKey,
            Keyboard::BKey,
            Keyboard::CKey,
            Keyboard::DKey,
            Keyboard::EKey,
            Keyboard::FKey,
            Keyboard::GKey,
            Keyboard::HKey,
            Keyboard::IKey,
            Keyboard::JKey,
            Keyboard::KKey,
            Keyboard::LKey,
            Keyboard::MKey,
            Keyboard::NKey,
            Keyboard::OKey,
            Keyboard::PKey,
            Keyboard::QKey,
            Keyboard::RKey,
            Keyboard::SKey,
            Keyboard::TKey,
            Keyboard::UKey,
            Keyboard::VKey,
            Keyboard::WKey,
            Keyboard::XKey,
            Keyboard::YKey,
            Keyboard::ZKey,
            Keyboard::LSuper,
            Keyboard::RSuper,
            Keyboard::Numpad0Key,
            Keyboard::Numpad1Key,
            Keyboard::Numpad2Key,
            Keyboard::Numpad3Key,
            Keyboard::Numpad4Key,
            Keyboard::Numpad5Key,
            Keyboard::Numpad6Key,
            Keyboard::Numpad7Key,
            Keyboard::Numpad8Key,
            Keyboard::Numpad9Key,
            Keyboard::F1Key,
            Keyboard::F2Key,
            Keyboard::F3Key,
            Keyboard::F4Key,
            Keyboard::F5Key,
            Keyboard::F6Key,
            Keyboard::F7Key,
            Keyboard::F8Key,
            Keyboard::F9Key,
            Keyboard::F10Key,
            Keyboard::F11Key,
            Keyboard::F12Key,
            Keyboard::F13Key,
            Keyboard::F14Key,
            Keyboard::F15Key,
            Keyboard::F16Key,
            Keyboard::F17Key,
            Keyboard::F18Key,
            Keyboard::F19Key,
            Keyboard::F20Key,
            Keyboard::F21Key,
            Keyboard::F22Key,
            Keyboard::F23Key,
            Keyboard::F24Key,
            Keyboard::NumLockKey,
            Keyboard::ScrollLockKey,
            Keyboard::CapsLockKey,
            Keyboard::LShiftKey,
            Keyboard::RShiftKey,
            Keyboard::LControlKey,
            Keyboard::RControlKey,
            Keyboard::LAltKey,
            Keyboard::RAltKey,
            Keyboard::BrowserBackKey,
            Keyboard::BrowserForwardKey,
            Keyboard::BrowserRefreshKey,
            Keyboard::VolumeMuteKey,
            Keyboard::VolumeDownKey,
            Keyboard::VolumeUpKey,
            Keyboard::MediaNextTrackKey,
            Keyboard::MediaPrevTrackKey,
            Keyboard::MediaStopKey,
            Keyboard::MediaPlayPauseKey,
            Keyboard::BackquoteKey,
            Keyboard::SlashKey,
            Keyboard::BackslashKey,
            Keyboard::CommaKey,
            Keyboard::PeriodKey,
            Keyboard::MinusKey,
            Keyboard::QuoteKey,
            Keyboard::SemicolonKey,
            Keyboard::LBracketKey,
            Keyboard::RBracketKey,
            Keyboard::EqualKey,
        ];
        r
    }
}

impl MouseButton {
    /// The place of a named button among the named buttons.
    pub open spec fn ordinal(self) -> int {
        match self {
            MouseButton::LeftButton => 0,
            MouseButton::MiddleButton => 1,
            MouseButton::RightButton => 2,
            MouseButton::X1Button => 3,
            MouseButton::X2Button => 4,
            MouseButton::OtherButton(_) => 5,
        }
    }

    /// Every named button once, in the order of their declaration.
    pub fn all() -> (r: Vec<MouseButton>)
        ensures
            r@.len() == 5,
            forall|b: MouseButton|
                !(b is OtherButton) ==> 0 <= #[trigger] b.ordinal() < r@.len() && r@[b.ordinal()] == b,
            forall|i: int| 0 <= i < r@.len() ==> !(#[trigger] r@[i] is OtherButton) && r@[i].ordinal() == i,
    {
        let r: Vec<MouseButton> = vec![
            MouseButton::LeftButton,
            MouseButton::MiddleButton,
            MouseButton::RightButton,
            MouseButton::X1Button,
            MouseButton::X2Button,
        ];
        r
    }
}

} // verus!
