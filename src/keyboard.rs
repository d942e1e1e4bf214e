use vstd::prelude::*;

verus! {

/// A letter key, whose virtual-key code is its upper-case ASCII code.
#[allow(non_camel_case_types)]
#[derive(Clone, Copy, Debug, PartialEq, Eq, Structural)]
pub enum Letter {
    /// "A" key.
    A,
    /// "B" key.
    B,
    /// "C" key.
    C,
    /// "D" key.
    D,
    /// "E" key.
    E,
    /// "F" key.
    F,
    /// "G" key.
    G,
    /// "H" key.
    H,
    /// "I" key.
    I,
    /// "J" key.
    J,
    /// "K" key.
    K,
    /// "L" key.
    L,
    /// "M" key.
    M,
    /// "N" key.
    N,
    /// "O" key.
    O,
    /// "P" key.
    P,
    /// "Q" key.
    Q,
    /// "R" key.
    R,
    /// "S" key.
    S,
    /// "T" key.
    T,
    /// "U" key.
    U,
    /// "V" key.
    V,
    /// "W" key.
    W,
    /// "X" key.
    X,
    /// "Y" key.
    Y,
    /// "Z" key.
    Z,
}

/// A digit key of the main keyboard, whose virtual-key code is the digit's ASCII code.
#[allow(non_camel_case_types)]
#[derive(Clone, Copy, Debug, PartialEq, Eq, Structural)]
pub enum Number {
    /// "0" key in standard key location.
    Zero,
    /// "1" key in standard key location.
    One,
    /// "2" key in standard key location.
    Two,
    /// "3" key in standard key location.
    Three,
    /// "4" key in standard key location.
    Four,
    /// "5" key in standard key location.
    Five,
    /// "6" key in standard key location.
    Six,
    /// "7" key in standard key location.
    Seven,
    /// "8" key in standard key location.
    Eight,
    /// "9" key in standard key location.
    Nine,
}

/// A key of the numeric keypad.
#[allow(non_camel_case_types)]
#[derive(Clone, Copy, Debug, PartialEq, Eq, Structural)]
pub enum Numpad {
    /// "0" on the numeric keypad.
    NUMPAD0,
    /// "1" on the numeric keypad.
    NUMPAD1,
    /// "2" on the numeric keypad.
    NUMPAD2,
    /// "3" on the numeric keypad.
    NUMPAD3,
    /// "4" on the numeric keypad.
    NUMPAD4,
    /// "5" on the numeric keypad.
    NUMPAD5,
    /// "6" on the numeric keypad.
    NUMPAD6,
    /// "7" on the numeric keypad.
    NUMPAD7,
    /// "8" on the numeric keypad.
    NUMPAD8,
    /// "9" on the numeric keypad.
    NUMPAD9,
    /// "*" on the numeric keypad.
    MULTIPLY,
    /// "+" on the numeric keypad.
    ADD,
    /// "-" on the numeric keypad.
    SUBTRACT,
    /// Decimal point on the numeric keypad.
    DECIMAL,
    /// "/" on the numeric keypad.
    DIVIDE,
    /// Num Lock key.
    NUM_LOCK,
}

/// A function key.
#[allow(non_camel_case_types)]
#[derive(Clone, Copy, Debug, PartialEq, Eq, Structural)]
pub enum F {
    /// F1 key.
    F1,
    /// F2 key.
    F2,
    /// F3 key.
    F3,
    /// F4 key.
    F4,
    /// F5 key.
    F5,
    /// F6 key.
    F6,
    /// F7 key.
    F7,
    /// F8 key.
    F8,
    /// F9 key.
    F9,
    /// F10 key.
    F10,
    /// F11 key.
    F11,
    /// F12 key.
    F12,
    /// F13 key.
    F13,
    /// F14 key.
    F14,
    /// F15 key.
    F15,
    /// F16 key.
    F16,
    /// F17 key.
    F17,
    /// F18 key.
    F18,
    /// F19 key.
    F19,
    /// F20 key.
    F20,
    /// F21 key.
    F21,
    /// F22 key.
    F22,
    /// F23 key.
    F23,
    /// F24 key.
    F24,
}

/// A key of the keyboard, by its virtual-key name.
#[allow(non_camel_case_types)]
#[derive(Clone, Copy, Debug, PartialEq, Eq, Structural)]
pub enum KeyboardButton {
    /// Cancel key.
    CANCEL,
    /// Help key.
    HELP,
    /// Backspace key.
    BACK_SPACE,
    /// Tab key.
    TAB,
    /// "5" key on Numpad when NumLock is unlocked. Or on Mac, clear key which is positioned at NumLock key.
    CLEAR,
    /// Return/enter key on the main keyboard.
    RETURN,
    ENTER,
    /// Shift key.
    SHIFT,
    /// Control key.
    CONTROL,
    /// Alt (Option on Mac) key.
    ALT,
    /// Pause key.
    PAUSE,
    /// Caps lock.
    CAPS_LOCK,
    /// Escape key.
    ESCAPE,
    CONVERT,
    NONCONVERT,
    ACCEPT,
    MODECHANGE,
    /// Space bar.
    SPACE,
    /// Page Up key.
    PAGE_UP,
    /// Page Down key.
    PAGE_DOWN,
    /// End key.
    END,
    /// Home key.
    HOME,
    /// Left arrow.
    LEFT,
    /// Up arrow.
    UP,
    /// Right arrow.
    RIGHT,
    /// Down arrow.
    DOWN,
    SELECT,
    PRINT,
    EXECUTE,
    /// Print Screen key.
    PRINTSCREEN,
    /// Ins(ert) key.
    INSERT,
    /// Del(ete) key.
    DELETE,
    /// Colon (":") key.
    COLON,
    /// Semicolon (",") key.
    SEMICOLON,
    /// Less-than ("<") key.
    LESS_THAN,
    /// Equals ("=") key.
    EQUALS,
    /// Greater-than (">") key.
    GREATER_THAN,
    /// Question mark ("?") key.
    QUESTION_MARK,
    /// Atmark ("@") key.
    AT,
    /// Windows logo key on Windows. Or Super or Hyper key on Linux.
    WIN,
    /// Opening context menu key.
    CONTEXT_MENU,
    SLEEP,
    SEPARATOR,
    /// Scroll Lock key.
    SCROLL_LOCK,
    /// Circumflex ("^") key.
    CIRCUMFLEX,
    /// Exclamation ("!") key.
    EXCLAMATION,
    /// Hash ("#") key.
    HASH,
    /// Dollar sign ("$") key.
    DOLLAR,
    /// Percent ("%") key.
    PERCENT,
    /// Ampersand ("&") key.
    AMPERSAND,
    /// Underscore ("_") key.
    UNDERSCORE,
    /// Open parenthesis ("(") key.
    OPEN_PAREN,
    /// Close parenthesis (")") key.
    CLOSE_PAREN,
    /// Asterisk ("*") key.
    ASTERISK,
    /// Plus ("+") key.
    PLUS,
    /// Pipe ("|") key.
    PIPE,
    /// Hyphen-US/docs/Minus ("-") key.
    HYPHEN_MINUS,
    /// Open curly bracket ("{") key.
    OPEN_CURLY_BRACKET,
    /// Close curly bracket ("}") key.
    CLOSE_CURLY_BRACKET,
    /// Tilde ("~") key.
    TILDE,
    /// Audio mute key.
    VOLUME_MUTE,
    /// Audio volume down key
    VOLUME_DOWN,
    /// Audio volume up key
    VOLUME_UP,
    /// Comma (",") key.
    COMMA,
    /// Period (".") key.
    PERIOD,
    /// Slash ("/") key.
    SLASH,
    /// Back tick ("`") key.
    BACK_QUOTE,
    /// Open square bracket ("[") key.
    OPEN_BRACKET,
    /// Back slash ("\") key.
    BACK_SLASH,
    /// Close square bracket ("]") key.
    CLOSE_BRACKET,
    /// Quote (''') key.
    QUOTE,
    /// Meta key on Linux, Command key on Mac.
    META,
    /// AltGr key (Level 3 Shift key or Level 5 Shift key) on Linux.
    ALTGR,
    /// Attn (Attention) key of IBM midrange computers, e.g., AS/400.
    ATTN,
    /// CrSel (Cursor Selection) key of IBM 3270 keyboard layout.
    CRSEL,
    /// ExSel (Extend Selection) key of IBM 3270 keyboard layout.
    EXSEL,
    /// Erase EOF key of IBM 3270 keyboard layout.
    EREOF,
    /// Play key of IBM 3270 keyboard layout.
    PLAY,
    /// Zoom key.
    ZOOM,
    /// PA1 key of IBM 3270 keyboard layout.
    PA1,
    /// Clear key, but we're not sure the meaning difference from CLEAR.
    WIN_OEM_CLEAR,
    Letter(Letter),
    Number(Number),
    Numpad(Numpad),
    F(F),
}

/// The virtual-key code of `k`.
pub open spec fn letter_code(k: Letter) -> u8 {
    match k {
        Letter::A => 0x41,
        Letter::B => 0x42,
        Letter::C => 0x43,
        Letter::D => 0x44,
        Letter::E => 0x45,
        Letter::F => 0x46,
        Letter::G => 0x47,
        Letter::H => 0x48,
        Letter::I => 0x49,
        Letter::J => 0x4A,
        Letter::K => 0x4B,
        Letter::L => 0x4C,
        Letter::M => 0x4D,
        Letter::N => 0x4E,
        Letter::O => 0x4F,
        Letter::P => 0x50,
        Letter::Q => 0x51,
        Letter::R => 0x52,
        Letter::S => 0x53,
        Letter::T => 0x54,
        Letter::U => 0x55,
        Letter::V => 0x56,
        Letter::W => 0x57,
        Letter::X => 0x58,
        Letter::Y => 0x59,
        Letter::Z => 0x5A,
    }
}

impl Letter {
    /// The key whose virtual-key code is `value`, if there is one.
    pub fn from_u8(value: u8) -> (r: Option<Letter>)
        ensures
            match r {
                Some(k) => letter_code(k) == value,
                None => value < 0x41 || value > 0x5A,
            },
    {
        match value {
            0x41 => Some(Letter::A),
            0x42 => Some(Letter::B),
            0x43 => Some(Letter::C),
            0x44 => Some(Letter::D),
            0x45 => Some(Letter::E),
            0x46 => Some(Letter::F),
            0x47 => Some(Letter::G),
            0x48 => Some(Letter::H),
            0x49 => Some(Letter::I),
            0x4A => Some(Letter::J),
            0x4B => Some(Letter::K),
            0x4C => Some(Letter::L),
            0x4D => Some(Letter::M),
            0x4E => Some(Letter::N),
            0x4F => Some(Letter::O),
            0x50 => Some(Letter::P),
            0x51 => Some(Letter::Q),
            0x52 => Some(Letter::R),
            0x53 => Some(Letter::S),
            0x54 => Some(Letter::T),
            0x55 => Some(Letter::U),
            0x56 => Some(Letter::V),
            0x57 => Some(Letter::W),
            0x58 => Some(Letter::X),
            0x59 => Some(Letter::Y),
            0x5A => Some(Letter::Z),
            _ => None,
        }
    }
}

/// The virtual-key code of `k`.
pub open spec fn number_code(k: Number) -> u8 {
    match k {
        Number::Zero => 0x30,
        Number::One => 0x31,
        Number::Two => 0x32,
        Number::Three => 0x33,
        Number::Four => 0x34,
        Number::Five => 0x35,
        Number::Six => 0x36,
        Number::Seven => 0x37,
        Number::Eight => 0x38,
        Number::Nine => 0x39,
    }
}

impl Number {
    /// The key whose virtual-key code is `value`, if there is one.
    pub fn from_u8(value: u8) -> (r: Option<Number>)
        ensures
            match r {
                Some(k) => number_code(k) == value,
                None => value < 0x30 || value > 0x39,
            },
    {
        match value {
            0x30 => Some(Number::Zero),
            0x31 => Some(Number::One),
            0x32 => Some(Number::Two),
            0x33 => Some(Number::Three),
            0x34 => Some(Number::Four),
            0x35 => Some(Number::Five),
            0x36 => Some(Number::Six),
            0x37 => Some(Number::Seven),
            0x38 => Some(Number::Eight),
            0x39 => Some(Number::Nine),
            _ => None,
        }
    }
}

} // verus!
