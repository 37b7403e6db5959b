use vstd::prelude::*;

verus! {

/// Keys of a USB HID keyboard, in scancode order: a key's scancode is its
/// position in this list.
#[allow(non_camel_case_types)]
#[derive(Debug, Clone, Copy, PartialEq, Eq, Structural)]
pub enum KeyboardKey {
    KEY_NONE,
    KEY_ERRORROLLOVER,
    KEY_POSTFAIL,
    KEY_ERRORUNDEFINED,
    KEY_A,
    KEY_B,
    KEY_C,
    KEY_D,
    KEY_E,
    KEY_F,
    KEY_G,
    KEY_H,
    KEY_I,
    KEY_J,
    KEY_K,
    KEY_L,
    KEY_M,
    KEY_N,
    KEY_O,
    KEY_P,
    KEY_Q,
    KEY_R,
    KEY_S,
    KEY_T,
    KEY_U,
    KEY_V,
    KEY_W,
    KEY_X,
    KEY_Y,
    KEY_Z,
    KEY_1_EXCLAMATION_MARK,
    KEY_2_AT,
    KEY_3_NUMBER_SIGN,
    KEY_4_DOLLAR,
    KEY_5_PERCENT,
    KEY_6_CARET,
    KEY_7_AMPERSAND,
    KEY_8_ASTERISK,
    KEY_9_OPARENTHESIS,
    KEY_0_CPARENTHESIS,
    KEY_ENTER,
    KEY_ESCAPE,
    KEY_BACKSPACE,
    KEY_TAB,
    KEY_SPACEBAR,
    KEY_MINUS_UNDERSCORE,
    KEY_EQUAL_PLUS,
    KEY_OBRACKET_AND_OBRACE,
    KEY_CBRACKET_AND_CBRACE,
    KEY_BACKSLASH_VERTICAL_BAR,
    KEY_NONUS_NUMBER_SIGN_TILDE,
    KEY_SEMICOLON_COLON,
    KEY_SINGLE_AND_DOUBLE_QUOTE,
    KEY_GRAVE_ACCENT_AND_TILDE,
    KEY_COMMA_AND_LESS,
    KEY_DOT_GREATER,
    KEY_SLASH_QUESTION,
    KEY_CAPS_LOCK,
    KEY_F1,
    KEY_F2,
    KEY_F3,
    KEY_F4,
    KEY_F5,
    KEY_F6,
    KEY_F7,
    KEY_F8,
    KEY_F9,
    KEY_F10,
    KEY_F11,
    KEY_F12,
    KEY_PRINTSCREEN,
    KEY_SCROLL_LOCK,
    KEY_PAUSE,
    KEY_INSERT,
    KEY_HOME,
    KEY_PAGEUP,
    KEY_DELETE,
    KEY_END1,
    KEY_PAGEDOWN,
    KEY_RIGHTARROW,
    KEY_LEFTARROW,
    KEY_DOWNARROW,
    KEY_UPARROW,
    KEY_KEYPAD_NUM_LOCK_AND_CLEAR,
    KEY_KEYPAD_SLASH,
    KEY_KEYPAD_ASTERIKS,
    KEY_KEYPAD_MINUS,
    KEY_KEYPAD_PLUS,
    KEY_KEYPAD_ENTER,
    KEY_KEYPAD_1_END,
    KEY_KEYPAD_2_DOWN_ARROW,
    KEY_KEYPAD_3_PAGEDN,
    KEY_KEYPAD_4_LEFT_ARROW,
    KEY_KEYPAD_5,
    KEY_KEYPAD_6_RIGHT_ARROW,
    KEY_KEYPAD_7_HOME,
    KEY_KEYPAD_8_UP_ARROW,
    KEY_KEYPAD_9_PAGEUP,
    KEY_KEYPAD_0_INSERT,
    KEY_KEYPAD_DECIMAL_SEPARATOR_DELETE,
    KEY_NONUS_BACK_SLASH_VERTICAL_BAR,
    KEY_APPLICATION,
    KEY_POWER,
    KEY_KEYPAD_EQUAL,
    KEY_F13,
    KEY_F14,
    KEY_F15,
    KEY_F16,
    KEY_F17,
    KEY_F18,
    KEY_F19,
    KEY_F20,
    KEY_F21,
    KEY_F22,
    KEY_F23,
    KEY_F24,
    KEY_EXECUTE,
    KEY_HELP,
    KEY_MENU,
    KEY_SELECT,
    KEY_STOP,
    KEY_AGAIN,
    KEY_UNDO,
    KEY_CUT,
    KEY_COPY,
    KEY_PASTE,
    KEY_FIND,
    KEY_MUTE,
    KEY_VOLUME_UP,
    KEY_VOLUME_DOWN,
    KEY_LOCKING_CAPS_LOCK,
    KEY_LOCKING_NUM_LOCK,
    KEY_LOCKING_SCROLL_LOCK,
    KEY_KEYPAD_COMMA,
    KEY_KEYPAD_EQUAL_SIGN,
    KEY_INTERNATIONAL1,
    KEY_INTERNATIONAL2,
    KEY_INTERNATIONAL3,
    KEY_INTERNATIONAL4,
    KEY_INTERNATIONAL5,
    KEY_INTERNATIONAL6,
    KEY_INTERNATIONAL7,
    KEY_INTERNATIONAL8,
    KEY_INTERNATIONAL9,
    KEY_LANG1,
    KEY_LANG2,
    KEY_LANG3,
    KEY_LANG4,
    KEY_LANG5,
    KEY_LANG6,
    KEY_LANG7,
    KEY_LANG8,
    KEY_LANG9,
    KEY_ALTERNATE_ERASE,
    KEY_SYSREQ,
    KEY_CANCEL,
    KEY_CLEAR,
    KEY_PRIOR,
    KEY_RETURN,
    KEY_SEPARATOR,
    KEY_OUT,
    KEY_OPER,
    KEY_CLEAR_AGAIN,
    KEY_CRSEL,
    KEY_EXSEL,
    KEY_KEYPAD_00,
    KEY_KEYPAD_000,
    KEY_THOUSANDS_SEPARATOR,
    KEY_DECIMAL_SEPARATOR,
    KEY_CURRENCY_UNIT,
    KEY_CURRENCY_SUB_UNIT,
    KEY_KEYPAD_OPARENTHESIS,
    KEY_KEYPAD_CPARENTHESIS,
    KEY_KEYPAD_OBRACE,
    KEY_KEYPAD_CBRACE,
    KEY_KEYPAD_TAB,
    KEY_KEYPAD_BACKSPACE,
    KEY_KEYPAD_A,
    KEY_KEYPAD_B,
    KEY_KEYPAD_C,
    KEY_KEYPAD_D,
    KEY_KEYPAD_E,
    KEY_KEYPAD_F,
    KEY_KEYPAD_XOR,
    KEY_KEYPAD_CARET,
    KEY_KEYPAD_PERCENT,
    KEY_KEYPAD_LESS,
    KEY_KEYPAD_GREATER,
    KEY_KEYPAD_AMPERSAND,
    KEY_KEYPAD_LOGICAL_AND,
    KEY_KEYPAD_VERTICAL_BAR,
    KEY_KEYPAD_LOGICAL_OR,
    KEY_KEYPAD_COLON,
    KEY_KEYPAD_NUMBER_SIGN,
    KEY_KEYPAD_SPACE,
    KEY_KEYPAD_AT,
    KEY_KEYPAD_EXCLAMATION_MARK,
    KEY_KEYPAD_MEMORY_STORE,
    KEY_KEYPAD_MEMORY_RECALL,
    KEY_KEYPAD_MEMORY_CLEAR,
    KEY_KEYPAD_MEMORY_ADD,
    KEY_KEYPAD_MEMORY_SUBTRACT,
    KEY_KEYPAD_MEMORY_MULTIPLY,
    KEY_KEYPAD_MEMORY_DIVIDE,
    KEY_KEYPAD_PLUSMINUS,
    KEY_KEYPAD_CLEAR,
    KEY_KEYPAD_CLEAR_ENTRY,
    KEY_KEYPAD_BINARY,
    KEY_KEYPAD_OCTAL,
    KEY_KEYPAD_DECIMAL,
    KEY_KEYPAD_HEXADECIMAL,
    KEY_LEFTCONTROL,
    KEY_LEFTSHIFT,
    KEY_LEFTALT,
    KEY_LEFT_GUI,
    KEY_RIGHTCONTROL,
    KEY_RIGHTSHIFT,
    KEY_RIGHTALT,
    KEY_RIGHT_GUI,
}

/// The HID scancode of a key.
pub open spec fn scancode(key: KeyboardKey) -> u8 {
    match key {
        KeyboardKey::KEY_NONE => 0,
        KeyboardKey::KEY_ERRORROLLOVER => 1,
        KeyboardKey::KEY_POSTFAIL => 2,
        KeyboardKey::KEY_ERRORUNDEFINED => 3,
        KeyboardKey::KEY_A => 4,
        KeyboardKey::KEY_B => 5,
        KeyboardKey::KEY_C => 6,
        KeyboardKey::KEY_D => 7,
        KeyboardKey::KEY_E => 8,
        KeyboardKey::KEY_F => 9,
        KeyboardKey::KEY_G => 10,
        KeyboardKey::KEY_H => 11,
        KeyboardKey::KEY_I => 12,
        KeyboardKey::KEY_J => 13,
        KeyboardKey::KEY_K => 14,
        KeyboardKey::KEY_L => 15,
        KeyboardKey::KEY_M => 16,
        KeyboardKey::KEY_N => 17,
        KeyboardKey::KEY_O => 18,
        KeyboardKey::KEY_P => 19,
        KeyboardKey::KEY_Q => 20,
        KeyboardKey::KEY_R => 21,
        KeyboardKey::KEY_S => 22,
        KeyboardKey::KEY_T => 23,
        KeyboardKey::KEY_U => 24,
        KeyboardKey::KEY_V => 25,
        KeyboardKey::KEY_W => 26,
        KeyboardKey::KEY_X => 27,
        KeyboardKey::KEY_Y => 28,
        KeyboardKey::KEY_Z => 29,
        KeyboardKey::KEY_1_EXCLAMATION_MARK => 30,
        KeyboardKey::KEY_2_AT => 31,
        KeyboardKey::KEY_3_NUMBER_SIGN => 32,
        KeyboardKey::KEY_4_DOLLAR => 33,
        KeyboardKey::KEY_5_PERCENT => 34,
        KeyboardKey::KEY_6_CARET => 35,
        KeyboardKey::KEY_7_AMPERSAND => 36,
        KeyboardKey::KEY_8_ASTERISK => 37,
        KeyboardKey::KEY_9_OPARENTHESIS => 38,
        KeyboardKey::KEY_0_CPARENTHESIS => 39,
        KeyboardKey::KEY_ENTER => 40,
        KeyboardKey::KEY_ESCAPE => 41,
        KeyboardKey::KEY_BACKSPACE => 42,
        KeyboardKey::KEY_TAB => 43,
        KeyboardKey::KEY_SPACEBAR => 44,
        KeyboardKey::KEY_MINUS_UNDERSCORE => 45,
        KeyboardKey::KEY_EQUAL_PLUS => 46,
        KeyboardKey::KEY_OBRACKET_AND_OBRACE => 47,
        KeyboardKey::KEY_CBRACKET_AND_CBRACE => 48,
        KeyboardKey::KEY_BACKSLASH_VERTICAL_BAR => 49,
        KeyboardKey::KEY_NONUS_NUMBER_SIGN_TILDE => 50,
        KeyboardKey::KEY_SEMICOLON_COLON => 51,
        KeyboardKey::KEY_SINGLE_AND_DOUBLE_QUOTE => 52,
        KeyboardKey::KEY_GRAVE_ACCENT_AND_TILDE => 53,
        KeyboardKey::KEY_COMMA_AND_LESS => 54,
        KeyboardKey::KEY_DOT_GREATER => 55,
        KeyboardKey::KEY_SLASH_QUESTION => 56,
        KeyboardKey::KEY_CAPS_LOCK => 57,
        KeyboardKey::KEY_F1 => 58,
        KeyboardKey::KEY_F2 => 59,
        KeyboardKey::KEY_F3 => 60,
        KeyboardKey::KEY_F4 => 61,
        KeyboardKey::KEY_F5 => 62,
        KeyboardKey::KEY_F6 => 63,
        KeyboardKey::KEY_F7 => 64,
        KeyboardKey::KEY_F8 => 65,
        KeyboardKey::KEY_F9 => 66,
        KeyboardKey::KEY_F10 => 67,
        KeyboardKey::KEY_F11 => 68,
        KeyboardKey::KEY_F12 => 69,
        KeyboardKey::KEY_PRINTSCREEN => 70,
        KeyboardKey::KEY_SCROLL_LOCK => 71,
        KeyboardKey::KEY_PAUSE => 72,
        KeyboardKey::KEY_INSERT => 73,
        KeyboardKey::KEY_HOME => 74,
        KeyboardKey::KEY_PAGEUP => 75,
        KeyboardKey::KEY_DELETE => 76,
        KeyboardKey::KEY_END1 => 77,
        KeyboardKey::KEY_PAGEDOWN => 78,
        KeyboardKey::KEY_RIGHTARROW => 79,
        KeyboardKey::KEY_LEFTARROW => 80,
        KeyboardKey::KEY_DOWNARROW => 81,
        KeyboardKey::KEY_UPARROW => 82,
        KeyboardKey::KEY_KEYPAD_NUM_LOCK_AND_CLEAR => 83,
        KeyboardKey::KEY_KEYPAD_SLASH => 84,
        KeyboardKey::KEY_KEYPAD_ASTERIKS => 85,
        KeyboardKey::KEY_KEYPAD_MINUS => 86,
        KeyboardKey::KEY_KEYPAD_PLUS => 87,
        KeyboardKey::KEY_KEYPAD_ENTER => 88,
        KeyboardKey::KEY_KEYPAD_1_END => 89,
        KeyboardKey::KEY_KEYPAD_2_DOWN_ARROW => 90,
        KeyboardKey::KEY_KEYPAD_3_PAGEDN => 91,
        KeyboardKey::KEY_KEYPAD_4_LEFT_ARROW => 92,
        KeyboardKey::KEY_KEYPAD_5 => 93,
        KeyboardKey::KEY_KEYPAD_6_RIGHT_ARROW => 94,
        KeyboardKey::KEY_KEYPAD_7_HOME => 95,
        KeyboardKey::KEY_KEYPAD_8_UP_ARROW => 96,
        KeyboardKey::KEY_KEYPAD_9_PAGEUP => 97,
        KeyboardKey::KEY_KEYPAD_0_INSERT => 98,
        KeyboardKey::KEY_KEYPAD_DECIMAL_SEPARATOR_DELETE => 99,
        KeyboardKey::KEY_NONUS_BACK_SLASH_VERTICAL_BAR => 100,
        KeyboardKey::KEY_APPLICATION => 101,
        KeyboardKey::KEY_POWER => 102,
        KeyboardKey::KEY_KEYPAD_EQUAL => 103,
        KeyboardKey::KEY_F13 => 104,
        KeyboardKey::KEY_F14 => 105,
        KeyboardKey::KEY_F15 => 106,
        KeyboardKey::KEY_F16 => 107,
        KeyboardKey::KEY_F17 => 108,
        KeyboardKey::KEY_F18 => 109,
        KeyboardKey::KEY_F19 => 110,
        KeyboardKey::KEY_F20 => 111,
        KeyboardKey::KEY_F21 => 112,
        KeyboardKey::KEY_F22 => 113,
        KeyboardKey::KEY_F23 => 114,
        KeyboardKey::KEY_F24 => 115,
        KeyboardKey::KEY_EXECUTE => 116,
        KeyboardKey::KEY_HELP => 117,
        KeyboardKey::KEY_MENU => 118,
        KeyboardKey::KEY_SELECT => 119,
        KeyboardKey::KEY_STOP => 120,
        KeyboardKey::KEY_AGAIN => 121,
        KeyboardKey::KEY_UNDO => 122,
        KeyboardKey::KEY_CUT => 123,
        KeyboardKey::KEY_COPY => 124,
        KeyboardKey::KEY_PASTE => 125,
        KeyboardKey::KEY_FIND => 126,
        KeyboardKey::KEY_MUTE => 127,
        KeyboardKey::KEY_VOLUME_UP => 128,
        KeyboardKey::KEY_VOLUME_DOWN => 129,
        KeyboardKey::KEY_LOCKING_CAPS_LOCK => 130,
        KeyboardKey::KEY_LOCKING_NUM_LOCK => 131,
        KeyboardKey::KEY_LOCKING_SCROLL_LOCK => 132,
        KeyboardKey::KEY_KEYPAD_COMMA => 133,
        KeyboardKey::KEY_KEYPAD_EQUAL_SIGN => 134,
        KeyboardKey::KEY_INTERNATIONAL1 => 135,
        KeyboardKey::KEY_INTERNATIONAL2 => 136,
        KeyboardKey::KEY_INTERNATIONAL3 => 137,
        KeyboardKey::KEY_INTERNATIONAL4 => 138,
        KeyboardKey::KEY_INTERNATIONAL5 => 139,
        KeyboardKey::KEY_INTERNATIONAL6 => 140,
        KeyboardKey::KEY_INTERNATIONAL7 => 141,
        KeyboardKey::KEY_INTERNATIONAL8 => 142,
        KeyboardKey::KEY_INTERNATIONAL9 => 143,
        KeyboardKey::KEY_LANG1 => 144,
        KeyboardKey::KEY_LANG2 => 145,
        KeyboardKey::KEY_LANG3 => 146,
        KeyboardKey::KEY_LANG4 => 147,
        KeyboardKey::KEY_LANG5 => 148,
        KeyboardKey::KEY_LANG6 => 149,
        KeyboardKey::KEY_LANG7 => 150,
        KeyboardKey::KEY_LANG8 => 151,
        KeyboardKey::KEY_LANG9 => 152,
        KeyboardKey::KEY_ALTERNATE_ERASE => 153,
        KeyboardKey::KEY_SYSREQ => 154,
        KeyboardKey::KEY_CANCEL => 155,
        KeyboardKey::KEY_CLEAR => 156,
        KeyboardKey::KEY_PRIOR => 157,
        KeyboardKey::KEY_RETURN => 158,
        KeyboardKey::KEY_SEPARATOR => 159,
        KeyboardKey::KEY_OUT => 160,
        KeyboardKey::KEY_OPER => 161,
        KeyboardKey::KEY_CLEAR_AGAIN => 162,
        KeyboardKey::KEY_CRSEL => 163,
        KeyboardKey::KEY_EXSEL => 164,
        KeyboardKey::KEY_KEYPAD_00 => 165,
        KeyboardKey::KEY_KEYPAD_000 => 166,
        KeyboardKey::KEY_THOUSANDS_SEPARATOR => 167,
        KeyboardKey::KEY_DECIMAL_SEPARATOR => 168,
        KeyboardKey::KEY_CURRENCY_UNIT => 169,
        KeyboardKey::KEY_CURRENCY_SUB_UNIT => 170,
        KeyboardKey::KEY_KEYPAD_OPARENTHESIS => 171,
        KeyboardKey::KEY_KEYPAD_CPARENTHESIS => 172,
        KeyboardKey::KEY_KEYPAD_OBRACE => 173,
        KeyboardKey::KEY_KEYPAD_CBRACE => 174,
        KeyboardKey::KEY_KEYPAD_TAB => 175,
        KeyboardKey::KEY_KEYPAD_BACKSPACE => 176,
        KeyboardKey::KEY_KEYPAD_A => 177,
        KeyboardKey::KEY_KEYPAD_B => 178,
        KeyboardKey::KEY_KEYPAD_C => 179,
        KeyboardKey::KEY_KEYPAD_D => 180,
        KeyboardKey::KEY_KEYPAD_E => 181,
        KeyboardKey::KEY_KEYPAD_F => 182,
        KeyboardKey::KEY_KEYPAD_XOR => 183,
        KeyboardKey::KEY_KEYPAD_CARET => 184,
        KeyboardKey::KEY_KEYPAD_PERCENT => 185,
        KeyboardKey::KEY_KEYPAD_LESS => 186,
        KeyboardKey::KEY_KEYPAD_GREATER => 187,
        KeyboardKey::KEY_KEYPAD_AMPERSAND => 188,
        KeyboardKey::KEY_KEYPAD_LOGICAL_AND => 189,
        KeyboardKey::KEY_KEYPAD_VERTICAL_BAR => 190,
        KeyboardKey::KEY_KEYPAD_LOGICAL_OR => 191,
        KeyboardKey::KEY_KEYPAD_COLON => 192,
        KeyboardKey::KEY_KEYPAD_NUMBER_SIGN => 193,
        KeyboardKey::KEY_KEYPAD_SPACE => 194,
        KeyboardKey::KEY_KEYPAD_AT => 195,
        KeyboardKey::KEY_KEYPAD_EXCLAMATION_MARK => 196,
        KeyboardKey::KEY_KEYPAD_MEMORY_STORE => 197,
        KeyboardKey::KEY_KEYPAD_MEMORY_RECALL => 198,
        KeyboardKey::KEY_KEYPAD_MEMORY_CLEAR => 199,
        KeyboardKey::KEY_KEYPAD_MEMORY_ADD => 200,
        KeyboardKey::KEY_KEYPAD_MEMORY_SUBTRACT => 201,
        KeyboardKey::KEY_KEYPAD_MEMORY_MULTIPLY => 202,
        KeyboardKey::KEY_KEYPAD_MEMORY_DIVIDE => 203,
        KeyboardKey::KEY_KEYPAD_PLUSMINUS => 204,
        KeyboardKey::KEY_KEYPAD_CLEAR => 205,
        KeyboardKey::KEY_KEYPAD_CLEAR_ENTRY => 206,
        KeyboardKey::KEY_KEYPAD_BINARY => 207,
        KeyboardKey::KEY_KEYPAD_OCTAL => 208,
        KeyboardKey::KEY_KEYPAD_DECIMAL => 209,
        KeyboardKey::KEY_KEYPAD_HEXADECIMAL => 210,
        KeyboardKey::KEY_LEFTCONTROL => 211,
        KeyboardKey::KEY_LEFTSHIFT => 212,
        KeyboardKey::KEY_LEFTALT => 213,
        KeyboardKey::KEY_LEFT_GUI => 214,
        KeyboardKey::KEY_RIGHTCONTROL => 215,
        KeyboardKey::KEY_RIGHTSHIFT => 216,
        KeyboardKey::KEY_RIGHTALT => 217,
        KeyboardKey::KEY_RIGHT_GUI => 218,
    }
}

impl KeyboardKey {
    /// The HID scancode of this key.
    pub fn code(self) -> (r: u8)
        ensures
            r == scancode(self),
    {
        match self {
            KeyboardKey::KEY_NONE => 0,
            KeyboardKey::KEY_ERRORROLLOVER => 1,
            KeyboardKey::KEY_POSTFAIL => 2,
            KeyboardKey::KEY_ERRORUNDEFINED => 3,
            KeyboardKey::KEY_A => 4,
            KeyboardKey::KEY_B => 5,
            KeyboardKey::KEY_C => 6,
            KeyboardKey::KEY_D => 7,
            KeyboardKey::KEY_E => 8,
            KeyboardKey::KEY_F => 9,
            KeyboardKey::KEY_G => 10,
            KeyboardKey::KEY_H => 11,
            KeyboardKey::KEY_I => 12,
            KeyboardKey::KEY_J => 13,
            KeyboardKey::KEY_K => 14,
            KeyboardKey::KEY_L => 15,
            KeyboardKey::KEY_M => 16,
            KeyboardKey::KEY_N => 17,
            KeyboardKey::KEY_O => 18,
            KeyboardKey::KEY_P => 19,
            KeyboardKey::KEY_Q => 20,
            KeyboardKey::KEY_R => 21,
            KeyboardKey::KEY_S => 22,
            KeyboardKey::KEY_T => 23,
            KeyboardKey::KEY_U => 24,
            KeyboardKey::KEY_V => 25,
            KeyboardKey::KEY_W => 26,
            KeyboardKey::KEY_X => 27,
            KeyboardKey::KEY_Y => 28,
            KeyboardKey::KEY_Z => 29,
            KeyboardKey::KEY_1_EXCLAMATION_MARK => 30,
            KeyboardKey::KEY_2_AT => 31,
            KeyboardKey::KEY_3_NUMBER_SIGN => 32,
            KeyboardKey::KEY_4_DOLLAR => 33,
            KeyboardKey::KEY_5_PERCENT => 34,
            KeyboardKey::KEY_6_CARET => 35,
            KeyboardKey::KEY_7_AMPERSAND => 36,
            KeyboardKey::KEY_8_ASTERISK => 37,
            KeyboardKey::KEY_9_OPARENTHESIS => 38,
            KeyboardKey::KEY_0_CPARENTHESIS => 39,
            KeyboardKey::KEY_ENTER => 40,
            KeyboardKey::KEY_ESCAPE => 41,
            KeyboardKey::KEY_BACKSPACE => 42,
            KeyboardKey::KEY_TAB => 43,
            KeyboardKey::KEY_SPACEBAR => 44,
            KeyboardKey::KEY_MINUS_UNDERSCORE => 45,
            KeyboardKey::KEY_EQUAL_PLUS => 46,
            KeyboardKey::KEY_OBRACKET_AND_OBRACE => 47,
            KeyboardKey::KEY_CBRACKET_AND_CBRACE => 48,
            KeyboardKey::KEY_BACKSLASH_VERTICAL_BAR => 49,
            KeyboardKey::KEY_NONUS_NUMBER_SIGN_TILDE => 50,
            KeyboardKey::KEY_SEMICOLON_COLON => 51,
            KeyboardKey::KEY_SINGLE_AND_DOUBLE_QUOTE => 52,
            KeyboardKey::KEY_GRAVE_ACCENT_AND_TILDE => 53,
            KeyboardKey::KEY_COMMA_AND_LESS => 54,
            KeyboardKey::KEY_DOT_GREATER => 55,
            KeyboardKey::KEY_SLASH_QUESTION => 56,
            KeyboardKey::KEY_CAPS_LOCK => 57,
            KeyboardKey::KEY_F1 => 58,
            KeyboardKey::KEY_F2 => 59,
            KeyboardKey::KEY_F3 => 60,
            KeyboardKey::KEY_F4 => 61,
            KeyboardKey::KEY_F5 => 62,
            KeyboardKey::KEY_F6 => 63,
            KeyboardKey::KEY_F7 => 64,
            KeyboardKey::KEY_F8 => 65,
            KeyboardKey::KEY_F9 => 66,
            KeyboardKey::KEY_F10 => 67,
            KeyboardKey::KEY_F11 => 68,
            KeyboardKey::KEY_F12 => 69,
            KeyboardKey::KEY_PRINTSCREEN => 70,
            KeyboardKey::KEY_SCROLL_LOCK => 71,
            KeyboardKey::KEY_PAUSE => 72,
            KeyboardKey::KEY_INSERT => 73,
            KeyboardKey::KEY_HOME => 74,
            KeyboardKey::KEY_PAGEUP => 75,
            KeyboardKey::KEY_DELETE => 76,
            KeyboardKey::KEY_END1 => 77,
            KeyboardKey::KEY_PAGEDOWN => 78,
            KeyboardKey::KEY_RIGHTARROW => 79,
            KeyboardKey::KEY_LEFTARROW => 80,
            KeyboardKey::KEY_DOWNARROW => 81,
            KeyboardKey::KEY_UPARROW => 82,
            KeyboardKey::KEY_KEYPAD_NUM_LOCK_AND_CLEAR => 83,
            KeyboardKey::KEY_KEYPAD_SLASH => 84,
            KeyboardKey::KEY_KEYPAD_ASTERIKS => 85,
            KeyboardKey::KEY_KEYPAD_MINUS => 86,
            KeyboardKey::KEY_KEYPAD_PLUS => 87,
            KeyboardKey::KEY_KEYPAD_ENTER => 88,
            KeyboardKey::KEY_KEYPAD_1_END => 89,
            KeyboardKey::KEY_KEYPAD_2_DOWN_ARROW => 90,
            KeyboardKey::KEY_KEYPAD_3_PAGEDN => 91,
            KeyboardKey::KEY_KEYPAD_4_LEFT_ARROW => 92,
            KeyboardKey::KEY_KEYPAD_5 => 93,
            KeyboardKey::KEY_KEYPAD_6_RIGHT_ARROW => 94,
            KeyboardKey::KEY_KEYPAD_7_HOME => 95,
            KeyboardKey::KEY_KEYPAD_8_UP_ARROW => 96,
            KeyboardKey::KEY_KEYPAD_9_PAGEUP => 97,
            KeyboardKey::KEY_KEYPAD_0_INSERT => 98,
            KeyboardKey::KEY_KEYPAD_DECIMAL_SEPARATOR_DELETE => 99,
            KeyboardKey::KEY_NONUS_BACK_SLASH_VERTICAL_BAR => 100,
            KeyboardKey::KEY_APPLICATION => 101,
            KeyboardKey::KEY_POWER => 102,
            KeyboardKey::KEY_KEYPAD_EQUAL => 103,
            KeyboardKey::KEY_F13 => 104,
            KeyboardKey::KEY_F14 => 105,
            KeyboardKey::KEY_F15 => 106,
            KeyboardKey::KEY_F16 => 107,
            KeyboardKey::KEY_F17 => 108,
            KeyboardKey::KEY_F18 => 109,
            KeyboardKey::KEY_F19 => 110,
            KeyboardKey::KEY_F20 => 111,
            KeyboardKey::KEY_F21 => 112,
            KeyboardKey::KEY_F22 => 113,
            KeyboardKey::KEY_F23 => 114,
            KeyboardKey::KEY_F24 => 115,
            KeyboardKey::KEY_EXECUTE => 116,
            KeyboardKey::KEY_HELP => 117,
            KeyboardKey::KEY_MENU => 118,
            KeyboardKey::KEY_SELECT => 119,
            KeyboardKey::KEY_STOP => 120,
            KeyboardKey::KEY_AGAIN => 121,
            KeyboardKey::KEY_UNDO => 122,
            KeyboardKey::KEY_CUT => 123,
            KeyboardKey::KEY_COPY => 124,
            KeyboardKey::KEY_PASTE => 125,
            KeyboardKey::KEY_FIND => 126,
            KeyboardKey::KEY_MUTE => 127,
            KeyboardKey::KEY_VOLUME_UP => 128,
            KeyboardKey::KEY_VOLUME_DOWN => 129,
            KeyboardKey::KEY_LOCKING_CAPS_LOCK => 130,
            KeyboardKey::KEY_LOCKING_NUM_LOCK => 131,
            KeyboardKey::KEY_LOCKING_SCROLL_LOCK => 132,
            KeyboardKey::KEY_KEYPAD_COMMA => 133,
            KeyboardKey::KEY_KEYPAD_EQUAL_SIGN => 134,
            KeyboardKey::KEY_INTERNATIONAL1 => 135,
            KeyboardKey::KEY_INTERNATIONAL2 => 136,
            KeyboardKey::KEY_INTERNATIONAL3 => 137,
            KeyboardKey::KEY_INTERNATIONAL4 => 138,
            KeyboardKey::KEY_INTERNATIONAL5 => 139,
            KeyboardKey::KEY_INTERNATIONAL6 => 140,
            KeyboardKey::KEY_INTERNATIONAL7 => 141,
            KeyboardKey::KEY_INTERNATIONAL8 => 142,
            KeyboardKey::KEY_INTERNATIONAL9 => 143,
            KeyboardKey::KEY_LANG1 => 144,
            KeyboardKey::KEY_LANG2 => 145,
            KeyboardKey::KEY_LANG3 => 146,
            KeyboardKey::KEY_LANG4 => 147,
            KeyboardKey::KEY_LANG5 => 148,
            KeyboardKey::KEY_LANG6 => 149,
            KeyboardKey::KEY_LANG7 => 150,
            KeyboardKey::KEY_LANG8 => 151,
            KeyboardKey::KEY_LANG9 => 152,
            KeyboardKey::KEY_ALTERNATE_ERASE => 153,
            KeyboardKey::KEY_SYSREQ => 154,
            KeyboardKey::KEY_CANCEL => 155,
            KeyboardKey::KEY_CLEAR => 156,
            KeyboardKey::KEY_PRIOR => 157,
            KeyboardKey::KEY_RETURN => 158,
            KeyboardKey::KEY_SEPARATOR => 159,
            KeyboardKey::KEY_OUT => 160,
            KeyboardKey::KEY_OPER => 161,
            KeyboardKey::KEY_CLEAR_AGAIN => 162,
            KeyboardKey::KEY_CRSEL => 163,
            KeyboardKey::KEY_EXSEL => 164,
            KeyboardKey::KEY_KEYPAD_00 => 165,
            KeyboardKey::KEY_KEYPAD_000 => 166,
            KeyboardKey::KEY_THOUSANDS_SEPARATOR => 167,
            KeyboardKey::KEY_DECIMAL_SEPARATOR => 168,
            KeyboardKey::KEY_CURRENCY_UNIT => 169,
            KeyboardKey::KEY_CURRENCY_SUB_UNIT => 170,
            KeyboardKey::KEY_KEYPAD_OPARENTHESIS => 171,
            KeyboardKey::KEY_KEYPAD_CPARENTHESIS => 172,
            KeyboardKey::KEY_KEYPAD_OBRACE => 173,
            KeyboardKey::KEY_KEYPAD_CBRACE => 174,
            KeyboardKey::KEY_KEYPAD_TAB => 175,
            KeyboardKey::KEY_KEYPAD_BACKSPACE => 176,
            KeyboardKey::KEY_KEYPAD_A => 177,
            KeyboardKey::KEY_KEYPAD_B => 178,
            KeyboardKey::KEY_KEYPAD_C => 179,
            KeyboardKey::KEY_KEYPAD_D => 180,
            KeyboardKey::KEY_KEYPAD_E => 181,
            KeyboardKey::KEY_KEYPAD_F => 182,
            KeyboardKey::KEY_KEYPAD_XOR => 183,
            KeyboardKey::KEY_KEYPAD_CARET => 184,
            KeyboardKey::KEY_KEYPAD_PERCENT => 185,
            KeyboardKey::KEY_KEYPAD_LESS => 186,
            KeyboardKey::KEY_KEYPAD_GREATER => 187,
            KeyboardKey::KEY_KEYPAD_AMPERSAND => 188,
            KeyboardKey::KEY_KEYPAD_LOGICAL_AND => 189,
            KeyboardKey::KEY_KEYPAD_VERTICAL_BAR => 190,
            KeyboardKey::KEY_KEYPAD_LOGICAL_OR => 191,
            KeyboardKey::KEY_KEYPAD_COLON => 192,
            KeyboardKey::KEY_KEYPAD_NUMBER_SIGN => 193,
            KeyboardKey::KEY_KEYPAD_SPACE => 194,
            KeyboardKey::KEY_KEYPAD_AT => 195,
            KeyboardKey::KEY_KEYPAD_EXCLAMATION_MARK => 196,
            KeyboardKey::KEY_KEYPAD_MEMORY_STORE => 197,
            KeyboardKey::KEY_KEYPAD_MEMORY_RECALL => 198,
            KeyboardKey::KEY_KEYPAD_MEMORY_CLEAR => 199,
            KeyboardKey::KEY_KEYPAD_MEMORY_ADD => 200,
            KeyboardKey::KEY_KEYPAD_MEMORY_SUBTRACT => 201,
            KeyboardKey::KEY_KEYPAD_MEMORY_MULTIPLY => 202,
            KeyboardKey::KEY_KEYPAD_MEMORY_DIVIDE => 203,
            KeyboardKey::KEY_KEYPAD_PLUSMINUS => 204,
            KeyboardKey::KEY_KEYPAD_CLEAR => 205,
            KeyboardKey::KEY_KEYPAD_CLEAR_ENTRY => 206,
            KeyboardKey::KEY_KEYPAD_BINARY => 207,
            KeyboardKey::KEY_KEYPAD_OCTAL => 208,
            KeyboardKey::KEY_KEYPAD_DECIMAL => 209,
            KeyboardKey::KEY_KEYPAD_HEXADECIMAL => 210,
            KeyboardKey::KEY_LEFTCONTROL => 211,
            KeyboardKey::KEY_LEFTSHIFT => 212,
            KeyboardKey::KEY_LEFTALT => 213,
            KeyboardKey::KEY_LEFT_GUI => 214,
            KeyboardKey::KEY_RIGHTCONTROL => 215,
            KeyboardKey::KEY_RIGHTSHIFT => 216,
            KeyboardKey::KEY_RIGHTALT => 217,
            KeyboardKey::KEY_RIGHT_GUI => 218,
        }
    }
}

} // verus!
