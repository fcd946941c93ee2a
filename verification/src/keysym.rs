//! The key lexicon: platform key-symbol identifiers and modifier masks.
//!
//! The numeric values are fixed by the X protocol: modifier masks from the
//! core protocol's state field, key symbols from the standard keysym tables
//! (Latin-1 symbols equal their character code points).

use vstd::prelude::*;

use crate::text::{is_digit_char, is_lower_alpha};

verus! {

/// Modifier bit for Shift in an event's state field.
pub const SHIFT_MASK: u32 = 0x01;
/// Modifier bit for CapsLock.
pub const LOCK_MASK: u32 = 0x02;
/// Modifier bit for Control.
pub const CONTROL_MASK: u32 = 0x04;
/// Modifier bit for Alt (Mod1).
pub const MOD1_MASK: u32 = 0x08;
/// Modifier bit for NumLock (Mod2).
pub const MOD2_MASK: u32 = 0x10;
/// Modifier bit for Super (Mod4).
pub const MOD4_MASK: u32 = 0x40;

pub const XK_RETURN: u32 = 0xFF0D;
pub const XK_SPACE: u32 = 0x020;
pub const XK_BACKSPACE: u32 = 0xFF08;
pub const XK_ESCAPE: u32 = 0xFF1B;
pub const XK_END: u32 = 0xFF57;
pub const XK_HOME: u32 = 0xFF50;
pub const XK_INSERT: u32 = 0xFF63;
pub const XK_DELETE: u32 = 0xFFFF;
pub const XK_DOWN: u32 = 0xFF54;
pub const XK_UP: u32 = 0xFF52;
pub const XK_LEFT: u32 = 0xFF51;
pub const XK_RIGHT: u32 = 0xFF53;
pub const XK_PAGE_UP: u32 = 0xFF55;
pub const XK_PAGE_DOWN: u32 = 0xFF56;
pub const XK_TAB: u32 = 0xFF09;
pub const XK_MINUS: u32 = 0x02D;
pub const XK_EQUAL: u32 = 0x03D;
pub const XK_QUOTELEFT: u32 = 0x060;
pub const XK_QUOTERIGHT: u32 = 0x027;
pub const XK_BACKSLASH: u32 = 0x05C;
pub const XK_SLASH: u32 = 0x02F;
pub const XK_SEMICOLON: u32 = 0x03B;
pub const XK_COMMA: u32 = 0x02C;
pub const XK_PERIOD: u32 = 0x02E;

pub const XK_KP_0: u32 = 0xFFB0;
pub const XK_KP_1: u32 = 0xFFB1;
pub const XK_KP_2: u32 = 0xFFB2;
pub const XK_KP_3: u32 = 0xFFB3;
pub const XK_KP_4: u32 = 0xFFB4;
pub const XK_KP_5: u32 = 0xFFB5;
pub const XK_KP_6: u32 = 0xFFB6;
pub const XK_KP_7: u32 = 0xFFB7;
pub const XK_KP_8: u32 = 0xFFB8;
pub const XK_KP_9: u32 = 0xFFB9;

pub const XF86_AUDIO_MUTE: u32 = 0x1008FF12;
pub const XF86_AUDIO_MIC_MUTE: u32 = 0x1008FFB2;
pub const XF86_AUDIO_NEXT: u32 = 0x1008FF17;
pub const XF86_AUDIO_PREV: u32 = 0x1008FF16;
pub const XF86_AUDIO_STOP: u32 = 0x1008FF15;
pub const XF86_AUDIO_PLAY: u32 = 0x1008FF14;
pub const XF86_AUDIO_LOWER_VOLUME: u32 = 0x1008FF11;
pub const XF86_AUDIO_RAISE_VOLUME: u32 = 0x1008FF13;

/// Keysym of the first function key, `F1`; `Fn` is `XK_F1_BASE + n`.
pub const XK_F1_BASE: u32 = 0xFFBD;

/// The four modifier keys a binding may name.
#[derive(Debug, Clone, Copy, PartialEq, Eq, Structural)]
pub enum KbModifierCode {
    Alt,
    Ctrl,
    Super,
    Shift,
}

/// The modifier bit each modifier key contributes to a binding's mask.
pub open spec fn modifier_mask(m: KbModifierCode) -> u32 {
    match m {
        KbModifierCode::Alt => MOD1_MASK,
        KbModifierCode::Ctrl => CONTROL_MASK,
        KbModifierCode::Super => MOD4_MASK,
        KbModifierCode::Shift => SHIFT_MASK,
    }
}

impl KbModifierCode {
    /// The platform modifier bit for this modifier key.
    pub fn to_code(&self) -> (code: u32)
        ensures
            code == modifier_mask(*self),
    {
        match self {
            KbModifierCode::Alt => MOD1_MASK,
            KbModifierCode::Ctrl => CONTROL_MASK,
            KbModifierCode::Super => MOD4_MASK,
            KbModifierCode::Shift => SHIFT_MASK,
        }
    }
}

/// A literal key code, written `[N]` in a binding string.  It bypasses the
/// symbol tables and is handed to the platform as given.
#[derive(Debug, Clone, Copy, PartialEq, Eq, Structural)]
pub struct KbCode(pub u32);

impl KbCode {
    /// The raw code this literal stands for.
    pub fn to_code(&self) -> (code: u32)
        ensures
            code == self.0,
    {
        self.0
    }
}

/// A named key symbol the lexicon can produce.
#[derive(Debug, Clone, Copy, PartialEq, Eq, Structural)]
pub enum KbSym {
    Enter,
    Space,
    Backspace,
    Esc,
    End,
    Home,
    Insert,
    Del,
    Down,
    Up,
    Left,
    Right,
    PgUp,
    PgDown,
    Tab,
    Minus,
    Equals,
    Quote,
    Backtick,
    Backslash,
    Slash,
    Semicolon,
    Comma,
    Period,
    KP0,
    KP1,
    KP2,
    KP3,
    KP4,
    KP5,
    KP6,
    KP7,
    KP8,
    KP9,
    XF86AudioMute,
    XF86AudioMicMute,
    XF86AudioNext,
    XF86AudioPrev,
    XF86AudioStop,
    XF86AudioPlay,
    XF86AudioLowerVolume,
    XF86AudioRaiseVolume,
    /// A function key, `F1` through `F35`.
    F(u8),
    /// A single alphanumeric character key, held lower-case.
    Char(char),
}

impl KbSym {
    /// The symbols the lexicon may build: function keys run `F1` to `F35`,
    /// and a character key holds a lower-case letter or a digit.
    pub open spec fn wf(self) -> bool {
        match self {
            KbSym::F(f) => 1 <= f <= 35,
            KbSym::Char(c) => is_lower_alpha(c) || is_digit_char(c),
            _ => true,
        }
    }

    /// Decide [`KbSym::wf`].
    pub fn is_wf(&self) -> (r: bool)
        ensures
            r == self.wf(),
    {
        match self {
            KbSym::F(f) => 1 <= *f && *f <= 35,
            KbSym::Char(c) => {
                let u = *c as u32;
                (97 <= u && u <= 122) || (48 <= u && u <= 57)
            },
            _ => true,
        }
    }
}

/// The keysym each symbol resolves to.
///
/// A function key `Fn` resolves to `XK_F1_BASE + n`.  Character keys
/// resolve to their code point, which equals their Latin-1 keysym.
pub open spec fn keysym_of(s: KbSym) -> u32 {
    match s {
        KbSym::Enter => XK_RETURN,
        KbSym::Space => XK_SPACE,
        KbSym::Backspace => XK_BACKSPACE,
        KbSym::Esc => XK_ESCAPE,
        KbSym::End => XK_END,
        KbSym::Home => XK_HOME,
        KbSym::Insert => XK_INSERT,
        KbSym::Del => XK_DELETE,
        KbSym::Down => XK_DOWN,
        KbSym::Up => XK_UP,
        KbSym::Left => XK_LEFT,
        KbSym::Right => XK_RIGHT,
        KbSym::PgUp => XK_PAGE_UP,
        KbSym::PgDown => XK_PAGE_DOWN,
        KbSym::Tab => XK_TAB,
        KbSym::Minus => XK_MINUS,
        KbSym::Equals => XK_EQUAL,
        KbSym::Quote => XK_QUOTELEFT,
        KbSym::Backtick => XK_QUOTERIGHT,
        KbSym::Backslash => XK_BACKSLASH,
        KbSym::Slash => XK_SLASH,
        KbSym::Semicolon => XK_SEMICOLON,
        KbSym::Comma => XK_COMMA,
        KbSym::Period => XK_PERIOD,
        KbSym::KP0 => XK_KP_0,
        KbSym::KP1 => XK_KP_1,
        KbSym::KP2 => XK_KP_2,
        KbSym::KP3 => XK_KP_3,
        KbSym::KP4 => XK_KP_4,
        KbSym::KP5 => XK_KP_5,
        KbSym::KP6 => XK_KP_6,
        KbSym::KP7 => XK_KP_7,
        KbSym::KP8 => XK_KP_8,
        KbSym::KP9 => XK_KP_9,
        KbSym::XF86AudioMute => XF86_AUDIO_MUTE,
        KbSym::XF86AudioMicMute => XF86_AUDIO_MIC_MUTE,
        KbSym::XF86AudioNext => XF86_AUDIO_NEXT,
        KbSym::XF86AudioPrev => XF86_AUDIO_PREV,
        KbSym::XF86AudioStop => XF86_AUDIO_STOP,
        KbSym::XF86AudioPlay => XF86_AUDIO_PLAY,
        KbSym::XF86AudioLowerVolume => XF86_AUDIO_LOWER_VOLUME,
        KbSym::XF86AudioRaiseVolume => XF86_AUDIO_RAISE_VOLUME,
        KbSym::F(f) => (XK_F1_BASE + f) as u32,
        KbSym::Char(c) => c as u32,
    }
}

impl KbSym {
    /// The platform keysym for this symbol.
    pub fn to_code(&self) -> (code: u32)
        requires
            self.wf(),
        ensures
            code == keysym_of(*self),
    {
        match self {
            KbSym::Enter => XK_RETURN,
            KbSym::Space => XK_SPACE,
            KbSym::Backspace => XK_BACKSPACE,
            KbSym::Esc => XK_ESCAPE,
            KbSym::End => XK_END,
            KbSym::Home => XK_HOME,
            KbSym::Insert => XK_INSERT,
            KbSym::Del => XK_DELETE,
            KbSym::Down => XK_DOWN,
            KbSym::Up => XK_UP,
            KbSym::Left => XK_LEFT,
            KbSym::Right => XK_RIGHT,
            KbSym::PgUp => XK_PAGE_UP,
            KbSym::PgDown => XK_PAGE_DOWN,
            KbSym::Tab => XK_TAB,
            KbSym::Minus => XK_MINUS,
            KbSym::Equals => XK_EQUAL,
            KbSym::Quote => XK_QUOTELEFT,
            KbSym::Backtick => XK_QUOTERIGHT,
            KbSym::Backslash => XK_BACKSLASH,
            KbSym::Slash => XK_SLASH,
            KbSym::Semicolon => XK_SEMICOLON,
            KbSym::Comma => XK_COMMA,
            KbSym::Period => XK_PERIOD,
            KbSym::KP0 => XK_KP_0,
            KbSym::KP1 => XK_KP_1,
            KbSym::KP2 => XK_KP_2,
            KbSym::KP3 => XK_KP_3,
            KbSym::KP4 => XK_KP_4,
            KbSym::KP5 => XK_KP_5,
            KbSym::KP6 => XK_KP_6,
            KbSym::KP7 => XK_KP_7,
            KbSym::KP8 => XK_KP_8,
            KbSym::KP9 => XK_KP_9,
            KbSym::XF86AudioMute => XF86_AUDIO_MUTE,
            KbSym::XF86AudioMicMute => XF86_AUDIO_MIC_MUTE,
            KbSym::XF86AudioNext => XF86_AUDIO_NEXT,
            KbSym::XF86AudioPrev => XF86_AUDIO_PREV,
            KbSym::XF86AudioStop => XF86_AUDIO_STOP,
            KbSym::XF86AudioPlay => XF86_AUDIO_PLAY,
            KbSym::XF86AudioLowerVolume => XF86_AUDIO_LOWER_VOLUME,
            KbSym::XF86AudioRaiseVolume => XF86_AUDIO_RAISE_VOLUME,
            KbSym::F(f) => XK_F1_BASE + (*f as u32),
            KbSym::Char(c) => *c as u32,
        }
    }
}

/// The symbol tables are bidirectional: distinct well-formed symbols
/// resolve to distinct keysyms.
pub proof fn lemma_keysym_of_injective(a: KbSym, b: KbSym)
    requires
        a.wf(),
        b.wf(),
        a != b,
    ensures
        keysym_of(a) != keysym_of(b),
{
}

/// What lexical classification makes of one `+`-delimited token.
#[derive(Debug, Clone, Copy, PartialEq, Eq, Structural)]
pub enum KeyKind {
    /// A modifier name such as `<ctrl>`.
    Mod(KbModifierCode),
    /// A named or character key.
    KeySym(KbSym),
    /// A literal key code, `[N]`.
    KeyCode(KbCode),
    /// No entry of the lexicon matches.
    Unknown,
}

impl KeyKind {
    /// Any key symbol carried by the classification is well formed.
    pub open spec fn wf(self) -> bool {
        match self {
            KeyKind::KeySym(s) => s.wf(),
            _ => true,
        }
    }
}

} // verus!
