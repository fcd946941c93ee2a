use crusty_keys::keysym::{KbCode, KbModifierCode, KbSym};
use crusty_keys::keysym::{
    CONTROL_MASK, MOD1_MASK, MOD4_MASK, SHIFT_MASK, XF86_AUDIO_MUTE, XK_DELETE, XK_KP_0, XK_KP_9,
    XK_RETURN, XK_SPACE, XK_TAB,
};

#[test]
fn modifier_bits() {
    assert_eq!(KbModifierCode::Alt.to_code(), MOD1_MASK);
    assert_eq!(KbModifierCode::Ctrl.to_code(), CONTROL_MASK);
    assert_eq!(KbModifierCode::Super.to_code(), MOD4_MASK);
    assert_eq!(KbModifierCode::Shift.to_code(), SHIFT_MASK);
    assert_eq!(MOD1_MASK, 0x08);
    assert_eq!(CONTROL_MASK, 0x04);
    assert_eq!(MOD4_MASK, 0x40);
    assert_eq!(SHIFT_MASK, 0x01);
}

#[test]
fn named_keysyms() {
    assert_eq!(KbSym::Enter.to_code(), XK_RETURN);
    assert_eq!(XK_RETURN, 0xFF0D);
    assert_eq!(KbSym::Space.to_code(), XK_SPACE);
    assert_eq!(KbSym::Tab.to_code(), XK_TAB);
    assert_eq!(KbSym::Del.to_code(), XK_DELETE);
    assert_eq!(KbSym::KP0.to_code(), XK_KP_0);
    assert_eq!(KbSym::KP9.to_code(), XK_KP_9);
    assert_eq!(KbSym::XF86AudioMute.to_code(), XF86_AUDIO_MUTE);
}

#[test]
fn function_keysyms() {
    // Fn sits at XK_F1_BASE + n: the 35 function keys map one-to-one onto
    // the keysyms XK_F1 through XK_F35.
    assert_eq!(KbSym::F(1).to_code(), 0xFFBE);
    assert_eq!(KbSym::F(12).to_code(), 0xFFC9);
    assert_eq!(KbSym::F(13).to_code(), 0xFFCA);
    assert_eq!(KbSym::F(20).to_code(), 0xFFD1);
    assert_eq!(KbSym::F(21).to_code(), 0xFFD2);
    assert_eq!(KbSym::F(22).to_code(), 0xFFD3);
    assert_eq!(KbSym::F(35).to_code(), 0xFFE0);
    for n in 1..=35u8 {
        assert_eq!(KbSym::F(n).to_code(), 0xFFBD + n as u32);
    }
}

#[test]
fn character_keysyms_equal_code_points() {
    assert_eq!(KbSym::Char('a').to_code(), 0x61);
    assert_eq!(KbSym::Char('z').to_code(), 0x7A);
    assert_eq!(KbSym::Char('0').to_code(), 0x30);
    assert_eq!(KbSym::Char('9').to_code(), 0x39);
}

#[test]
fn literal_codes_pass_through() {
    assert_eq!(KbCode(0).to_code(), 0);
    assert_eq!(KbCode(255).to_code(), 255);
    assert_eq!(KbCode(u32::MAX).to_code(), u32::MAX);
}
