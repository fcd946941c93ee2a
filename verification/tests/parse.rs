use crusty_keys::keysym::{KbCode, KbModifierCode, KbSym, KeyKind};
use crusty_keys::keysym::{
    CONTROL_MASK, LOCK_MASK, MOD1_MASK, MOD2_MASK, MOD4_MASK, SHIFT_MASK, XK_F1_BASE, XK_RETURN,
};
use crusty_keys::lexicon::{classify_token, extract_keycode};
use crusty_keys::parse::{CanonicalBinding, KbCodeType, MapBuilder, Modifier};

fn chars(s: &str) -> Vec<char> {
    s.chars().collect()
}

#[test]
fn classify_modifier_names() {
    assert_eq!(classify_token(&chars("<super>")), KeyKind::Mod(KbModifierCode::Super));
    assert_eq!(classify_token(&chars("<ctrl>")), KeyKind::Mod(KbModifierCode::Ctrl));
    assert_eq!(classify_token(&chars("<alt>")), KeyKind::Mod(KbModifierCode::Alt));
    assert_eq!(classify_token(&chars("<shift>")), KeyKind::Mod(KbModifierCode::Shift));
}

#[test]
fn classify_is_case_insensitive() {
    assert_eq!(classify_token(&chars("<Super>")), KeyKind::Mod(KbModifierCode::Super));
    assert_eq!(classify_token(&chars("<CTRL>")), KeyKind::Mod(KbModifierCode::Ctrl));
    assert_eq!(classify_token(&chars("<Enter>")), KeyKind::KeySym(KbSym::Enter));
    assert_eq!(classify_token(&chars("<F5>")), KeyKind::KeySym(KbSym::F(5)));
}

#[test]
fn classify_named_keys() {
    assert_eq!(classify_token(&chars("<enter>")), KeyKind::KeySym(KbSym::Enter));
    assert_eq!(classify_token(&chars("<space>")), KeyKind::KeySym(KbSym::Space));
    assert_eq!(classify_token(&chars("<backspace>")), KeyKind::KeySym(KbSym::Backspace));
    assert_eq!(classify_token(&chars("<esc>")), KeyKind::KeySym(KbSym::Esc));
    assert_eq!(classify_token(&chars("<pgup>")), KeyKind::KeySym(KbSym::PgUp));
    assert_eq!(classify_token(&chars("<pgdown>")), KeyKind::KeySym(KbSym::PgDown));
    assert_eq!(classify_token(&chars("<semicolon>")), KeyKind::KeySym(KbSym::Semicolon));
}

#[test]
fn classify_function_keys() {
    assert_eq!(classify_token(&chars("<f1>")), KeyKind::KeySym(KbSym::F(1)));
    assert_eq!(classify_token(&chars("<f12>")), KeyKind::KeySym(KbSym::F(12)));
    assert_eq!(classify_token(&chars("<f35>")), KeyKind::KeySym(KbSym::F(35)));
    // Every one of the 35 function-key names is recognized, in either case.
    for n in 1..=35u8 {
        let lower = format!("<f{n}>");
        let upper = format!("<F{n}>");
        assert_eq!(classify_token(&chars(&lower)), KeyKind::KeySym(KbSym::F(n)));
        assert_eq!(classify_token(&chars(&upper)), KeyKind::KeySym(KbSym::F(n)));
    }
}

#[test]
fn classify_keypad_keys() {
    assert_eq!(classify_token(&chars("<kp0>")), KeyKind::KeySym(KbSym::KP0));
    assert_eq!(classify_token(&chars("<kp5>")), KeyKind::KeySym(KbSym::KP5));
    assert_eq!(classify_token(&chars("<kp9>")), KeyKind::KeySym(KbSym::KP9));
    assert_eq!(classify_token(&chars("<KP3>")), KeyKind::KeySym(KbSym::KP3));
}

#[test]
fn classify_multimedia_keys() {
    assert_eq!(
        classify_token(&chars("<xf86audiomute>")),
        KeyKind::KeySym(KbSym::XF86AudioMute)
    );
    assert_eq!(
        classify_token(&chars("<XF86AudioMicMute>")),
        KeyKind::KeySym(KbSym::XF86AudioMicMute)
    );
    assert_eq!(
        classify_token(&chars("<XF86AudioNext>")),
        KeyKind::KeySym(KbSym::XF86AudioNext)
    );
    assert_eq!(
        classify_token(&chars("<xf86audioprev>")),
        KeyKind::KeySym(KbSym::XF86AudioPrev)
    );
    assert_eq!(
        classify_token(&chars("<xf86audiostop>")),
        KeyKind::KeySym(KbSym::XF86AudioStop)
    );
    assert_eq!(
        classify_token(&chars("<xf86audioplay>")),
        KeyKind::KeySym(KbSym::XF86AudioPlay)
    );
    assert_eq!(
        classify_token(&chars("<XF86AudioLowerVolume>")),
        KeyKind::KeySym(KbSym::XF86AudioLowerVolume)
    );
    assert_eq!(
        classify_token(&chars("<XF86AudioRaiseVolume>")),
        KeyKind::KeySym(KbSym::XF86AudioRaiseVolume)
    );
}

#[test]
fn classify_single_characters() {
    assert_eq!(classify_token(&chars("a")), KeyKind::KeySym(KbSym::Char('a')));
    assert_eq!(classify_token(&chars("A")), KeyKind::KeySym(KbSym::Char('a')));
    assert_eq!(classify_token(&chars("z")), KeyKind::KeySym(KbSym::Char('z')));
    assert_eq!(classify_token(&chars("0")), KeyKind::KeySym(KbSym::Char('0')));
    assert_eq!(classify_token(&chars("9")), KeyKind::KeySym(KbSym::Char('9')));
}

#[test]
fn classify_literal_keycodes() {
    assert_eq!(classify_token(&chars("[123]")), KeyKind::KeyCode(KbCode(123)));
    assert_eq!(classify_token(&chars("[0]")), KeyKind::KeyCode(KbCode(0)));
    // The bracket pattern is greedy from the first opener to the last closer.
    assert_eq!(classify_token(&chars("a[12]b")), KeyKind::KeyCode(KbCode(12)));
    assert_eq!(classify_token(&chars("x[12]y[34]")), KeyKind::Unknown);
}

#[test]
fn classify_unrecognized_tokens() {
    assert_eq!(classify_token(&chars("unrecognized123")), KeyKind::Unknown);
    assert_eq!(classify_token(&chars("")), KeyKind::Unknown);
    assert_eq!(classify_token(&chars("<f36>")), KeyKind::Unknown);
    assert_eq!(classify_token(&chars("<f0>")), KeyKind::Unknown);
    assert_eq!(classify_token(&chars("ab")), KeyKind::Unknown);
    assert_eq!(classify_token(&chars("!")), KeyKind::Unknown);
    assert_eq!(classify_token(&chars("<kp10>")), KeyKind::Unknown);
    assert_eq!(classify_token(&chars("<xf86audio>")), KeyKind::Unknown);
    // An empty or overflowing bracket group does not make a keycode.
    assert_eq!(classify_token(&chars("[]")), KeyKind::Unknown);
    assert_eq!(classify_token(&chars("[99999999999]")), KeyKind::Unknown);
    assert_eq!(classify_token(&chars("[12a]")), KeyKind::Unknown);
}

#[test]
fn extract_keycode_reads_first_group() {
    assert_eq!(extract_keycode(&chars("[42]")), Some(42));
    assert_eq!(extract_keycode(&chars("[0042]")), Some(42));
    assert_eq!(extract_keycode(&chars("[4294967295]")), Some(u32::MAX));
    assert_eq!(extract_keycode(&chars("[4294967296]")), None);
    assert_eq!(extract_keycode(&chars("42")), None);
    assert_eq!(extract_keycode(&chars("[42")), None);
}

#[test]
fn parse_combines_modifiers_and_key() {
    let b = CanonicalBinding::parse("<Ctrl>+<Shift>+<F5>").unwrap();
    assert_eq!(b.modifiers, Modifier(CONTROL_MASK | SHIFT_MASK));
    assert_eq!(b.code, KbCodeType::Sym(KbSym::F(5)));
    assert_eq!(b.code.to_code(), XK_F1_BASE + 5);
}

#[test]
fn parse_is_order_independent() {
    let a = CanonicalBinding::parse("<Ctrl>+<Shift>+<F5>").unwrap();
    let b = CanonicalBinding::parse("<Shift>+<Ctrl>+<F5>").unwrap();
    assert_eq!(a, b);
}

#[test]
fn parse_trims_whitespace() {
    let a = CanonicalBinding::parse(" <Ctrl> + <Shift>+<F5> ").unwrap();
    let b = CanonicalBinding::parse("<Ctrl>+<Shift>+<F5>").unwrap();
    assert_eq!(a, b);
}

#[test]
fn parse_accumulates_all_modifier_bits() {
    let b = CanonicalBinding::parse("<Alt>+<Ctrl>+<Super>+<Shift>+a").unwrap();
    assert_eq!(b.modifiers, Modifier(MOD1_MASK | CONTROL_MASK | MOD4_MASK | SHIFT_MASK));
    assert_eq!(b.code, KbCodeType::Sym(KbSym::Char('a')));
}

#[test]
fn parse_without_key_fails() {
    assert!(CanonicalBinding::parse("<Ctrl>").is_err());
    assert!(CanonicalBinding::parse("<Ctrl>+<Shift>").is_err());
    assert!(CanonicalBinding::parse("").is_err());
}

#[test]
fn parse_last_key_token_wins() {
    let b = CanonicalBinding::parse("<Ctrl>+a+b").unwrap();
    assert_eq!(b.code, KbCodeType::Sym(KbSym::Char('b')));
    let b = CanonicalBinding::parse("<Ctrl>+<Enter>+[9]").unwrap();
    assert_eq!(b.code, KbCodeType::Code(KbCode(9)));
}

#[test]
fn parse_rejects_any_unrecognized_token() {
    assert!(CanonicalBinding::parse("<Super>+Unrecognized123").is_err());
    assert!(CanonicalBinding::parse("bogus+a").is_err());
    assert!(CanonicalBinding::parse("<Ctrl>+a+bogus").is_err());
    // An empty piece between two separators is an unrecognized token too.
    assert!(CanonicalBinding::parse("<Ctrl>++a").is_err());
}

#[test]
fn parse_keypad_and_multimedia_bindings() {
    let b = CanonicalBinding::parse("<Super>+<KP5>").unwrap();
    assert_eq!(b.modifiers, Modifier(MOD4_MASK));
    assert_eq!(b.code, KbCodeType::Sym(KbSym::KP5));
    assert_eq!(b.code.to_code(), 0xFFB5);

    let b = CanonicalBinding::parse("<XF86AudioPlay>").unwrap();
    assert_eq!(b.modifiers, Modifier(0));
    assert_eq!(b.code, KbCodeType::Sym(KbSym::XF86AudioPlay));
    assert_eq!(b.code.to_code(), 0x1008FF14);
}

#[test]
fn parse_literal_binding() {
    let b = CanonicalBinding::parse("<Super>+[107]").unwrap();
    assert_eq!(b.modifiers, Modifier(MOD4_MASK));
    assert_eq!(b.code.to_code(), 107);
}

#[test]
fn builder_requires_a_key() {
    let b = MapBuilder::default();
    assert!(b.build().is_err());
    let b = MapBuilder { modifiers: Modifier(0), code: Some(KbCodeType::Sym(KbSym::Enter)), invalid: false };
    let built = b.build().unwrap();
    assert_eq!(built.code.to_code(), XK_RETURN);
    let b = MapBuilder { modifiers: Modifier(0), code: Some(KbCodeType::Sym(KbSym::Enter)), invalid: true };
    assert!(b.build().is_err());
}

#[test]
fn expand_produces_four_lock_variants() {
    let m = Modifier(MOD4_MASK);
    let variants = m.as_universal();
    assert_eq!(variants.len(), 4);
    assert_eq!(variants[0], MOD4_MASK);
    assert_eq!(variants[1], MOD4_MASK | MOD2_MASK);
    assert_eq!(variants[2], MOD4_MASK | LOCK_MASK);
    assert_eq!(variants[3], MOD4_MASK | LOCK_MASK | MOD2_MASK);
}

#[test]
fn expand_of_reduced_variant_reproduces_the_set() {
    let m = Modifier(CONTROL_MASK | SHIFT_MASK);
    let variants = m.as_universal();
    for v in variants.iter() {
        let base = v & !(LOCK_MASK | MOD2_MASK);
        assert_eq!(Modifier(base).as_universal(), variants);
    }
}
