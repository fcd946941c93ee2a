use crusty_keys::dispatch::{match_event, InputEvent, KEY_PRESS};
use crusty_keys::grab::{
    classify_grab_status, classify_ungrab_status, record_grab_outcomes, GrabOutcome,
    UnGrabKeyError,
};
use crusty_keys::keysym::{MOD2_MASK, MOD4_MASK, XK_RETURN};
use crusty_keys::options::KeyMapOptions;
use crusty_keys::parse::KbCodeType;
use crusty_keys::registry::{BindingRegistry, CallbackId, KeyMaps};

#[test]
fn grab_status_codes_classify() {
    assert_eq!(classify_grab_status(1), GrabOutcome::Success);
    assert_eq!(classify_grab_status(2), GrabOutcome::InvalidTiming);
    assert_eq!(classify_grab_status(3), GrabOutcome::TargetNotViewable);
    assert_eq!(classify_grab_status(4), GrabOutcome::InputFrozen);
    assert_eq!(classify_grab_status(0), GrabOutcome::Unknown(0));
    assert_eq!(classify_grab_status(77), GrabOutcome::Unknown(77));
}

#[test]
fn ungrab_status_codes_classify() {
    assert_eq!(classify_ungrab_status(1), UnGrabKeyError::BadAccess);
    assert_eq!(classify_ungrab_status(2), UnGrabKeyError::BadValue);
    assert_eq!(classify_ungrab_status(3), UnGrabKeyError::BadWindow);
    assert_eq!(classify_ungrab_status(9), UnGrabKeyError::Unknown(9));
}

#[test]
fn grab_messages() {
    assert_eq!(GrabOutcome::Success.message("<super>+a"), "");
    assert_eq!(
        GrabOutcome::InvalidTiming.message("<super>+a"),
        "Grabbing Keys: Invalid time"
    );
    assert_eq!(
        GrabOutcome::AlreadyGrabbedElsewhere.message("<super>+a"),
        "Grabbing Keys: Already Grabbed: <super>+a"
    );
    assert_eq!(
        GrabOutcome::Unknown(7).message(""),
        "Grabbing Keys: Unknown error: 7"
    );
    assert_eq!(
        GrabOutcome::Unknown(-13).message(""),
        "Grabbing Keys: Unknown error: -13"
    );
}

#[test]
fn ungrab_messages() {
    assert_eq!(UnGrabKeyError::BadAccess.message(), "Ungrabing Keys: BadAccess");
    assert_eq!(UnGrabKeyError::BadValue.message(), "Ungrabbing Keys: BadValue");
    assert_eq!(UnGrabKeyError::BadWindow.message(), "Ungrabbing Keys: BadWindow");
    assert_eq!(
        UnGrabKeyError::Unknown(-3).message(),
        "Ungrabbing Keys: Unknown error: -3"
    );
    assert_eq!(
        UnGrabKeyError::Unknown(i32::MIN).message(),
        "Ungrabbing Keys: Unknown error: -2147483648"
    );
    assert_eq!(
        UnGrabKeyError::Unknown(i32::MAX).message(),
        "Ungrabbing Keys: Unknown error: 2147483647"
    );
}

#[test]
fn registry_insert_is_last_writer_wins() {
    let mut reg = BindingRegistry::new();
    reg.insert(36, MOD4_MASK, CallbackId(1));
    reg.insert(36, MOD4_MASK, CallbackId(2));
    assert_eq!(reg.lookup(36, MOD4_MASK), Some(CallbackId(2)));
}

#[test]
fn registry_lookup_is_exact() {
    let mut reg = BindingRegistry::new();
    reg.insert(36, MOD4_MASK, CallbackId(1));
    assert_eq!(reg.lookup(36, MOD4_MASK), Some(CallbackId(1)));
    assert_eq!(reg.lookup(36, MOD4_MASK | MOD2_MASK), None);
    assert_eq!(reg.lookup(36, 0), None);
    assert_eq!(reg.lookup(37, MOD4_MASK), None);
}

#[test]
fn dispatch_ignores_non_key_press_events() {
    let mut reg = BindingRegistry::new();
    reg.insert(36, MOD4_MASK, CallbackId(1));
    // Event type 3 is a key release; its (code, state) pair has a record,
    // but only a key press may reach a callback.
    let ev = InputEvent { event_type: 3, keycode: 36, state: MOD4_MASK };
    assert_eq!(match_event(&reg, &ev), None);
}

#[test]
fn dispatch_finds_exactly_one_handle() {
    let mut reg = BindingRegistry::new();
    reg.insert(36, MOD4_MASK, CallbackId(5));
    let ev = InputEvent { event_type: KEY_PRESS, keycode: 36, state: MOD4_MASK };
    assert_eq!(match_event(&reg, &ev), Some(CallbackId(5)));
    let miss = InputEvent { event_type: KEY_PRESS, keycode: 36, state: 0 };
    assert_eq!(match_event(&reg, &miss), None);
}

/// A binding grabbed on all four lock variants fires on a press that
/// carries an extra NumLock bit, and its callback is found exactly once.
#[test]
fn scenario_all_variants_grabbed() {
    let mut maps = KeyMaps::default();
    let ok = maps.register_binding(
        "<Super>+<Enter>".to_string(),
        CallbackId(0),
        KeyMapOptions::default(),
    );
    assert!(ok);
    assert_eq!(maps.len(), 1);
    let m = maps.get(0);
    assert_eq!(m.map.code, KbCodeType::Sym(crusty_keys::keysym::KbSym::Enter));
    assert_eq!(m.map.code.to_code(), XK_RETURN);

    // The embedding translates the Return keysym to a key code.
    let keycode: i32 = 36;
    let variants = m.map.modifiers.as_universal();
    let outcomes = [
        GrabOutcome::Success,
        GrabOutcome::Success,
        GrabOutcome::Success,
        GrabOutcome::Success,
    ];
    let cb = m.cb;
    let mut reg = BindingRegistry::new();
    record_grab_outcomes(&mut reg, keycode, &variants, &outcomes, cb);

    let ev = InputEvent {
        event_type: KEY_PRESS,
        keycode,
        state: MOD4_MASK | MOD2_MASK,
    };
    let mut invocations = 0;
    if let Some(handle) = match_event(&reg, &ev) {
        assert_eq!(handle, CallbackId(0));
        invocations += 1;
    }
    assert_eq!(invocations, 1);
}

/// A binding whose grabs failed on three of four lock variants stays
/// reachable for the one that succeeded, and for no other.
#[test]
fn scenario_partial_grab_failure() {
    let mut maps = KeyMaps::default();
    let ok = maps.register_binding(
        "<Super>+<Enter>".to_string(),
        CallbackId(0),
        KeyMapOptions::default(),
    );
    assert!(ok);
    let m = maps.get(0);
    let keycode: i32 = 36;
    let variants = m.map.modifiers.as_universal();
    let outcomes = [
        GrabOutcome::AlreadyGrabbedElsewhere,
        GrabOutcome::Success,
        GrabOutcome::AlreadyGrabbedElsewhere,
        GrabOutcome::AlreadyGrabbedElsewhere,
    ];
    let mut reg = BindingRegistry::new();
    record_grab_outcomes(&mut reg, keycode, &variants, &outcomes, m.cb);

    assert_eq!(reg.lookup(keycode, variants[0]), None);
    assert_eq!(reg.lookup(keycode, variants[1]), Some(CallbackId(0)));
    assert_eq!(reg.lookup(keycode, variants[2]), None);
    assert_eq!(reg.lookup(keycode, variants[3]), None);

    // The binding is still listed.
    let rows = crusty_keys::listing::sorted_for_listing(&maps);
    assert_eq!(rows.len(), 1);
    assert_eq!(rows[0].0, "<Super>+<Enter>");
}

/// A binding with an unrecognized token yields no canonical form and no
/// registry entry, and bindings before and after it are unaffected.
#[test]
fn scenario_unrecognized_binding_is_dropped() {
    let mut maps = KeyMaps::default();
    assert!(maps.register_binding(
        "<Ctrl>+a".to_string(),
        CallbackId(0),
        KeyMapOptions::default(),
    ));
    assert!(!maps.register_binding(
        "<Super>+Unrecognized123".to_string(),
        CallbackId(1),
        KeyMapOptions::default(),
    ));
    assert!(maps.register_binding(
        "<Ctrl>+b".to_string(),
        CallbackId(2),
        KeyMapOptions::default(),
    ));
    assert_eq!(maps.len(), 2);
    assert_eq!(maps.get(0).s, "<Ctrl>+a");
    assert_eq!(maps.get(1).s, "<Ctrl>+b");
    assert_eq!(maps.get(1).cb, CallbackId(2));
}
