use keyprod::keycode::Keycode;

#[test]
fn codes_and_names() {
    assert_eq!(Keycode::KEY_RESERVED.code(), 0);
    assert_eq!(Keycode::KEY_ESC.code(), 1);
    assert_eq!(Keycode::KEY_1.code(), 2);
    assert_eq!(Keycode::KEY_A.code(), 30);
    assert_eq!(Keycode::KEY_A.name(), "KEY_A");
    assert_eq!(Keycode::KEY_LEFTSHIFT.code(), 42);
    assert_eq!(Keycode::KEY_CNT.code(), 768);
    assert_eq!(Keycode::KEY_MAX.code(), 767);
}

#[test]
fn lookup_by_code() {
    assert_eq!(Keycode::try_from(30), Ok(Keycode::KEY_A));
    assert_eq!(Keycode::try_from(768), Ok(Keycode::KEY_CNT));
    // 122 is KEY_HANGEUL, which KEY_HANGUEL names too: the first name wins.
    assert_eq!(Keycode::try_from(122), Ok(Keycode::KEY_HANGEUL));
    assert_eq!(Keycode::try_from(122).unwrap().name(), "KEY_HANGEUL");
    // No key has the code 84 or 769.
    assert_eq!(Keycode::try_from(84), Err(()));
    assert_eq!(Keycode::try_from(769), Err(()));
    assert_eq!(Keycode::try_from(u16::MAX), Err(()));
}

#[test]
fn every_code_round_trips() {
    let mut known = 0;
    for value in 0..=u16::MAX {
        if let Ok(k) = Keycode::try_from(value) {
            assert_eq!(k.code(), value);
            known += 1;
        }
    }
    assert_eq!(known, 506);
}

#[test]
fn modifiers() {
    for k in [
        Keycode::KEY_LEFTSHIFT,
        Keycode::KEY_RIGHTSHIFT,
        Keycode::KEY_LEFTCTRL,
        Keycode::KEY_RIGHTCTRL,
        Keycode::KEY_LEFTALT,
        Keycode::KEY_RIGHTALT,
        Keycode::KEY_LEFTMETA,
        Keycode::KEY_RIGHTMETA,
    ] {
        assert!(k.is_modifier());
    }
    assert!(!Keycode::KEY_A.is_modifier());
    assert!(!Keycode::KEY_CAPSLOCK.is_modifier());
    assert!(!Keycode::KEY_1.is_modifier());
}
