use resume_tui::input::{
    translate_input, translate_key, KeyCode, KeyEventKind, KeyInput, KeyModifiers,
    NavigationEvent, TermInput, ALT, CONTROL, SHIFT,
};

fn press(code: KeyCode) -> KeyInput {
    KeyInput::press(code, KeyModifiers::none())
}

fn press_with(code: KeyCode, bits: u8) -> KeyInput {
    KeyInput::press(code, KeyModifiers::from_bits(bits))
}

#[test]
fn quit_keys_quit() {
    assert_eq!(translate_key(&press(KeyCode::Char('q'))), Some(NavigationEvent::Quit));
    assert_eq!(translate_key(&press(KeyCode::Esc)), Some(NavigationEvent::Quit));
    assert_eq!(
        translate_key(&KeyInput::press(KeyCode::Char('c'), KeyModifiers::control())),
        Some(NavigationEvent::Quit)
    );
}

#[test]
fn quit_keys_ignore_modifiers() {
    for bits in [SHIFT, CONTROL, ALT, CONTROL | SHIFT] {
        assert_eq!(translate_key(&press_with(KeyCode::Char('q'), bits)), Some(NavigationEvent::Quit));
        assert_eq!(translate_key(&press_with(KeyCode::Esc, bits)), Some(NavigationEvent::Quit));
    }
}

#[test]
fn control_c_is_like_q_and_escape() {
    let ctrl_c = translate_key(&press_with(KeyCode::Char('c'), CONTROL));
    assert_eq!(ctrl_c, translate_key(&press(KeyCode::Char('q'))));
    assert_eq!(ctrl_c, translate_key(&press(KeyCode::Esc)));
}

#[test]
fn c_without_control_alone_is_ignored() {
    assert_eq!(translate_key(&press(KeyCode::Char('c'))), None);
    assert_eq!(translate_key(&press_with(KeyCode::Char('c'), CONTROL | SHIFT)), None);
    assert_eq!(translate_key(&press_with(KeyCode::Char('c'), ALT)), None);
}

#[test]
fn movement_aliases() {
    let table = [
        (KeyCode::Char('h'), NavigationEvent::Left),
        (KeyCode::Left, NavigationEvent::Left),
        (KeyCode::Char('j'), NavigationEvent::Down),
        (KeyCode::Down, NavigationEvent::Down),
        (KeyCode::Char('k'), NavigationEvent::Up),
        (KeyCode::Up, NavigationEvent::Up),
        (KeyCode::Char('l'), NavigationEvent::Right),
        (KeyCode::Right, NavigationEvent::Right),
        (KeyCode::Enter, NavigationEvent::Right),
    ];
    for (code, expected) in table {
        assert_eq!(translate_key(&press(code)), Some(expected));
    }
}

#[test]
fn movement_with_modifier_is_ignored() {
    assert_eq!(translate_key(&press_with(KeyCode::Char('j'), CONTROL)), None);
    assert_eq!(translate_key(&press_with(KeyCode::Down, SHIFT)), None);
    assert_eq!(translate_key(&press_with(KeyCode::Enter, ALT)), None);
}

#[test]
fn unmapped_keys_are_ignored() {
    for code in [
        KeyCode::Char('x'),
        KeyCode::Char('a'),
        KeyCode::Char(' '),
        KeyCode::Char('1'),
        KeyCode::Other,
    ] {
        assert_eq!(translate_key(&press(code)), None);
    }
}

#[test]
fn letters_are_case_sensitive() {
    for c in ['Q', 'H', 'J', 'K', 'L'] {
        assert_eq!(translate_key(&press(KeyCode::Char(c))), None);
        assert_eq!(translate_key(&press_with(KeyCode::Char(c), SHIFT)), None);
    }
    assert_eq!(translate_key(&press_with(KeyCode::Char('C'), CONTROL)), None);
}

#[test]
fn release_and_repeat_are_ignored() {
    for kind in [KeyEventKind::Release, KeyEventKind::Repeat] {
        for code in [KeyCode::Char('q'), KeyCode::Esc, KeyCode::Down, KeyCode::Char('l'), KeyCode::Enter] {
            let key = KeyInput { code, modifiers: KeyModifiers::none(), kind };
            assert_eq!(translate_key(&key), None);
            assert_eq!(translate_input(&TermInput::Key(key)), None);
        }
        let key = KeyInput { code: KeyCode::Char('c'), modifiers: KeyModifiers::control(), kind };
        assert_eq!(translate_key(&key), None);
    }
}

#[test]
fn non_key_input_is_ignored() {
    assert_eq!(translate_input(&TermInput::NonKey), None);
    assert_eq!(
        translate_input(&TermInput::Key(press(KeyCode::Up))),
        Some(NavigationEvent::Up)
    );
}
