use select_stream::input::{Chord, InputSimulator, Key, Modifier, Platform};

#[test]
fn copy_uses_control_on_windows_and_linux() {
    for p in [Platform::Windows, Platform::Linux] {
        let sim = InputSimulator::new(p);
        assert_eq!(
            sim.copy(),
            Chord { modifier: Some(Modifier::Control), key: Key::Char(b'c') }
        );
    }
}

#[test]
fn copy_uses_command_on_macos() {
    let sim = InputSimulator::new(Platform::MacOs);
    assert_eq!(
        sim.copy(),
        Chord { modifier: Some(Modifier::Command), key: Key::Char(b'c') }
    );
}

#[test]
fn paste_mirrors_copy_with_the_v_key() {
    let sim = InputSimulator::new(Platform::Linux);
    assert_eq!(
        sim.paste(),
        Chord { modifier: Some(Modifier::Control), key: Key::Char(b'v') }
    );
    let sim = InputSimulator::new(Platform::MacOs);
    assert_eq!(
        sim.paste(),
        Chord { modifier: Some(Modifier::Command), key: Key::Char(b'v') }
    );
}

#[test]
fn enter_has_no_modifier_anywhere() {
    for p in [Platform::Windows, Platform::MacOs, Platform::Linux] {
        let sim = InputSimulator::new(p);
        assert_eq!(sim.press_enter(), Chord { modifier: None, key: Key::Return });
    }
}
