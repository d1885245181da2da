use wl_keys::error::Error;
use wl_keys::handshake::{Handshake, Stage};
use wl_keys::keyboard::Keyboard;
use wl_keys::protocol::{Action, Event, Interface, Object};

fn global(name: u32, interface: &str, version: u32) -> Event {
    Event::Global { name, interface: interface.to_string(), version }
}

fn interface(name: &str, version: u32) -> Interface {
    Interface { name: name.to_string(), version }
}

fn synthetic() -> Handshake {
    Handshake::with_interfaces(
        interface("seat", 8),
        interface("input_method_manager", 2),
        interface("virtual_keyboard_manager", 1),
    )
}

fn synthetic_globals() -> Vec<Event> {
    vec![
        global(10, "seat", 8),
        global(11, "virtual_keyboard_manager", 1),
        global(12, "input_method_manager", 2),
    ]
}

#[test]
fn interfaces_are_those_of_the_protocol_crates() {
    assert_eq!(Object::Seat.interface(), interface("wl_seat", 11));
    assert_eq!(
        Object::InputMethodManager.interface(),
        interface("zwp_input_method_manager_v2", 1)
    );
    assert_eq!(
        Object::VirtualKeyboardManager.interface(),
        interface("zwp_virtual_keyboard_manager_v1", 1)
    );
}

#[test]
fn handshake_begins_with_the_registry() {
    let mut h = Handshake::new();
    assert_eq!(h.stage(), Stage::Connect);
    assert_eq!(h.advance(), Ok(vec![Action::GetRegistry, Action::Roundtrip]));
    assert_eq!(h.stage(), Stage::Discover);
}

#[test]
fn handshake_with_the_real_interfaces_goes_through() {
    let mut h = Handshake::new();
    h.advance().unwrap();
    h.roundtrip(&vec![
        global(1, "wl_compositor", 6),
        global(2, "wl_seat", 9),
        global(3, "zwp_input_method_manager_v2", 1),
        global(4, "zwp_virtual_keyboard_manager_v1", 1),
    ]);
    assert_eq!(
        h.advance(),
        Ok(vec![
            Action::Bind { object: Object::Seat, name: 2, version: 9 },
            Action::GetKeyboard,
            Action::Roundtrip,
        ])
    );
    assert_eq!(h.stage(), Stage::Transfer);
    h.roundtrip(&vec![Event::Keymap { format: 1, descriptor: 21, size: 65536 }]);
    assert_eq!(
        h.advance(),
        Ok(vec![
            Action::Bind { object: Object::InputMethodManager, name: 3, version: 1 },
            Action::GetInputMethod,
            Action::Bind { object: Object::VirtualKeyboardManager, name: 4, version: 1 },
            Action::CreateVirtualKeyboard,
            Action::InstallKeymap { format: 1, descriptor: 21, size: 65536 },
            Action::Roundtrip,
        ])
    );
    assert_eq!(h.stage(), Stage::Ready);
    assert_eq!(h.advance(), Ok(vec![]));
    assert_eq!(h.stage(), Stage::Ready);
    assert!(Keyboard::new(h).is_ok());
}

#[test]
fn seat_newer_than_the_client_is_refused() {
    let mut h = Handshake::new();
    h.advance().unwrap();
    h.roundtrip(&vec![global(2, "wl_seat", 12)]);
    assert_eq!(h.advance(), Err(Error::VersionUnsupported));
    assert_eq!(h.stage(), Stage::Failed(Error::VersionUnsupported));
}

#[test]
fn binds_all_three_at_their_maximum_versions() {
    let mut h = synthetic();
    h.advance().unwrap();
    h.roundtrip(&synthetic_globals());
    assert_eq!(
        h.advance(),
        Ok(vec![
            Action::Bind { object: Object::Seat, name: 10, version: 8 },
            Action::GetKeyboard,
            Action::Roundtrip,
        ])
    );
    h.roundtrip(&vec![Event::Keymap { format: 1, descriptor: 3, size: 100 }]);
    let plan = h.advance().unwrap();
    assert_eq!(plan[0], Action::Bind { object: Object::InputMethodManager, name: 12, version: 2 });
    assert_eq!(
        plan[2],
        Action::Bind { object: Object::VirtualKeyboardManager, name: 11, version: 1 }
    );
    let keyboard = Keyboard::new(h).unwrap();
    let mut names = keyboard.protocols();
    names.sort();
    assert_eq!(
        names,
        vec![
            "input_method_manager".to_string(),
            "seat".to_string(),
            "virtual_keyboard_manager".to_string(),
        ]
    );
}

#[test]
fn missing_seat_is_capability_missing() {
    let mut h = synthetic();
    h.advance().unwrap();
    h.roundtrip(&vec![global(11, "virtual_keyboard_manager", 1)]);
    assert_eq!(h.advance(), Err(Error::CapabilityMissing));
    assert_eq!(h.stage(), Stage::Failed(Error::CapabilityMissing));
}

#[test]
fn failed_handshake_stays_failed() {
    let mut h = synthetic();
    h.advance().unwrap();
    assert_eq!(h.advance(), Err(Error::CapabilityMissing));
    h.roundtrip(&synthetic_globals());
    assert_eq!(h.advance(), Err(Error::CapabilityMissing));
    assert_eq!(h.stage(), Stage::Failed(Error::CapabilityMissing));
    assert!(matches!(Keyboard::new(h), Err(Error::CapabilityMissing)));
}

#[test]
fn missing_input_method_manager_is_found_before_anything_else() {
    let mut h = synthetic();
    h.advance().unwrap();
    h.roundtrip(&vec![global(10, "seat", 8)]);
    h.advance().unwrap();
    assert_eq!(h.advance(), Err(Error::CapabilityMissing));
}

#[test]
fn virtual_keyboard_manager_too_new_is_version_unsupported() {
    let mut h = synthetic();
    h.advance().unwrap();
    h.roundtrip(&vec![
        global(10, "seat", 8),
        global(11, "virtual_keyboard_manager", 2),
        global(12, "input_method_manager", 2),
    ]);
    h.advance().unwrap();
    h.roundtrip(&vec![Event::Keymap { format: 1, descriptor: 3, size: 100 }]);
    assert_eq!(h.advance(), Err(Error::VersionUnsupported));
}

#[test]
fn input_method_manager_too_new_is_version_unsupported() {
    let mut h = synthetic();
    h.advance().unwrap();
    h.roundtrip(&vec![
        global(10, "seat", 8),
        global(11, "virtual_keyboard_manager", 1),
        global(12, "input_method_manager", 3),
    ]);
    h.advance().unwrap();
    assert_eq!(h.advance(), Err(Error::VersionUnsupported));
}

#[test]
fn no_keymap_is_keymap_missing() {
    let mut h = synthetic();
    h.advance().unwrap();
    h.roundtrip(&synthetic_globals());
    h.advance().unwrap();
    h.roundtrip(&vec![Event::Keymap { format: 0, descriptor: 3, size: 100 }]);
    assert_eq!(h.advance(), Err(Error::KeymapMissing));
    assert_eq!(h.stage(), Stage::Failed(Error::KeymapMissing));
    assert!(matches!(Keyboard::new(h), Err(Error::KeymapMissing)));
}

#[test]
fn unfinished_handshake_makes_no_keyboard() {
    assert!(matches!(Keyboard::new(synthetic()), Err(Error::KeymapMissing)));
    let mut h = synthetic();
    h.advance().unwrap();
    h.roundtrip(&synthetic_globals());
    h.advance().unwrap();
    assert!(matches!(Keyboard::new(h), Err(Error::KeymapMissing)));
}

#[test]
fn older_versions_are_bound_as_advertised() {
    let mut h = synthetic();
    h.advance().unwrap();
    h.roundtrip(&vec![
        global(10, "seat", 5),
        global(11, "virtual_keyboard_manager", 1),
        global(12, "input_method_manager", 1),
    ]);
    assert_eq!(
        h.advance().unwrap()[0],
        Action::Bind { object: Object::Seat, name: 10, version: 5 }
    );
    h.roundtrip(&vec![Event::Keymap { format: 1, descriptor: 3, size: 100 }]);
    assert_eq!(
        h.advance().unwrap()[0],
        Action::Bind { object: Object::InputMethodManager, name: 12, version: 1 }
    );
}
