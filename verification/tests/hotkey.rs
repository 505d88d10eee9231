use krusty_grab::hotkey::{hotkey_in_use, Modifiers, MyHotKey};

fn none() -> Modifiers {
    Modifiers { alt: false, ctrl: false, shift: false, mac_cmd: false, command: false }
}

fn ctrl() -> Modifiers {
    Modifiers { ctrl: true, ..none() }
}

#[test]
fn enter_registers_nothing() {
    let h = MyHotKey::new(ctrl(), "Enter".to_string());
    assert_eq!(h, MyHotKey { modifier: ctrl(), key: None });
    assert_eq!(h.humanprint(), "Not registered");
    let h = MyHotKey::new(ctrl(), "S".to_string());
    assert_eq!(h, MyHotKey { modifier: ctrl(), key: Some("S".to_string()) });
}

#[test]
fn humanprint_names_one_modifier() {
    assert_eq!(MyHotKey::new(none(), "F5".to_string()).humanprint(), "F5");
    assert_eq!(MyHotKey::new(ctrl(), "S".to_string()).humanprint(), "\"CTRL\" + S");
    let alt = Modifiers { alt: true, ..none() };
    assert_eq!(MyHotKey::new(alt, "A".to_string()).humanprint(), "\"ALT\" + A");
    let cmd = Modifiers { command: true, ctrl: true, ..none() };
    assert_eq!(MyHotKey::new(cmd, "Z".to_string()).humanprint(), "\"CMD\" + Z");
    let mac = Modifiers { mac_cmd: true, alt: true, ..none() };
    assert_eq!(MyHotKey::new(mac, "Z".to_string()).humanprint(), "\"CMD\" + Z");
    let all = Modifiers { alt: true, ctrl: true, shift: true, mac_cmd: true, command: true };
    assert_eq!(MyHotKey::new(all, "Y".to_string()).humanprint(), "\"SHIFT\" + Y");
}

#[test]
fn modifier_names() {
    assert!(none().is_none());
    assert!(!ctrl().is_none());
    assert_eq!(none().name(), "");
    assert_eq!(ctrl().name(), "CTRL");
    assert_eq!(Modifiers { shift: true, ..ctrl() }.name(), "SHIFT");
    assert_eq!(Modifiers { alt: true, ..ctrl() }.name(), "CTRL");
}

#[test]
fn same_keys_compares_key_and_modifiers() {
    let a = MyHotKey::new(ctrl(), "S".to_string());
    assert!(a.same_keys(&a.clone()));
    assert!(!a.same_keys(&MyHotKey::new(ctrl(), "A".to_string())));
    assert!(!a.same_keys(&MyHotKey::new(none(), "S".to_string())));
    assert!(!a.same_keys(&MyHotKey::new(ctrl(), "Enter".to_string())));
    let unset = MyHotKey::new(ctrl(), "Enter".to_string());
    assert!(unset.same_keys(&MyHotKey { modifier: ctrl(), key: None }));
    assert!(!unset.same_keys(&MyHotKey { modifier: none(), key: None }));
}

#[test]
fn a_hotkey_in_use_is_found() {
    let taken = vec![
        MyHotKey::new(ctrl(), "S".to_string()),
        MyHotKey::new(ctrl(), "A".to_string()),
        MyHotKey::new(ctrl(), "Z".to_string()),
        MyHotKey::new(ctrl(), "Y".to_string()),
    ];
    assert!(hotkey_in_use(&taken, &MyHotKey::new(ctrl(), "Z".to_string())));
    assert!(hotkey_in_use(&taken, &MyHotKey::new(ctrl(), "S".to_string())));
    assert!(!hotkey_in_use(&taken, &MyHotKey::new(ctrl(), "X".to_string())));
    assert!(!hotkey_in_use(&taken, &MyHotKey::new(none(), "Z".to_string())));
    assert!(!hotkey_in_use(&Vec::new(), &MyHotKey::new(ctrl(), "Z".to_string())));
}
