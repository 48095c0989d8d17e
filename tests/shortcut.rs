use pot::shortcut::ShortcutDispatcher;

#[test]
fn switching_leaves_only_the_new_shortcut() {
    let mut d = ShortcutDispatcher::new();
    assert_eq!(d.register_translate_shortcut("Ctrl+Alt+T".to_string(), Ok(())), Ok(()));
    assert_eq!(d.register_translate_shortcut("Ctrl+Alt+Y".to_string(), Ok(())), Ok(()));
    assert_eq!(d.active(), Some(&"Ctrl+Alt+Y".to_string()));
    assert!(d.triggers("Ctrl+Alt+Y"));
    assert!(!d.triggers("Ctrl+Alt+T"));
}

#[test]
fn failed_switch_leaves_no_shortcut() {
    let mut d = ShortcutDispatcher::new();
    assert_eq!(d.register_translate_shortcut("Ctrl+Alt+T".to_string(), Ok(())), Ok(()));
    let r = d.register_translate_shortcut("Ctrl+Alt+Y".to_string(), Err("taken".to_string()));
    assert_eq!(r, Err("taken".to_string()));
    assert_eq!(d.active(), None);
    assert!(!d.triggers("Ctrl+Alt+T"));
    assert!(!d.triggers("Ctrl+Alt+Y"));
}

#[test]
fn new_dispatcher_has_no_shortcut() {
    let d = ShortcutDispatcher::new();
    assert_eq!(d.active(), None);
    assert!(!d.triggers("Ctrl+Alt+T"));
}
