use tisq::keys::{key_modifiers_to_string, parse_key_modifiers, KeyModifiers};

fn modifiers(control: bool, alt: bool, shift: bool) -> KeyModifiers {
    KeyModifiers { control, alt, shift }
}

#[test]
fn modifiers_are_written_in_a_fixed_order() {
    assert_eq!(key_modifiers_to_string(&modifiers(false, false, false)), "");
    assert_eq!(key_modifiers_to_string(&modifiers(true, false, false)), "Ctrl");
    assert_eq!(key_modifiers_to_string(&modifiers(false, true, false)), "Alt");
    assert_eq!(key_modifiers_to_string(&modifiers(false, false, true)), "Shift");
    assert_eq!(key_modifiers_to_string(&modifiers(true, true, false)), "Ctrl+Alt");
    assert_eq!(key_modifiers_to_string(&modifiers(true, false, true)), "Ctrl+Shift");
    assert_eq!(key_modifiers_to_string(&modifiers(false, true, true)), "Alt+Shift");
    assert_eq!(key_modifiers_to_string(&modifiers(true, true, true)), "Ctrl+Alt+Shift");
}

#[test]
fn modifiers_read_back() {
    for control in vec![false, true] {
        for alt in vec![false, true] {
            for shift in vec![false, true] {
                let held = modifiers(control, alt, shift);
                assert_eq!(parse_key_modifiers(&key_modifiers_to_string(&held)), Ok(held));
            }
        }
    }
}

#[test]
fn modifiers_are_read_in_any_order_and_number() {
    assert_eq!(parse_key_modifiers("Shift+Ctrl"), Ok(modifiers(true, false, true)));
    assert_eq!(parse_key_modifiers("Alt+Alt"), Ok(modifiers(false, true, false)));
    assert_eq!(parse_key_modifiers("+Ctrl++Alt+"), Ok(modifiers(true, true, false)));
    assert_eq!(parse_key_modifiers("+"), Ok(modifiers(false, false, false)));
    assert_eq!(parse_key_modifiers(""), Ok(modifiers(false, false, false)));
}

#[test]
fn unknown_modifier_is_refused_by_name() {
    assert_eq!(parse_key_modifiers("Meta"), Err("Unknown key modifier: Meta".to_string()));
    assert_eq!(parse_key_modifiers("ctrl"), Err("Unknown key modifier: ctrl".to_string()));
    assert_eq!(
        parse_key_modifiers("Ctrl+Super+Hyper"),
        Err("Unknown key modifier: Super".to_string())
    );
    assert_eq!(parse_key_modifiers("Ctrl+ Alt"), Err("Unknown key modifier:  Alt".to_string()));
}
