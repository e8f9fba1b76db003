use egui_probe::option::{
    option_changed, option_checked_after_clicks, option_selected_text, set_option_checked,
};
use egui_probe::{probe_fn, probe_option, BooleanStyle, ProbeDefault, Style, VariantsStyle};

#[test]
fn integers_default_to_zero() {
    assert_eq!(<i8 as ProbeDefault>::probe_default(), 0);
    assert_eq!(<i16 as ProbeDefault>::probe_default(), 0);
    assert_eq!(<i32 as ProbeDefault>::probe_default(), 0);
    assert_eq!(<i64 as ProbeDefault>::probe_default(), 0);
    assert_eq!(<isize as ProbeDefault>::probe_default(), 0);
    assert_eq!(<u8 as ProbeDefault>::probe_default(), 0);
    assert_eq!(<u16 as ProbeDefault>::probe_default(), 0);
    assert_eq!(<u32 as ProbeDefault>::probe_default(), 0);
    assert_eq!(<u64 as ProbeDefault>::probe_default(), 0);
    assert_eq!(<usize as ProbeDefault>::probe_default(), 0);
}

#[test]
fn bool_defaults_to_false() {
    assert!(!<bool as ProbeDefault>::probe_default());
}

#[test]
fn option_defaults_to_some_inner_default() {
    assert_eq!(<Option<u8> as ProbeDefault>::probe_default(), Some(0));
    assert_eq!(<Option<Option<bool>> as ProbeDefault>::probe_default(), Some(Some(false)));
}

#[test]
fn style_defaults() {
    assert_eq!(BooleanStyle::default(), BooleanStyle::Checkbox);
    assert_eq!(VariantsStyle::default(), VariantsStyle::ComboBox);
    let style = Style::default();
    assert_eq!(style.boolean, BooleanStyle::Checkbox);
    assert_eq!(style.variants, VariantsStyle::ComboBox);
    assert_eq!(style.field_indent_size_bits, None);
    assert_eq!(style.add_button_text, None);
    assert_eq!(style.remove_button_text, None);
}

#[test]
fn button_texts_default_to_icons() {
    let style = Style::default();
    assert_eq!(style.add_button_text(), "\u{E3D4}");
    assert_eq!(style.remove_button_text(), "\u{E32A}");
}

#[test]
fn button_texts_use_custom_text() {
    let style = Style {
        add_button_text: Some("Add"),
        remove_button_text: Some("Remove"),
        ..Style::default()
    };
    assert_eq!(style.add_button_text(), "Add");
    assert_eq!(style.remove_button_text(), "Remove");
}

#[test]
fn probe_fn_wraps_the_function() {
    let wrapped = probe_fn(41u32);
    assert_eq!(wrapped.0, 41);
}

#[test]
fn probe_option_borrows_the_value() {
    let mut value = Some(3u8);
    {
        let probe = probe_option(&mut value, || 7u8);
        assert_eq!(*probe.value, Some(3));
        *probe.value = None;
        assert_eq!((probe.default_some)(), 7);
    }
    assert_eq!(value, None);
}

#[test]
fn selected_text_names_the_state() {
    assert_eq!(option_selected_text(true), "Enable");
    assert_eq!(option_selected_text(false), "Disable");
}

#[test]
fn clicks_set_the_checked_state() {
    assert!(option_checked_after_clicks(true, false, false));
    assert!(!option_checked_after_clicks(false, false, false));
    assert!(!option_checked_after_clicks(true, true, false));
    assert!(option_checked_after_clicks(false, false, true));
    assert!(option_checked_after_clicks(false, true, true));
}

#[test]
fn checking_creates_the_default() {
    let mut value: Option<u8> = None;
    assert!(set_option_checked(&mut value, true, || 5u8));
    assert_eq!(value, Some(5));
}

#[test]
fn unchecking_removes_the_value() {
    let mut value = Some(9u8);
    assert!(set_option_checked(&mut value, false, || 5u8));
    assert_eq!(value, None);
}

#[test]
fn unchanged_state_keeps_the_value() {
    let mut value = Some(9u8);
    assert!(!set_option_checked(&mut value, true, || 5u8));
    assert_eq!(value, Some(9));
    let mut none: Option<u8> = None;
    assert!(!set_option_checked(&mut none, false, || 5u8));
    assert_eq!(none, None);
}

#[test]
fn presence_follows_the_checked_state() {
    for start in [None, Some(1u8)] {
        for checked in [false, true] {
            let mut value = start;
            let changed = set_option_checked(&mut value, checked, || 2u8);
            assert_eq!(value.is_some(), checked);
            assert_eq!(changed, start.is_some() != checked);
        }
    }
}

#[test]
fn changes_count_when_toggled_or_probed() {
    assert!(option_changed(true, false, false));
    assert!(option_changed(true, true, false));
    assert!(option_changed(false, true, true));
    assert!(!option_changed(false, true, false));
    assert!(!option_changed(false, false, true));
}
