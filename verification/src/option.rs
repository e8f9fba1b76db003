use vstd::prelude::*;

verus! {

/// A probe for an optional value, with the function that creates the value
/// when the user switches it on.
pub struct EguiProbeOption<'a, T, F> {
    pub value: &'a mut Option<T>,
    pub default_some: F,
}

/// Builds the probe of an optional value.
pub fn probe_option<'a, T, F>(value: &'a mut Option<T>, default_some: F) -> (r: EguiProbeOption<'a, T, F>)
    ensures
        *r.value == *old(value),
        *final(value) == *final(r.value),
        r.default_some == default_some,
{
    EguiProbeOption { value, default_some }
}

/// Label of the option state shown on the closed selector.
pub open spec fn selected_label(is_some: bool) -> Seq<char> {
    if is_some {
        "Enable"@
    } else {
        "Disable"@
    }
}

/// The label that the state selector shows for the current value.
pub fn option_selected_text(is_some: bool) -> (r: &'static str)
    ensures
        r@ == selected_label(is_some),
{
    if is_some {
        "Enable"
    } else {
        "Disable"
    }
}

/// The checked state after a frame of the selector.
pub open spec fn checked_after_clicks(checked: bool, disable_clicked: bool, enable_clicked: bool) -> bool {
    if enable_clicked {
        true
    } else if disable_clicked {
        false
    } else {
        checked
    }
}

/// Whether the optional value's widget reports a change.
pub open spec fn reports_change(toggled: bool, value_present: bool, probe_changed: bool) -> bool {
    toggled || (value_present && probe_changed)
}

/// A click on "Enable" always leaves the value checked and a click on
/// "Disable" alone always unchecks it; without clicks the state stays.
/// The selector reads "Enable" exactly when a value is present, and the two
/// labels differ.
pub proof fn selector_follows_clicks(checked: bool, disable_clicked: bool, enable_clicked: bool)
    ensures
        enable_clicked ==> checked_after_clicks(checked, disable_clicked, enable_clicked),
        disable_clicked && !enable_clicked ==> !checked_after_clicks(
            checked,
            disable_clicked,
            enable_clicked,
        ),
        !disable_clicked && !enable_clicked ==> checked_after_clicks(
            checked,
            disable_clicked,
            enable_clicked,
        ) == checked,
        selected_label(true) != selected_label(false),
        selected_label(true) == seq!['E', 'n', 'a', 'b', 'l', 'e'],
        selected_label(false) == seq!['D', 'i', 's', 'a', 'b', 'l', 'e'],
{
    reveal_strlit("Enable");
    reveal_strlit("Disable");
    assert("Enable"@ =~= seq!['E', 'n', 'a', 'b', 'l', 'e']);
    assert("Disable"@ =~= seq!['D', 'i', 's', 'a', 'b', 'l', 'e']);
}

/// Adding or removing the value is always a change; while no value is
/// present, only adding one is; with a value present and the selector
/// untouched, the change is the probe's.
pub proof fn changes_come_from_toggle_or_present_value(toggled: bool, value_present: bool, probe_changed: bool)
    ensures
        toggled ==> reports_change(toggled, value_present, probe_changed),
        !value_present ==> reports_change(toggled, value_present, probe_changed) == toggled,
        !toggled && value_present ==> reports_change(toggled, value_present, probe_changed)
            == probe_changed,
{
}

/// The checked state after one frame of the selector: a click on "Disable"
/// unchecks, a click on "Enable" checks, and "Enable" is handled last.
pub fn option_checked_after_clicks(checked: bool, disable_clicked: bool, enable_clicked: bool) -> (r:
    bool)
    ensures
        r == checked_after_clicks(checked, disable_clicked, enable_clicked),
{
    let mut checked = checked;
    if disable_clicked {
        checked = false;
    }
    if enable_clicked {
        checked = true;
    }
    checked
}

/// Brings the optional value in line with the checked state: a value is
/// created with `default_some` when the box is checked and none is present,
/// and removed when the box is unchecked. Returns whether the value changed.
pub fn set_option_checked<T, F: FnOnce() -> T>(value: &mut Option<T>, checked: bool, default_some: F) -> (changed: bool)
    requires
        checked && *old(value) is None ==> default_some.requires(()),
    ensures
        changed == (checked != *old(value) is Some),
        *final(value) is Some == checked,
        checked && *old(value) is Some ==> *final(value) == *old(value),
        checked && *old(value) is None ==> default_some.ensures((), final(value)->0),
{
    match (checked, value.is_some()) {
        (true, false) => {
            *value = Some(default_some());
            true
        },
        (false, true) => {
            *value = None;
            true
        },
        _ => false,
    }
}

/// Whether the optional value's widget reports a change: the selector
/// added or removed the value, or the value is present and its probe
/// changed it. The probe of the default shown while the value is absent
/// never counts.
pub fn option_changed(toggled: bool, value_present: bool, probe_changed: bool) -> (r: bool)
    ensures
        r == reports_change(toggled, value_present, probe_changed),
{
    toggled || (value_present && probe_changed)
}

} // verus!
