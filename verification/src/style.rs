use vstd::prelude::*;

verus! {

/// How a `bool` is shown.
#[derive(Clone, Copy, Debug, PartialEq, Eq, Structural)]
pub enum BooleanStyle {
    Checkbox,
    ToggleSwitch,
}

impl Default for BooleanStyle {
    fn default() -> (r: Self)
        ensures
            r == BooleanStyle::Checkbox,
    {
        BooleanStyle::Checkbox
    }
}

/// How the variants of an enum are offered for selection.
#[derive(Clone, Copy, Debug, PartialEq, Eq, Structural)]
pub enum VariantsStyle {
    Inlined,
    ComboBox,
}

impl Default for VariantsStyle {
    fn default() -> (r: Self)
        ensures
            r == VariantsStyle::ComboBox,
    {
        VariantsStyle::ComboBox
    }
}

/// Controls the style of probing UI.
///
/// `field_indent_size_bits` holds the bit pattern of the `f32` indent used for
/// nested fields (`f32::to_bits`), or `None` for the default indent.
#[derive(Clone, Copy, Debug)]
pub struct Style {
    pub boolean: BooleanStyle,
    pub variants: VariantsStyle,
    pub field_indent_size_bits: Option<u32>,
    pub add_button_text: Option<&'static str>,
    pub remove_button_text: Option<&'static str>,
}

impl Default for Style {
    fn default() -> (r: Self)
        ensures
            r.boolean == BooleanStyle::Checkbox,
            r.variants == VariantsStyle::ComboBox,
            r.field_indent_size_bits is None,
            r.add_button_text is None,
            r.remove_button_text is None,
    {
        Style {
            boolean: BooleanStyle::default(),
            variants: VariantsStyle::default(),
            field_indent_size_bits: None,
            add_button_text: None,
            remove_button_text: None,
        }
    }
}

/// The text of the Phosphor "plus" icon: the single code point U+E3D4.
pub open spec fn plus_icon() -> Seq<char> {
    seq!['\u{E3D4}']
}

/// The text of the Phosphor "minus" icon: the single code point U+E32A.
pub open spec fn minus_icon() -> Seq<char> {
    seq!['\u{E32A}']
}

/// The text of an add or remove button: the custom text if one is set, else the icon.
pub open spec fn button_text(custom: Option<&'static str>, icon: Seq<char>) -> Seq<char> {
    match custom {
        Some(text) => text@,
        None => icon,
    }
}

/// A custom button text is shown as given, whatever the icon; without one
/// the icon is shown. The add and remove icons are different single glyphs.
pub proof fn custom_text_wins(text: &'static str, icon: Seq<char>)
    ensures
        button_text(Some(text), icon) == text@,
        button_text(None, icon) == icon,
        plus_icon() != minus_icon(),
        plus_icon().len() == 1 && minus_icon().len() == 1,
{
    assert(plus_icon()[0] != minus_icon()[0]);
}

/// Reads `egui_phosphor::regular::PLUS`, a string constant that the crate's
/// source defines as `"\u{E3D4}"`; the contract states that value.
#[verifier::external_body]
fn phosphor_plus() -> (s: &'static str)
    ensures
        s@ == plus_icon(),
{
    egui_phosphor::regular::PLUS
}

/// Reads `egui_phosphor::regular::MINUS`, a string constant that the crate's
/// source defines as `"\u{E32A}"`; the contract states that value.
#[verifier::external_body]
fn phosphor_minus() -> (s: &'static str)
    ensures
        s@ == minus_icon(),
{
    egui_phosphor::regular::MINUS
}

impl Style {
    /// Text of the button that adds an item.
    pub fn add_button_text(&self) -> (r: String)
        ensures
            r@ == button_text(self.add_button_text, plus_icon()),
    {
        let text = match self.add_button_text {
            Some(text) => text,
            None => phosphor_plus(),
        };
        text.to_owned()
    }

    /// Text of the button that removes an item.
    pub fn remove_button_text(&self) -> (r: String)
        ensures
            r@ == button_text(self.remove_button_text, minus_icon()),
    {
        let text = match self.remove_button_text {
            Some(text) => text,
            None => phosphor_minus(),
        };
        text.to_owned()
    }
}

} // verus!
