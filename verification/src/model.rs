//! What the derive reads from the annotated type: its shape, the names it
//! needs and which `#[egui_probe(..)]` arguments are present where.
//! Expressions given in arguments are not held here: the plan refers to them
//! by the place where they were given. Arguments that do not parse are
//! marked, so that the derive reports them in its order of checks.
use vstd::prelude::*;

verus! {

/// The field argument that picks a special probe for the field.
#[derive(Clone, Copy, Debug, PartialEq, Eq, Structural)]
pub enum FieldKind {
    /// `as <expr>`
    As,
    /// `range = ..`
    Range(RangeArg),
    /// `with <expr>`
    With,
    Frozen,
    Multiline,
    Rgb,
    Rgba,
    RgbaPremultiplied,
    RgbaUnmultiplied,
    ToggleSwitch,
}

/// The forms of the `range` argument.
#[derive(Clone, Copy, Debug, PartialEq, Eq, Structural)]
pub enum RangeArg {
    /// `range = <range>`
    Range,
    /// `range = by <step>`
    Step,
    /// `range = <range> by <step>`
    RangeStep,
}

/// The arguments given to a field.
#[derive(Clone, Copy, Debug, PartialEq, Eq, Structural)]
pub struct FieldAttributes {
    /// `bookmarks = [..]`
    pub bookmarks: bool,
    pub kind: Option<FieldKind>,
    /// `name = <expr>`
    pub name: bool,
    /// `new = <expr>`
    pub new: bool,
    pub skip: bool,
}

/// A field of a struct or of an enum variant.
#[derive(Debug)]
pub struct Field {
    /// The field's name; `None` for a tuple field.
    pub ident: Option<String>,
    /// The last path segment of the field's type, when the type is a path.
    pub ty_last_segment: Option<String>,
    /// The field's `#[egui_probe(..)]` arguments did not parse; `attributes`
    /// is then all absent.
    pub unparsed: bool,
    pub attributes: FieldAttributes,
}

/// The three forms of a struct body or a variant.
#[derive(Clone, Copy, Debug, PartialEq, Eq, Structural)]
pub enum FieldsShape {
    Unit,
    Unnamed,
    Named,
}

#[derive(Debug)]
pub struct Fields {
    pub shape: FieldsShape,
    pub fields: Vec<Field>,
}

/// The arguments given to an enum variant.
#[derive(Clone, Copy, Debug, PartialEq, Eq, Structural)]
pub struct VariantAttributes {
    pub name: bool,
    pub new: bool,
    pub transparent: bool,
}

#[derive(Debug)]
pub struct Variant {
    pub ident: String,
    /// The variant's `#[egui_probe(..)]` arguments did not parse;
    /// `attributes` is then all absent.
    pub unparsed: bool,
    pub attributes: VariantAttributes,
    pub fields: Fields,
}

/// `tags combobox` or `tags inlined`.
#[derive(Clone, Copy, Debug, PartialEq, Eq, Structural)]
pub enum TagsKind {
    ComboBox,
    Inlined,
}

/// The arguments given to the type itself.
#[derive(Clone, Copy, Debug, PartialEq, Eq, Structural)]
pub struct TypeAttributes {
    pub name: bool,
    pub new: bool,
    pub tags: Option<TagsKind>,
    pub transparent: bool,
    /// `where <predicates>`
    pub where_clause: bool,
}

#[derive(Debug)]
pub enum Data {
    Struct(Fields),
    Enum(Vec<Variant>),
    Union,
}

/// The type that the derive is applied to.
#[derive(Debug)]
pub struct DeriveInput {
    pub ident: String,
    pub attributes: TypeAttributes,
    pub data: Data,
}

} // verus!
