//! What the derive decided: which probe each field gets, what is shown,
//! what a selected variant is set to, and the errors it reports.
use vstd::prelude::*;
use crate::model::{FieldKind, FieldsShape};
use crate::style::VariantsStyle;

verus! {

/// A display name: the `name = <expr>` given at that place, the item's own
/// identifier as a string literal, or the empty string literal.
#[derive(Debug, PartialEq, Eq)]
pub enum NameExpr {
    Given,
    Ident(String),
    Empty,
}

/// Where a default value comes from: the field's `new = <expr>`, or `Default::default()`.
#[derive(Clone, Copy, Debug, PartialEq, Eq, Structural)]
pub enum DefaultSource {
    Given,
    StdDefault,
}

/// The default value of a field; `wrap_some` puts it inside `Some(..)`.
#[derive(Clone, Copy, Debug, PartialEq, Eq, Structural)]
pub struct FieldDefault {
    pub source: DefaultSource,
    pub wrap_some: bool,
}

/// The probe that is built for a field's binding.
#[derive(Clone, Copy, Debug, PartialEq, Eq, Structural)]
pub enum ProbeKind {
    /// The field itself.
    Direct,
    /// `probe_option(field, || default)`, where the default is the value
    /// inside the option (not wrapped in `Some`).
    OptionWithDefault(DefaultSource),
    /// `probe_with(<expr>, field)`.
    With,
    /// `probe_as(<expr>, field)`.
    As,
    /// `probe_range(<range>, field)`.
    Range,
    /// `probe_step(<step>, field)`.
    Step,
    /// `probe_range_step(<range>, <step>, field)`.
    RangeStep,
    Multiline,
    ToggleSwitch,
    Frozen,
    Rgb,
    Rgba,
    RgbaPremultiplied,
    RgbaUnmultiplied,
}

/// The probe of the field at index `field`; the match on `self` binds that
/// field to `__<field>`. With `bookmarks`, the probe is shown beside a menu
/// of the field's bookmarked values.
#[derive(Clone, Copy, Debug, PartialEq, Eq, Structural)]
pub struct FieldProbe {
    pub field: usize,
    pub kind: ProbeKind,
    pub bookmarks: bool,
}

/// A named row of the inner records: the name and the probe of one field.
#[derive(Debug, PartialEq, Eq)]
pub struct Record {
    pub name: NameExpr,
    pub probe: FieldProbe,
}

/// One field of a constructed value: `ident: default`, or `default` for a tuple field.
#[derive(Debug, PartialEq, Eq)]
pub struct FieldInit {
    pub ident: Option<String>,
    pub default: FieldDefault,
}

/// What a constructor names: `Self`, or `Self::<variant>`.
#[derive(Debug, PartialEq, Eq)]
pub enum ConstructorPath {
    SelfType,
    Variant(String),
}

/// A value built from the defaults of all fields.
#[derive(Debug, PartialEq, Eq)]
pub struct Constructor {
    pub path: ConstructorPath,
    pub shape: FieldsShape,
    pub inits: Vec<FieldInit>,
}

/// The probe of a struct or of a variant: either its single field shown in
/// its place (`transparent`), or the rows of its fields.
#[derive(Debug, PartialEq, Eq)]
pub enum Body {
    Transparent(FieldProbe),
    Records(Vec<Record>),
}

/// How one enum variant is shown and selected.
#[derive(Debug, PartialEq, Eq)]
pub struct VariantPlan {
    pub ident: String,
    /// The label of the variant in the selector.
    pub name: NameExpr,
    pub shape: FieldsShape,
    /// The value that `self` is set to when the variant is picked.
    pub select: Constructor,
    pub body: Body,
}

/// Which selector style an enum uses: the one in `Style`, or one fixed by `tags`.
#[derive(Clone, Copy, Debug, PartialEq, Eq, Structural)]
pub enum StyleChoice {
    FromStyle,
    Fixed(VariantsStyle),
}

/// The `EguiProbe` impl of a struct or of an enum.
#[derive(Debug, PartialEq, Eq)]
pub enum ProbeImpl {
    Struct(Body),
    Enum { style: StyleChoice, variants: Vec<VariantPlan> },
}

/// Everything the derive generates for one type.
#[derive(Debug, PartialEq, Eq)]
pub struct DerivePlan {
    /// The name shown for a struct with records.
    pub title: NameExpr,
    /// Whether the `where` predicates of the type's arguments are appended to
    /// the type's own where clause.
    pub extend_where: bool,
    pub probe: ProbeImpl,
    /// The value built by the generated `New` impl, if one is generated.
    pub new_impl: Option<Constructor>,
}

/// A field argument that may not be given together with `skip`.
#[derive(Clone, Copy, Debug, PartialEq, Eq, Structural)]
pub enum ConflictAttribute {
    Bookmarks,
    New,
    Kind(FieldKind),
    Name,
}

/// The errors that the derive reports.
#[derive(Clone, Copy, Debug, PartialEq, Eq, Structural)]
pub enum DeriveError {
    /// The arguments of a field (of the given variant, for an enum) do not parse.
    FieldSyntax { variant: Option<usize>, field: usize },
    /// The arguments of the variant at that index do not parse.
    VariantSyntax(usize),
    /// A skipped field (of the given variant, for an enum) has another argument.
    SkippedFieldAttribute { variant: Option<usize>, field: usize, attribute: ConflictAttribute },
    /// `tags` given to a struct.
    TagsOnStruct,
    /// A `transparent` struct whose non-skipped fields are not exactly one.
    TransparentStruct,
    /// A `transparent` variant whose non-skipped fields are not exactly one.
    TransparentVariant(usize),
    /// `transparent` given to an enum.
    TransparentEnum,
    /// The derive was applied to a union.
    Union,
}

} // verus!
