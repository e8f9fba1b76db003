//! The decisions of the `EguiProbe` derive, from the model of the annotated
//! type to the plan of the generated impls.
use vstd::prelude::*;
use crate::model::{
    Data, DeriveInput, Field, FieldAttributes, FieldKind, Fields, FieldsShape, RangeArg, TagsKind,
    TypeAttributes, Variant,
};
use crate::plan::{
    Body, ConflictAttribute, Constructor, ConstructorPath, DefaultSource, DeriveError, DerivePlan,
    FieldDefault, FieldInit, FieldProbe, NameExpr, ProbeImpl, ProbeKind, Record, StyleChoice,
    VariantPlan,
};
use crate::style::VariantsStyle;

verus! {

// ---------------------------------------------------------------------------
// Specification
// ---------------------------------------------------------------------------

/// The first index below `n` at which `p` holds.
pub open spec fn first_where<A>(s: Seq<A>, n: nat, p: spec_fn(int, A) -> bool) -> Option<int>
    decreases n,
{
    if n == 0 {
        None
    } else {
        match first_where(s, (n - 1) as nat, p) {
            Some(i) => Some(i),
            None => if p(n - 1, s[n - 1]) {
                Some(n - 1)
            } else {
                None
            },
        }
    }
}

/// A type whose last path segment is `Option`.
pub open spec fn is_option_type(ty: Option<String>) -> bool {
    ty matches Some(segment) && segment@ == "Option"@
}

/// The argument that a skipped field may not have: the first present of
/// `bookmarks`, `new`, the kind argument and `name`.
pub open spec fn conflict_of(a: FieldAttributes) -> Option<ConflictAttribute> {
    if !a.skip {
        None
    } else if a.bookmarks {
        Some(ConflictAttribute::Bookmarks)
    } else if a.new {
        Some(ConflictAttribute::New)
    } else if a.kind is Some {
        Some(ConflictAttribute::Kind(a.kind->0))
    } else if a.name {
        Some(ConflictAttribute::Name)
    } else {
        None
    }
}

/// The error of a single field: arguments that do not parse, or a skipped
/// field with another argument.
pub open spec fn field_error(variant: Option<usize>, idx: int, f: Field) -> Option<DeriveError> {
    if f.unparsed {
        Some(DeriveError::FieldSyntax { variant, field: idx as usize })
    } else {
        match conflict_of(f.attributes) {
            Some(c) => Some(
                DeriveError::SkippedFieldAttribute { variant, field: idx as usize, attribute: c },
            ),
            None => None,
        }
    }
}

pub open spec fn fails_check() -> spec_fn(int, Field) -> bool {
    |i: int, f: Field| f.unparsed || conflict_of(f.attributes) is Some
}

/// The error of the first field that fails its checks, in field order.
pub open spec fn fields_error(variant: Option<usize>, fields: Seq<Field>) -> Option<DeriveError> {
    match first_where(fields, fields.len(), fails_check()) {
        Some(i) => field_error(variant, i, fields[i]),
        None => None,
    }
}

/// The displayed name: the given `name`, else the identifier, else empty.
pub open spec fn name_expr(given: bool, ident: Option<String>) -> NameExpr {
    if given {
        NameExpr::Given
    } else {
        match ident {
            Some(ident) => NameExpr::Ident(ident),
            None => NameExpr::Empty,
        }
    }
}

/// The default of a field: its `new` value, or `Default::default()`, put in
/// `Some(..)` when the field's type is an `Option`.
pub open spec fn field_default_of(f: Field) -> FieldDefault {
    FieldDefault {
        source: if f.attributes.new {
            DefaultSource::Given
        } else {
            DefaultSource::StdDefault
        },
        wrap_some: is_option_type(f.ty_last_segment),
    }
}

pub open spec fn field_init_of(f: Field) -> FieldInit {
    FieldInit { ident: f.ident, default: field_default_of(f) }
}

/// The probe kind of a field, picked by its kind argument; without one, an
/// `Option` field gets an option probe that creates its default.
pub open spec fn probe_kind_of(f: Field) -> ProbeKind {
    match f.attributes.kind {
        None => if is_option_type(f.ty_last_segment) {
            ProbeKind::OptionWithDefault(field_default_of(f).source)
        } else {
            ProbeKind::Direct
        },
        Some(FieldKind::With) => ProbeKind::With,
        Some(FieldKind::As) => ProbeKind::As,
        Some(FieldKind::Range(RangeArg::Range)) => ProbeKind::Range,
        Some(FieldKind::Range(RangeArg::Step)) => ProbeKind::Step,
        Some(FieldKind::Range(RangeArg::RangeStep)) => ProbeKind::RangeStep,
        Some(FieldKind::Multiline) => ProbeKind::Multiline,
        Some(FieldKind::ToggleSwitch) => ProbeKind::ToggleSwitch,
        Some(FieldKind::Frozen) => ProbeKind::Frozen,
        Some(FieldKind::Rgb) => ProbeKind::Rgb,
        Some(FieldKind::Rgba) => ProbeKind::Rgba,
        Some(FieldKind::RgbaPremultiplied) => ProbeKind::RgbaPremultiplied,
        Some(FieldKind::RgbaUnmultiplied) => ProbeKind::RgbaUnmultiplied,
    }
}

pub open spec fn field_probe_of(idx: int, f: Field) -> FieldProbe {
    FieldProbe { field: idx as usize, kind: probe_kind_of(f), bookmarks: f.attributes.bookmarks }
}

pub open spec fn record_of(idx: int, f: Field) -> Record {
    Record { name: name_expr(f.attributes.name, f.ident), probe: field_probe_of(idx, f) }
}

/// The records of the first `n` fields: one per non-skipped field, in order.
pub open spec fn records_upto(fields: Seq<Field>, n: nat) -> Seq<Record>
    decreases n,
{
    if n == 0 {
        seq![]
    } else {
        let prev = records_upto(fields, (n - 1) as nat);
        if fields[n - 1].attributes.skip {
            prev
        } else {
            prev.push(record_of(n - 1, fields[n - 1]))
        }
    }
}

pub open spec fn records_of(fields: Seq<Field>) -> Seq<Record> {
    records_upto(fields, fields.len())
}

/// The probe of a struct or variant body.
pub open spec fn body_for(fields: Seq<Field>, transparent: bool, body: Body) -> bool {
    if transparent {
        body == Body::Transparent(records_of(fields)[0].probe)
    } else {
        body matches Body::Records(records) && records@ == records_of(fields)
    }
}

/// A value built from the defaults of all fields, in order.
pub open spec fn constructor_for(path: ConstructorPath, fields: Fields, c: Constructor) -> bool {
    &&& c.path == path
    &&& c.shape == fields.shape
    &&& c.inits@ == fields.fields@.map_values(|f: Field| field_init_of(f))
}

/// The error of a variant: a conflicting field, or for a `transparent`
/// variant a count of non-skipped fields other than one.
pub open spec fn variant_error(idx: int, v: Variant) -> Option<DeriveError> {
    match fields_error(Some(idx as usize), v.fields.fields@) {
        Some(e) => Some(e),
        None => if v.attributes.transparent && records_of(v.fields.fields@).len() != 1 {
            Some(DeriveError::TransparentVariant(idx as usize))
        } else {
            None
        },
    }
}

/// Holds of the variants that are checked in a pass (the transparent ones,
/// or the others) and that have an error.
pub open spec fn fails_in_pass(transparent: bool) -> spec_fn(int, Variant) -> bool {
    |i: int, v: Variant| v.attributes.transparent == transparent && variant_error(i, v) is Some
}

/// The error of the first variant that fails in the pass.
pub open spec fn pass_error(variants: Seq<Variant>, transparent: bool) -> Option<DeriveError> {
    match first_where(variants, variants.len(), fails_in_pass(transparent)) {
        Some(i) => variant_error(i, variants[i]),
        None => None,
    }
}

pub open spec fn struct_error(attrs: TypeAttributes, fields: Seq<Field>) -> Option<DeriveError> {
    if attrs.tags is Some {
        Some(DeriveError::TagsOnStruct)
    } else {
        match fields_error(None, fields) {
            Some(e) => Some(e),
            None => if attrs.transparent && records_of(fields).len() != 1 {
                Some(DeriveError::TransparentStruct)
            } else {
                None
            },
        }
    }
}

pub open spec fn variant_unparsed() -> spec_fn(int, Variant) -> bool {
    |i: int, v: Variant| v.unparsed
}

pub open spec fn field_unparsed() -> spec_fn(int, Field) -> bool {
    |i: int, f: Field| f.unparsed
}

/// The first field whose arguments do not parse.
pub open spec fn first_unparsed_field(fields: Seq<Field>) -> Option<int> {
    first_where(fields, fields.len(), field_unparsed())
}

pub open spec fn has_unparsed_field() -> spec_fn(int, Variant) -> bool {
    |i: int, v: Variant| first_unparsed_field(v.fields.fields@) is Some
}

/// The checks of an enum, in order: `transparent` on the enum; the arguments
/// of each variant; the arguments of the fields of each variant; then the
/// transparent variants, then the others.
pub open spec fn enum_error(attrs: TypeAttributes, variants: Seq<Variant>) -> Option<DeriveError> {
    if attrs.transparent {
        Some(DeriveError::TransparentEnum)
    } else if let Some(i) = first_where(variants, variants.len(), variant_unparsed()) {
        Some(DeriveError::VariantSyntax(i as usize))
    } else if let Some(i) = first_where(variants, variants.len(), has_unparsed_field()) {
        Some(
            DeriveError::FieldSyntax {
                variant: Some(i as usize),
                field: first_unparsed_field(variants[i].fields.fields@)->0 as usize,
            },
        )
    } else {
        match pass_error(variants, true) {
            Some(e) => Some(e),
            None => pass_error(variants, false),
        }
    }
}

/// The error that the derive reports for the input, if any.
pub open spec fn derive_error(input: DeriveInput) -> Option<DeriveError> {
    match input.data {
        Data::Struct(fields) => struct_error(input.attributes, fields.fields@),
        Data::Enum(variants) => enum_error(input.attributes, variants@),
        Data::Union => Some(DeriveError::Union),
    }
}

pub open spec fn style_choice(tags: Option<TagsKind>) -> StyleChoice {
    match tags {
        None => StyleChoice::FromStyle,
        Some(TagsKind::Inlined) => StyleChoice::Fixed(VariantsStyle::Inlined),
        Some(TagsKind::ComboBox) => StyleChoice::Fixed(VariantsStyle::ComboBox),
    }
}

/// The plan of one variant.
pub open spec fn variant_plan_for(idx: int, v: Variant, plan: VariantPlan) -> bool {
    &&& plan.ident == v.ident
    &&& plan.name == name_expr(v.attributes.name, Some(v.ident))
    &&& plan.shape == v.fields.shape
    &&& constructor_for(ConstructorPath::Variant(v.ident), v.fields, plan.select)
    &&& body_for(v.fields.fields@, v.attributes.transparent, plan.body)
}

pub open spec fn is_new_variant() -> spec_fn(int, Variant) -> bool {
    |i: int, v: Variant| v.attributes.new
}

/// The `New` impl of an enum builds its first variant marked `new`; a unit
/// variant is built as `Self`.
pub open spec fn enum_new_for(attrs: TypeAttributes, variants: Seq<Variant>, new_impl: Option<Constructor>) -> bool {
    match first_where(variants, variants.len(), is_new_variant()) {
        Some(i) if attrs.new => new_impl matches Some(c) && constructor_for(
            if variants[i].fields.shape == FieldsShape::Unit {
                ConstructorPath::SelfType
            } else {
                ConstructorPath::Variant(variants[i].ident)
            },
            variants[i].fields,
            c,
        ),
        _ => new_impl is None,
    }
}

/// The plan that the derive builds for an input that it accepts.
pub open spec fn plan_for(input: DeriveInput, plan: DerivePlan) -> bool {
    &&& plan.title == name_expr(input.attributes.name, Some(input.ident))
    &&& plan.extend_where == input.attributes.where_clause
    &&& match input.data {
        Data::Struct(fields) => {
            &&& plan.probe matches ProbeImpl::Struct(body) && body_for(
                fields.fields@,
                input.attributes.transparent,
                body,
            )
            &&& if input.attributes.new {
                plan.new_impl matches Some(c) && constructor_for(ConstructorPath::SelfType, fields, c)
            } else {
                plan.new_impl is None
            }
        },
        Data::Enum(variants) => {
            &&& plan.probe matches ProbeImpl::Enum { style, variants: plans } && {
                &&& style == style_choice(input.attributes.tags)
                &&& plans@.len() == variants@.len()
                &&& forall|i: int|
                    0 <= i < variants@.len() ==> #[trigger] variant_plan_for(i, variants@[i], plans@[i])
            }
            &&& enum_new_for(input.attributes, variants@, plan.new_impl)
        },
        Data::Union => false,
    }
}

/// The message of an error; `attribute` is how the conflicting argument of
/// a skipped field is displayed, or for arguments that do not parse the
/// parser's message.
pub open spec fn error_message(e: DeriveError, attribute: Seq<char>) -> Seq<char> {
    match e {
        DeriveError::SkippedFieldAttribute { .. } => "Cannot use "@ + attribute
            + " attribute for skipped field"@,
        DeriveError::FieldSyntax { .. } => attribute,
        DeriveError::VariantSyntax(_) => attribute,
        DeriveError::TagsOnStruct => "Tags may be specified only for enums"@,
        DeriveError::TransparentStruct => "Transparent struct must have exactly one non-skipped field"@,
        DeriveError::TransparentVariant(_) => "Transparent variant must have exactly one non-skipped field"@,
        DeriveError::TransparentEnum => "Transparent may be specified only for structs or enum variants with exactly one non-skipped field"@,
        DeriveError::Union => "EguiProbe can only be derived for structs and enums"@,
    }
}

// ---------------------------------------------------------------------------
// Lemmas
// ---------------------------------------------------------------------------

proof fn lemma_first_where_stable<A>(s: Seq<A>, p: spec_fn(int, A) -> bool, m: nat, n: nat)
    requires
        m <= n,
        first_where(s, m, p) is Some,
    ensures
        first_where(s, n, p) == first_where(s, m, p),
    decreases n,
{
    if n > m {
        lemma_first_where_stable(s, p, m, (n - 1) as nat);
    }
}

proof fn lemma_first_where_none<A>(s: Seq<A>, p: spec_fn(int, A) -> bool, n: nat)
    requires
        first_where(s, n, p) is None,
    ensures
        forall|i: int| 0 <= i < n ==> !p(i, #[trigger] s[i]),
    decreases n,
{
    if n > 0 {
        lemma_first_where_none(s, p, (n - 1) as nat);
    }
}

proof fn lemma_first_where_some<A>(s: Seq<A>, p: spec_fn(int, A) -> bool, n: nat)
    requires
        first_where(s, n, p) is Some,
    ensures
        0 <= first_where(s, n, p)->0 < n,
        p(first_where(s, n, p)->0, s[first_where(s, n, p)->0]),
        forall|j: int| 0 <= j < first_where(s, n, p)->0 ==> !p(j, #[trigger] s[j]),
    decreases n,
{
    if n > 0 {
        if first_where(s, (n - 1) as nat, p) is Some {
            lemma_first_where_some(s, p, (n - 1) as nat);
        } else {
            lemma_first_where_none(s, p, (n - 1) as nat);
        }
    }
}

/// A record of the first `n` fields belongs to a non-skipped field below `n`.
pub open spec fn record_is_sound(fields: Seq<Field>, n: nat, r: Record) -> bool {
    let j = r.probe.field as int;
    &&& 0 <= j < n
    &&& !fields[j].attributes.skip
    &&& r == record_of(j, fields[j])
}

proof fn lemma_records_sound(fields: Seq<Field>, n: nat)
    requires
        n <= fields.len() <= usize::MAX,
    ensures
        forall|k: int|
            0 <= k < records_upto(fields, n).len() ==> record_is_sound(
                fields,
                n,
                #[trigger] records_upto(fields, n)[k],
            ),
    decreases n,
{
    if n > 0 {
        let m = (n - 1) as nat;
        lemma_records_sound(fields, m);
        let prev = records_upto(fields, m);
        let cur = records_upto(fields, n);
        assert forall|k: int| 0 <= k < cur.len() implies record_is_sound(fields, n, #[trigger] cur[k]) by {
            if k < prev.len() {
                assert(cur[k] == prev[k]);
                assert(record_is_sound(fields, m, prev[k]));
            }
        }
    }
}

proof fn lemma_records_ordered(fields: Seq<Field>, n: nat)
    requires
        n <= fields.len() <= usize::MAX,
    ensures
        forall|k1: int, k2: int|
            0 <= k1 < k2 < records_upto(fields, n).len() ==> (#[trigger] records_upto(fields, n)[k1]).probe.field
                < (#[trigger] records_upto(fields, n)[k2]).probe.field,
    decreases n,
{
    if n > 0 {
        let m = (n - 1) as nat;
        lemma_records_ordered(fields, m);
        lemma_records_sound(fields, m);
        let prev = records_upto(fields, m);
        let cur = records_upto(fields, n);
        assert forall|k1: int, k2: int| 0 <= k1 < k2 < cur.len() implies (#[trigger] cur[k1]).probe.field
            < (#[trigger] cur[k2]).probe.field by {
            assert(cur[k1] == prev[k1]);
            assert(record_is_sound(fields, m, prev[k1]));
            if k2 < prev.len() {
                assert(cur[k2] == prev[k2]);
            }
        }
    }
}

proof fn lemma_records_complete(fields: Seq<Field>, n: nat)
    requires
        n <= fields.len() <= usize::MAX,
    ensures
        forall|j: int|
            0 <= j < n && !(#[trigger] fields[j]).attributes.skip ==> exists|k: int|
                0 <= k < records_upto(fields, n).len() && (#[trigger] records_upto(fields, n)[k]).probe.field
                    == j,
    decreases n,
{
    if n > 0 {
        let m = (n - 1) as nat;
        lemma_records_complete(fields, m);
        let prev = records_upto(fields, m);
        let cur = records_upto(fields, n);
        assert forall|j: int|
            0 <= j < n && !(#[trigger] fields[j]).attributes.skip implies exists|k: int|
                0 <= k < cur.len() && (#[trigger] cur[k]).probe.field == j by {
            if j < m {
                let k = choose|k: int| 0 <= k < prev.len() && (#[trigger] prev[k]).probe.field == j;
                assert(cur[k] == prev[k]);
            } else {
                assert(cur[prev.len() as int].probe.field == j);
            }
        }
    }
}

// ---------------------------------------------------------------------------
// Laws
// ---------------------------------------------------------------------------

/// The records of a list of fields are exactly its non-skipped fields, in
/// order: each record names and probes a non-skipped field, records follow
/// the order of the fields, and every non-skipped field has a record.
pub proof fn records_are_the_unskipped_fields(fields: Seq<Field>)
    requires
        fields.len() <= usize::MAX,
    ensures
        forall|k: int|
            0 <= k < records_of(fields).len() ==> record_is_sound(
                fields,
                fields.len(),
                #[trigger] records_of(fields)[k],
            ),
        forall|k1: int, k2: int|
            0 <= k1 < k2 < records_of(fields).len() ==> (#[trigger] records_of(fields)[k1]).probe.field
                < (#[trigger] records_of(fields)[k2]).probe.field,
        forall|j: int|
            0 <= j < fields.len() && !(#[trigger] fields[j]).attributes.skip ==> exists|k: int|
                0 <= k < records_of(fields).len() && (#[trigger] records_of(fields)[k]).probe.field
                    == j,
{
    lemma_records_sound(fields, fields.len());
    lemma_records_ordered(fields, fields.len());
    lemma_records_complete(fields, fields.len());
}

proof fn lemma_no_conflict(variant: Option<usize>, fields: Seq<Field>)
    requires
        fields_error(variant, fields) is None,
    ensures
        forall|j: int|
            0 <= j < fields.len() ==> !(#[trigger] fields[j]).unparsed && conflict_of(
                fields[j].attributes,
            ) is None,
{
    if first_where(fields, fields.len(), fails_check()) is Some {
        lemma_first_where_some(fields, fails_check(), fields.len());
    }
    lemma_first_where_none(fields, fails_check(), fields.len());
    assert forall|j: int| 0 <= j < fields.len() implies !(#[trigger] fields[j]).unparsed
        && conflict_of(fields[j].attributes) is None by {
        assert(!fails_check()(j, fields[j]));
    }
}

proof fn lemma_pass_clean(variants: Seq<Variant>, transparent: bool)
    requires
        pass_error(variants, transparent) is None,
    ensures
        forall|i: int|
            0 <= i < variants.len() && (#[trigger] variants[i]).attributes.transparent == transparent
                ==> variant_error(i, variants[i]) is None,
{
    let p = fails_in_pass(transparent);
    if first_where(variants, variants.len(), p) is Some {
        lemma_first_where_some(variants, p, variants.len());
    }
    lemma_first_where_none(variants, p, variants.len());
    assert forall|i: int|
        0 <= i < variants.len() && (#[trigger] variants[i]).attributes.transparent == transparent
            implies variant_error(i, variants[i]) is None by {
        assert(!p(i, variants[i]));
    }
}

/// A skipped field may carry no other argument, and every argument parses:
/// when the derive accepts a type, each of its fields (or of its variants'
/// fields) parsed, and none is skipped together with `bookmarks`, `new`, a
/// kind argument or `name`.
pub proof fn accepted_types_skip_only_bare_fields(input: DeriveInput)
    requires
        derive_error(input) is None,
    ensures
        input.data matches Data::Struct(fields) ==> forall|j: int|
            0 <= j < fields.fields@.len() ==> !(#[trigger] fields.fields@[j]).unparsed && conflict_of(
                fields.fields@[j].attributes,
            ) is None,
        input.data matches Data::Enum(variants) ==> forall|i: int|
            0 <= i < variants@.len() ==> !(#[trigger] variants@[i]).unparsed,
        input.data matches Data::Enum(variants) ==> forall|i: int, j: int|
            0 <= i < variants@.len() && 0 <= j < variants@[i].fields.fields@.len() ==> !(
            #[trigger] variants@[i].fields.fields@[j]).unparsed && conflict_of(
                variants@[i].fields.fields@[j].attributes,
            ) is None,
{
    match input.data {
        Data::Struct(fields) => {
            lemma_no_conflict(None, fields.fields@);
        },
        Data::Enum(variants) => {
            let vs = variants@;
            lemma_first_where_none(vs, variant_unparsed(), vs.len());
            assert forall|i: int| 0 <= i < vs.len() implies !(#[trigger] vs[i]).unparsed by {
                assert(!variant_unparsed()(i, vs[i]));
            }
            lemma_pass_clean(vs, true);
            lemma_pass_clean(vs, false);
            assert forall|i: int, j: int|
                0 <= i < vs.len() && 0 <= j < vs[i].fields.fields@.len() implies !(
                #[trigger] vs[i].fields.fields@[j]).unparsed && conflict_of(
                    vs[i].fields.fields@[j].attributes,
                ) is None by {
                assert(variant_error(i, vs[i]) is None);
                lemma_no_conflict(Some(i as usize), vs[i].fields.fields@);
            }
        },
        Data::Union => {},
    }
}

/// Field `j` is the only non-skipped field.
pub open spec fn only_unskipped(fields: Seq<Field>, j: int) -> bool {
    &&& 0 <= j < fields.len()
    &&& !fields[j].attributes.skip
    &&& forall|j2: int| 0 <= j2 < fields.len() && !(#[trigger] fields[j2]).attributes.skip ==> j2 == j
}

proof fn lemma_single_record(fields: Seq<Field>)
    requires
        fields.len() <= usize::MAX,
    ensures
        records_of(fields).len() == 1 ==> only_unskipped(fields, records_of(fields)[0].probe.field as int),
        records_of(fields).len() != 1 ==> forall|j: int| !only_unskipped(fields, j),
{
    records_are_the_unskipped_fields(fields);
    let records = records_of(fields);
    if records.len() == 1 {
        assert(record_is_sound(fields, fields.len(), records[0]));
        let j0 = records[0].probe.field as int;
        assert forall|j2: int|
            0 <= j2 < fields.len() && !(#[trigger] fields[j2]).attributes.skip implies j2 == j0 by {
            let k = choose|k: int| 0 <= k < records.len() && (#[trigger] records[k]).probe.field == j2;
            assert(k == 0);
        }
    } else {
        assert forall|j: int| !only_unskipped(fields, j) by {
            if only_unskipped(fields, j) {
                let k = choose|k: int| 0 <= k < records.len() && (#[trigger] records[k]).probe.field == j;
                assert(records.len() >= 2);
                assert(record_is_sound(fields, fields.len(), records[0]));
                assert(record_is_sound(fields, fields.len(), records[1]));
                assert(records[0].probe.field < records[1].probe.field);
            }
        }
    }
}

/// A struct marked `transparent` (without `tags` and without conflicting
/// arguments on skipped fields) is accepted exactly when it has one
/// non-skipped field, and its probe is then the probe of that field.
pub proof fn transparent_struct_shows_its_single_field(input: DeriveInput, plan: DerivePlan)
    requires
        input.data is Struct,
        input.attributes.transparent,
        input.attributes.tags is None,
        fields_error(None, input.data->Struct_0.fields@) is None,
    ensures
        derive_error(input) is None <==> exists|j: int|
            only_unskipped(input.data->Struct_0.fields@, j),
        derive_error(input) is None && plan_for(input, plan) ==> exists|j: int|
            #[trigger] only_unskipped(input.data->Struct_0.fields@, j) && plan.probe == ProbeImpl::Struct(
                Body::Transparent(field_probe_of(j, input.data->Struct_0.fields@[j])),
            ),
{
    let fields = input.data->Struct_0.fields@;
    assert(input.data->Struct_0.fields.len() == fields.len());
    lemma_single_record(fields);
    if records_of(fields).len() == 1 {
        records_are_the_unskipped_fields(fields);
        assert(record_is_sound(fields, fields.len(), records_of(fields)[0]));
        let j0 = records_of(fields)[0].probe.field as int;
        assert(only_unskipped(fields, j0));
    }
}

/// A variant marked `transparent` (without conflicting arguments on skipped
/// fields) passes exactly when it has one non-skipped field, and its body is
/// then the probe of that field.
pub proof fn transparent_variant_shows_its_single_field(idx: int, v: Variant, plan: VariantPlan)
    requires
        v.attributes.transparent,
        fields_error(Some(idx as usize), v.fields.fields@) is None,
    ensures
        variant_error(idx, v) is None <==> exists|j: int| only_unskipped(v.fields.fields@, j),
        variant_error(idx, v) is None && variant_plan_for(idx, v, plan) ==> exists|j: int|
            #[trigger] only_unskipped(v.fields.fields@, j) && plan.body == Body::Transparent(
                field_probe_of(j, v.fields.fields@[j]),
            ),
{
    let fields = v.fields.fields@;
    assert(v.fields.fields.len() == fields.len());
    lemma_single_record(fields);
    if records_of(fields).len() == 1 {
        records_are_the_unskipped_fields(fields);
        assert(record_is_sound(fields, fields.len(), records_of(fields)[0]));
        let j0 = records_of(fields)[0].probe.field as int;
        assert(only_unskipped(fields, j0));
    }
}

/// A given `name` argument is always the displayed name, whatever the
/// identifier, a tuple field's missing identifier included. Without one, an
/// item is labelled with its identifier, and an unnamed field with nothing.
pub proof fn given_names_are_shown(ident: Option<String>, s: String)
    ensures
        name_expr(true, ident) == NameExpr::Given,
        name_expr(false, Some(s)) == NameExpr::Ident(s),
        name_expr(false, None) == NameExpr::Empty,
{
}

/// The record and probe of a field follow that field's own arguments: the
/// probe is of that field, the bookmark menu is shown exactly when
/// `bookmarks` is given (whatever the kind argument), and the record is
/// labelled with the given name exactly when `name` is given.
pub proof fn records_follow_field_arguments(idx: int, f: Field)
    requires
        0 <= idx <= usize::MAX,
    ensures
        field_probe_of(idx, f).field == idx,
        field_probe_of(idx, f).bookmarks == f.attributes.bookmarks,
        record_of(idx, f).probe == field_probe_of(idx, f),
        (record_of(idx, f).name == NameExpr::Given) == f.attributes.name,
{
}

/// A field's default is put in `Some(..)` exactly when its type is an
/// `Option`, named field or not, and comes from its `new` argument exactly
/// when one is given; the field's name plays no part in the default.
pub proof fn defaults_follow_type_and_new(f: Field, g: Field)
    ensures
        field_default_of(f).wrap_some == is_option_type(f.ty_last_segment),
        (field_default_of(f).source == DefaultSource::Given) == f.attributes.new,
        field_init_of(f).ident == f.ident,
        field_init_of(f).default == field_default_of(f),
        f.ty_last_segment == g.ty_last_segment && f.attributes == g.attributes ==> field_default_of(f)
            == field_default_of(g),
{
}

/// The kind argument alone decides the probe of a field that has one, and
/// different kind arguments give different probes. Without one, a field gets
/// the option probe exactly when it is an `Option`, and the direct probe
/// otherwise; the option probe creates the field's default source.
pub proof fn kind_argument_decides_the_probe(f: Field, g: Field)
    ensures
        f.attributes.kind is Some && f.attributes.kind == g.attributes.kind ==> probe_kind_of(f)
            == probe_kind_of(g),
        f.attributes.kind is Some && g.attributes.kind is Some && f.attributes.kind
            != g.attributes.kind ==> probe_kind_of(f) != probe_kind_of(g),
        f.attributes.kind is Some ==> probe_kind_of(f) != ProbeKind::Direct && !(probe_kind_of(
            f,
        ) is OptionWithDefault),
        f.attributes.kind is None ==> (probe_kind_of(f) is OptionWithDefault <==> is_option_type(
            f.ty_last_segment,
        )),
        f.attributes.kind is None && !is_option_type(f.ty_last_segment) ==> probe_kind_of(f)
            == ProbeKind::Direct,
        probe_kind_of(f) matches ProbeKind::OptionWithDefault(source) ==> (source
            == DefaultSource::Given) == f.attributes.new,
{
}

/// Each kind argument picks the probe of the same name: `with` and `as`
/// their function probes, the three forms of `range` the range, step and
/// range-with-step probes, and each widget argument its widget.
pub proof fn kinds_pick_probes_of_their_name(f: Field)
    ensures
        f.attributes.kind == Some(FieldKind::With) ==> probe_kind_of(f) == ProbeKind::With,
        f.attributes.kind == Some(FieldKind::As) ==> probe_kind_of(f) == ProbeKind::As,
        f.attributes.kind == Some(FieldKind::Range(RangeArg::Range)) ==> probe_kind_of(f)
            == ProbeKind::Range,
        f.attributes.kind == Some(FieldKind::Range(RangeArg::Step)) ==> probe_kind_of(f)
            == ProbeKind::Step,
        f.attributes.kind == Some(FieldKind::Range(RangeArg::RangeStep)) ==> probe_kind_of(f)
            == ProbeKind::RangeStep,
        f.attributes.kind == Some(FieldKind::Multiline) ==> probe_kind_of(f) == ProbeKind::Multiline,
        f.attributes.kind == Some(FieldKind::ToggleSwitch) ==> probe_kind_of(f)
            == ProbeKind::ToggleSwitch,
        f.attributes.kind == Some(FieldKind::Frozen) ==> probe_kind_of(f) == ProbeKind::Frozen,
        f.attributes.kind == Some(FieldKind::Rgb) ==> probe_kind_of(f) == ProbeKind::Rgb,
        f.attributes.kind == Some(FieldKind::Rgba) ==> probe_kind_of(f) == ProbeKind::Rgba,
        f.attributes.kind == Some(FieldKind::RgbaPremultiplied) ==> probe_kind_of(f)
            == ProbeKind::RgbaPremultiplied,
        f.attributes.kind == Some(FieldKind::RgbaUnmultiplied) ==> probe_kind_of(f)
            == ProbeKind::RgbaUnmultiplied,
{
}

/// A constructor builds its target, of the fields' own shape, from one
/// initialiser per field in field order: each names its field and holds the
/// field's default (in `Some(..)` exactly for an `Option` field, from `new`
/// exactly when given).
pub proof fn constructors_build_every_field(path: ConstructorPath, fields: Fields, c: Constructor)
    requires
        constructor_for(path, fields, c),
    ensures
        c.path == path,
        c.shape == fields.shape,
        c.inits@.len() == fields.fields@.len(),
        forall|j: int|
            0 <= j < fields.fields@.len() ==> {
                &&& (#[trigger] c.inits@[j]).ident == fields.fields@[j].ident
                &&& c.inits@[j].default.wrap_some == is_option_type(fields.fields@[j].ty_last_segment)
                &&& (c.inits@[j].default.source == DefaultSource::Given)
                    == fields.fields@[j].attributes.new
            },
{
}

/// A variant is labelled with its given name whenever one is given,
/// transparent or not, and with its identifier otherwise; picking it builds
/// that very variant, of its own shape, from the defaults of all its fields
/// in order.
pub proof fn variants_are_labelled_and_built(idx: int, v: Variant, plan: VariantPlan)
    requires
        variant_plan_for(idx, v, plan),
    ensures
        plan.name == (if v.attributes.name {
            NameExpr::Given
        } else {
            NameExpr::Ident(v.ident)
        }),
        plan.ident == v.ident,
        plan.select.path == ConstructorPath::Variant(v.ident),
        plan.select.shape == v.fields.shape,
        plan.select.inits@.len() == v.fields.fields@.len(),
        forall|j: int|
            0 <= j < v.fields.fields@.len() ==> {
                &&& (#[trigger] plan.select.inits@[j]).ident == v.fields.fields@[j].ident
                &&& plan.select.inits@[j].default.wrap_some == is_option_type(
                    v.fields.fields@[j].ty_last_segment,
                )
                &&& (plan.select.inits@[j].default.source == DefaultSource::Given)
                    == v.fields.fields@[j].attributes.new
            },
{
}

/// The `New` impl of an enum exists exactly when the type has the `new`
/// argument and some variant is marked `new`; it builds the first marked
/// variant: that variant itself when it has fields, `Self` for a unit
/// variant, from the defaults of all its fields.
pub proof fn enum_new_builds_first_marked_variant(
    attrs: TypeAttributes,
    variants: Seq<Variant>,
    new_impl: Option<Constructor>,
)
    requires
        enum_new_for(attrs, variants, new_impl),
    ensures
        new_impl is Some <==> attrs.new && exists|i: int|
            0 <= i < variants.len() && (#[trigger] variants[i]).attributes.new,
        new_impl matches Some(c) ==> exists|i: int|
            0 <= i < variants.len() && (#[trigger] variants[i]).attributes.new && (forall|j: int|
                0 <= j < i ==> !(#[trigger] variants[j]).attributes.new) && c.shape
                == variants[i].fields.shape && (variants[i].fields.shape != FieldsShape::Unit
                ==> c.path == ConstructorPath::Variant(variants[i].ident)) && (
            variants[i].fields.shape == FieldsShape::Unit ==> c.path == ConstructorPath::SelfType)
                && c.inits@.len() == variants[i].fields.fields@.len(),
{
    let p = is_new_variant();
    if first_where(variants, variants.len(), p) is Some {
        lemma_first_where_some(variants, p, variants.len());
        let i = first_where(variants, variants.len(), p)->0;
        assert(p(i, variants[i]));
        assert forall|j: int| 0 <= j < i implies !(#[trigger] variants[j]).attributes.new by {
            assert(!p(j, variants[j]));
        }
    } else {
        lemma_first_where_none(variants, p, variants.len());
        assert forall|i: int| 0 <= i < variants.len() implies !(#[trigger] variants[i]).attributes.new by {
            assert(!p(i, variants[i]));
        }
    }
}

proof fn lemma_first_where_none_from_all<A>(s: Seq<A>, p: spec_fn(int, A) -> bool, n: nat)
    requires
        n <= s.len(),
        forall|i: int| 0 <= i < n ==> !p(i, #[trigger] s[i]),
    ensures
        first_where(s, n, p) is None,
    decreases n,
{
    if n > 0 {
        lemma_first_where_none_from_all(s, p, (n - 1) as nat);
    }
}

/// A field's type counts as an `Option` exactly when the last segment of its
/// path is spelled `Option`.
pub proof fn option_type_is_recognised(segment: String)
    ensures
        is_option_type(Some(segment)) <==> segment@ == seq!['O', 'p', 't', 'i', 'o', 'n'],
        !is_option_type(None),
{
    reveal_strlit("Option");
    assert("Option"@ =~= seq!['O', 'p', 't', 'i', 'o', 'n']);
}

/// A skipped field conflicts exactly when it has another argument, and the
/// conflict reported is the first present of `bookmarks`, `new`, the kind
/// argument and `name`; a field that is not skipped never conflicts.
pub proof fn conflicts_follow_argument_order(a: FieldAttributes)
    ensures
        conflict_of(a) is None <==> (!a.skip || (!a.bookmarks && !a.new && a.kind is None
            && !a.name)),
        a.skip && a.bookmarks ==> conflict_of(a) == Some(ConflictAttribute::Bookmarks),
        conflict_of(a) == Some(ConflictAttribute::New) <==> a.skip && !a.bookmarks && a.new,
        conflict_of(a) matches Some(ConflictAttribute::Kind(k)) ==> a.skip && !a.bookmarks
            && !a.new && a.kind == Some(k),
        a.skip && !a.bookmarks && !a.new && a.kind is Some ==> conflict_of(a) == Some(
            ConflictAttribute::Kind(a.kind->0),
        ),
        conflict_of(a) == Some(ConflictAttribute::Name) <==> a.skip && !a.bookmarks && !a.new
            && a.kind is None && a.name,
{
}

/// A field whose arguments do not parse is reported as such at its place,
/// before any skip conflict; a parsed field is reported exactly when it
/// conflicts, with that conflict at its place.
pub proof fn field_errors_name_their_place(variant: Option<usize>, idx: int, f: Field)
    requires
        0 <= idx <= usize::MAX,
    ensures
        f.unparsed ==> field_error(variant, idx, f) == Some(
            DeriveError::FieldSyntax { variant, field: idx as usize },
        ),
        !f.unparsed ==> (field_error(variant, idx, f) is None <==> conflict_of(f.attributes) is None),
        !f.unparsed ==> (conflict_of(f.attributes) matches Some(c) ==> field_error(variant, idx, f)
            == Some(
            DeriveError::SkippedFieldAttribute { variant, field: idx as usize, attribute: c },
        )),
{
}

/// The checks of a struct, in order: `tags` is always refused; otherwise the
/// first field that fails its checks is reported; a struct whose fields all
/// pass and that is not `transparent` is accepted.
pub proof fn struct_checks_in_order(attrs: TypeAttributes, fields: Seq<Field>)
    ensures
        attrs.tags is Some ==> struct_error(attrs, fields) == Some(DeriveError::TagsOnStruct),
        attrs.tags is None && (exists|j: int|
            0 <= j < fields.len() && field_error(None, j, #[trigger] fields[j]) is Some)
            ==> exists|j: int|
            0 <= j < fields.len() && struct_error(attrs, fields) == field_error(
                None,
                j,
                #[trigger] fields[j],
            ) && field_error(None, j, fields[j]) is Some && forall|k: int|
                0 <= k < j ==> field_error(None, k, #[trigger] fields[k]) is None,
        attrs.tags is None && !attrs.transparent && (forall|j: int|
            0 <= j < fields.len() ==> field_error(None, j, #[trigger] fields[j]) is None)
            ==> struct_error(attrs, fields) is None,
{
    let p = fails_check();
    if first_where(fields, fields.len(), p) is Some {
        lemma_first_where_some(fields, p, fields.len());
        let i = first_where(fields, fields.len(), p)->0;
        assert(p(i, fields[i]));
        assert forall|k: int| 0 <= k < i implies field_error(None, k, #[trigger] fields[k]) is None by {
            assert(!p(k, fields[k]));
        }
    } else {
        lemma_first_where_none(fields, p, fields.len());
        assert forall|j: int| 0 <= j < fields.len() implies field_error(None, j, #[trigger] fields[j])
            is None by {
            assert(!p(j, fields[j]));
        }
    }
}

/// The checks of an enum: `transparent` on the enum is always refused;
/// otherwise a variant whose arguments do not parse is reported before
/// anything else; an enum whose variants and fields all parse and pass is
/// accepted.
pub proof fn enum_checks_in_order(attrs: TypeAttributes, variants: Seq<Variant>)
    ensures
        attrs.transparent ==> enum_error(attrs, variants) == Some(DeriveError::TransparentEnum),
        !attrs.transparent && (exists|i: int| 0 <= i < variants.len() && (#[trigger] variants[i]).unparsed)
            ==> exists|i: int|
            0 <= i < variants.len() && (#[trigger] variants[i]).unparsed && enum_error(
                attrs,
                variants,
            ) == Some(DeriveError::VariantSyntax(i as usize)) && forall|k: int|
                0 <= k < i ==> !(#[trigger] variants[k]).unparsed,
        !attrs.transparent && (forall|i: int|
            0 <= i < variants.len() ==> !(#[trigger] variants[i]).unparsed && variant_error(
                i,
                variants[i],
            ) is None && first_unparsed_field(variants[i].fields.fields@) is None) ==> enum_error(
            attrs,
            variants,
        ) is None,
{
    let p = variant_unparsed();
    if first_where(variants, variants.len(), p) is Some {
        lemma_first_where_some(variants, p, variants.len());
        let i = first_where(variants, variants.len(), p)->0;
        assert(p(i, variants[i]));
        assert forall|k: int| 0 <= k < i implies !(#[trigger] variants[k]).unparsed by {
            assert(!p(k, variants[k]));
        }
    } else {
        lemma_first_where_none(variants, p, variants.len());
        assert forall|k: int| 0 <= k < variants.len() implies !(#[trigger] variants[k]).unparsed by {
            assert(!p(k, variants[k]));
        }
    }
    if !attrs.transparent && (forall|i: int|
        0 <= i < variants.len() ==> !(#[trigger] variants[i]).unparsed && variant_error(
            i,
            variants[i],
        ) is None && first_unparsed_field(variants[i].fields.fields@) is None) {
        assert forall|i: int| 0 <= i < variants.len() implies !p(i, #[trigger] variants[i]) by {
            assert(!variants[i].unparsed);
        }
        lemma_first_where_none_from_all(variants, p, variants.len());
        assert forall|i: int| 0 <= i < variants.len() implies !has_unparsed_field()(i, #[trigger] variants[i]) by {
            assert(first_unparsed_field(variants[i].fields.fields@) is None);
        }
        lemma_first_where_none_from_all(variants, has_unparsed_field(), variants.len());
        assert forall|i: int| 0 <= i < variants.len() implies !fails_in_pass(true)(i, #[trigger] variants[i]) by {
            assert(variant_error(i, variants[i]) is None);
        }
        lemma_first_where_none_from_all(variants, fails_in_pass(true), variants.len());
        assert forall|i: int| 0 <= i < variants.len() implies !fails_in_pass(false)(i, #[trigger] variants[i]) by {
            assert(variant_error(i, variants[i]) is None);
        }
        lemma_first_where_none_from_all(variants, fails_in_pass(false), variants.len());
    }
}

/// The selector style is fixed exactly when `tags` is given, to the style
/// that `tags` names.
pub proof fn tags_fix_the_style(tags: Option<TagsKind>)
    ensures
        tags is None <==> style_choice(tags) == StyleChoice::FromStyle,
        tags == Some(TagsKind::Inlined) <==> style_choice(tags) == StyleChoice::Fixed(
            VariantsStyle::Inlined,
        ),
        tags == Some(TagsKind::ComboBox) <==> style_choice(tags) == StyleChoice::Fixed(
            VariantsStyle::ComboBox,
        ),
{
}

/// An accepted type's plan shows its given name exactly when `name` is given,
/// extends the where clause exactly when `where` is given, and for a struct
/// has a `New` impl exactly when `new` is given, building `Self` from the
/// defaults of all fields, skipped ones included.
pub proof fn plan_follows_type_arguments(input: DeriveInput, plan: DerivePlan)
    requires
        plan_for(input, plan),
    ensures
        (plan.title == NameExpr::Given) == input.attributes.name,
        plan.extend_where == input.attributes.where_clause,
        input.data matches Data::Struct(fields) ==> (plan.new_impl is Some
            <==> input.attributes.new),
        input.data matches Data::Struct(fields) ==> (plan.new_impl matches Some(c) ==> c.path
            == ConstructorPath::SelfType && c.shape == fields.shape && c.inits@.len()
            == fields.fields@.len()),
        input.data is Union ==> false,
{
}

// ---------------------------------------------------------------------------
// Implementation
// ---------------------------------------------------------------------------

fn clone_ident(ident: &Option<String>) -> (r: Option<String>)
    ensures
        r == *ident,
{
    match ident {
        Some(s) => Some(s.clone()),
        None => None,
    }
}

/// The form of a `range` argument from the parts present: a range, a `by`
/// step, or both. Neither part present is no form.
pub fn range_form(range: bool, step: bool) -> (r: Option<RangeArg>)
    ensures
        r == (if range && step {
            Some(RangeArg::RangeStep)
        } else if range {
            Some(RangeArg::Range)
        } else if step {
            Some(RangeArg::Step)
        } else {
            None
        }),
{
    match (range, step) {
        (true, true) => Some(RangeArg::RangeStep),
        (true, false) => Some(RangeArg::Range),
        (false, true) => Some(RangeArg::Step),
        (false, false) => None,
    }
}

/// Whether the type of a field is an `Option`, judged by the last segment of its path.
pub fn is_option(ty_last_segment: &Option<String>) -> (r: bool)
    ensures
        r == is_option_type(*ty_last_segment),
{
    match ty_last_segment {
        Some(segment) => {
            let option = String::from_str("Option");
            proof {
                reveal_strlit("Option");
            }
            segment.eq(&option)
        },
        None => false,
    }
}

/// The name shown for an item: its `name` argument, else its identifier.
pub fn make_name(name: bool, ident: &Option<String>) -> (r: NameExpr)
    ensures
        r == name_expr(name, *ident),
{
    if name {
        NameExpr::Given
    } else {
        match ident {
            Some(ident) => NameExpr::Ident(ident.clone()),
            None => NameExpr::Empty,
        }
    }
}

/// Checks a field: its arguments must have parsed, and a skipped field may
/// have no other argument.
pub fn validate_field(variant: Option<usize>, idx: usize, field: &Field) -> (r: Result<(), DeriveError>)
    ensures
        match r {
            Ok(()) => field_error(variant, idx as int, *field) is None,
            Err(e) => field_error(variant, idx as int, *field) == Some(e),
        },
{
    if field.unparsed {
        return Err(DeriveError::FieldSyntax { variant, field: idx });
    }
    let a = field.attributes;
    if a.skip {
        let attribute = if a.bookmarks {
            Some(ConflictAttribute::Bookmarks)
        } else if a.new {
            Some(ConflictAttribute::New)
        } else if let Some(kind) = a.kind {
            Some(ConflictAttribute::Kind(kind))
        } else if a.name {
            Some(ConflictAttribute::Name)
        } else {
            None
        };
        if let Some(attribute) = attribute {
            return Err(DeriveError::SkippedFieldAttribute { variant, field: idx, attribute });
        }
    }
    Ok(())
}

/// The default of a field, without its name.
pub fn unnamed_field_default(field: &Field) -> (r: FieldDefault)
    ensures
        r == field_default_of(*field),
{
    let source = if field.attributes.new {
        DefaultSource::Given
    } else {
        DefaultSource::StdDefault
    };
    FieldDefault { source, wrap_some: is_option(&field.ty_last_segment) }
}

/// The default of a field together with its name.
pub fn field_default(field: &Field) -> (r: FieldInit)
    ensures
        r == field_init_of(*field),
{
    FieldInit { ident: clone_ident(&field.ident), default: unnamed_field_default(field) }
}

/// The name of a field's record; `None` for a skipped field. Reports the
/// field's error (see `validate_field`) instead.
pub fn field_name(variant: Option<usize>, idx: usize, field: &Field) -> (r: Result<Option<NameExpr>, DeriveError>)
    ensures
        match r {
            Ok(name) => field_error(variant, idx as int, *field) is None && name == (if field.attributes.skip {
                None
            } else {
                Some(name_expr(field.attributes.name, field.ident))
            }),
            Err(e) => field_error(variant, idx as int, *field) == Some(e),
        },
{
    validate_field(variant, idx, field)?;
    if field.attributes.skip {
        Ok(None)
    } else {
        Ok(Some(make_name(field.attributes.name, &field.ident)))
    }
}

/// The probe of the field at `idx`; `None` for a skipped field. Reports the
/// field's error (see `validate_field`) instead.
pub fn field_probe(variant: Option<usize>, idx: usize, field: &Field) -> (r: Result<Option<FieldProbe>, DeriveError>)
    ensures
        match r {
            Ok(probe) => field_error(variant, idx as int, *field) is None && probe == (if field.attributes.skip {
                None
            } else {
                Some(field_probe_of(idx as int, *field))
            }),
            Err(e) => field_error(variant, idx as int, *field) == Some(e),
        },
{
    validate_field(variant, idx, field)?;
    if field.attributes.skip {
        return Ok(None);
    }
    let kind = match field.attributes.kind {
        None => if is_option(&field.ty_last_segment) {
            ProbeKind::OptionWithDefault(unnamed_field_default(field).source)
        } else {
            ProbeKind::Direct
        },
        Some(FieldKind::With) => ProbeKind::With,
        Some(FieldKind::As) => ProbeKind::As,
        Some(FieldKind::Range(RangeArg::Range)) => ProbeKind::Range,
        Some(FieldKind::Range(RangeArg::Step)) => ProbeKind::Step,
        Some(FieldKind::Range(RangeArg::RangeStep)) => ProbeKind::RangeStep,
        Some(FieldKind::Multiline) => ProbeKind::Multiline,
        Some(FieldKind::ToggleSwitch) => ProbeKind::ToggleSwitch,
        Some(FieldKind::Frozen) => ProbeKind::Frozen,
        Some(FieldKind::Rgb) => ProbeKind::Rgb,
        Some(FieldKind::Rgba) => ProbeKind::Rgba,
        Some(FieldKind::RgbaPremultiplied) => ProbeKind::RgbaPremultiplied,
        Some(FieldKind::RgbaUnmultiplied) => ProbeKind::RgbaUnmultiplied,
    };
    Ok(Some(FieldProbe { field: idx, kind, bookmarks: field.attributes.bookmarks }))
}

/// The records of a list of fields, one per non-skipped field, or the error
/// of the first field that fails its checks.
pub fn field_records(variant: Option<usize>, fields: &Vec<Field>) -> (r: Result<Vec<Record>, DeriveError>)
    ensures
        match r {
            Ok(records) => fields_error(variant, fields@) is None && records@ == records_of(fields@),
            Err(e) => fields_error(variant, fields@) == Some(e),
        },
{
    let mut records: Vec<Record> = Vec::new();
    let n = fields.len();
    for i in 0..n
        invariant
            n == fields@.len(),
            first_where(fields@, i as nat, fails_check()) is None,
            records@ == records_upto(fields@, i as nat),
    {
        let field = &fields[i];
        let probe = match field_probe(variant, i, field) {
            Ok(probe) => probe,
            Err(e) => {
                proof {
                    assert(first_where(fields@, (i + 1) as nat, fails_check()) == Some(i as int));
                    lemma_first_where_stable(fields@, fails_check(), (i + 1) as nat, n as nat);
                }
                return Err(e);
            },
        };
        let name = match field_name(variant, i, field) {
            Ok(name) => name,
            Err(e) => return Err(e),
        };
        match (name, probe) {
            (Some(name), Some(probe)) => {
                records.push(Record { name, probe });
            },
            _ => {},
        }
    }
    Ok(records)
}

/// The defaults of all fields, skipped ones included, in order.
pub fn field_defaults(fields: &Vec<Field>) -> (r: Vec<FieldInit>)
    ensures
        r@ == fields@.map_values(|f: Field| field_init_of(f)),
{
    let mut inits: Vec<FieldInit> = Vec::new();
    let n = fields.len();
    for i in 0..n
        invariant
            n == fields@.len(),
            inits@ == fields@.take(i as int).map_values(|f: Field| field_init_of(f)),
    {
        inits.push(field_default(&fields[i]));
        assert(fields@.take((i + 1) as int) == fields@.take(i as int).push(fields@[i as int]));
    }
    assert(fields@.take(n as int) == fields@);
    inits
}

/// The body of a struct or variant: its records, or with `transparent` the
/// probe of its single non-skipped field. `None` when a transparent body
/// does not have exactly one non-skipped field.
pub fn fields_body(variant: Option<usize>, fields: &Vec<Field>, transparent: bool) -> (r: Result<Option<Body>, DeriveError>)
    ensures
        match r {
            Ok(Some(body)) => fields_error(variant, fields@) is None && !(transparent
                && records_of(fields@).len() != 1) && body_for(fields@, transparent, body),
            Ok(None) => fields_error(variant, fields@) is None && transparent && records_of(
                fields@,
            ).len() != 1,
            Err(e) => fields_error(variant, fields@) == Some(e),
        },
{
    let records = field_records(variant, fields)?;
    if transparent {
        if records.len() != 1 {
            return Ok(None);
        }
        Ok(Some(Body::Transparent(records[0].probe)))
    } else {
        Ok(Some(Body::Records(records)))
    }
}

/// The label of a variant in the selector.
pub fn variant_selected(variant: &Variant) -> (r: NameExpr)
    ensures
        r == name_expr(variant.attributes.name, Some(variant.ident)),
{
    if variant.attributes.name {
        NameExpr::Given
    } else {
        NameExpr::Ident(variant.ident.clone())
    }
}

/// The value that `self` is set to when a variant is picked: the variant with
/// the defaults of all its fields.
pub fn variant_probe(variant: &Variant) -> (r: Constructor)
    ensures
        constructor_for(ConstructorPath::Variant(variant.ident), variant.fields, r),
{
    Constructor {
        path: ConstructorPath::Variant(variant.ident.clone()),
        shape: variant.fields.shape,
        inits: field_defaults(&variant.fields.fields),
    }
}

/// The body of a variant: the probe shown beside the selector for a
/// transparent variant, or the records shown below it.
pub fn variant_body(idx: usize, variant: &Variant) -> (r: Result<Body, DeriveError>)
    ensures
        match r {
            Ok(body) => variant_error(idx as int, *variant) is None && body_for(
                variant.fields.fields@,
                variant.attributes.transparent,
                body,
            ),
            Err(e) => variant_error(idx as int, *variant) == Some(e),
        },
{
    match fields_body(Some(idx), &variant.fields.fields, variant.attributes.transparent)? {
        Some(body) => Ok(body),
        None => Err(DeriveError::TransparentVariant(idx)),
    }
}

/// Whether a variant is the one that the `New` impl builds.
pub fn variant_new(variant: &Variant) -> (r: bool)
    ensures
        r == variant.attributes.new,
{
    variant.attributes.new
}

/// The probe impl and `New` constructor of a struct.
fn derive_struct(attrs: TypeAttributes, fields: &Fields) -> (r: Result<(ProbeImpl, Option<Constructor>), DeriveError>)
    ensures
        match r {
            Ok((probe, new_impl)) => {
                &&& struct_error(attrs, fields.fields@) is None
                &&& probe matches ProbeImpl::Struct(body) && body_for(
                    fields.fields@,
                    attrs.transparent,
                    body,
                )
                &&& if attrs.new {
                    new_impl matches Some(c) && constructor_for(ConstructorPath::SelfType, *fields, c)
                } else {
                    new_impl is None
                }
            },
            Err(e) => struct_error(attrs, fields.fields@) == Some(e),
        },
{
    if attrs.tags.is_some() {
        return Err(DeriveError::TagsOnStruct);
    }
    let body = match fields_body(None, &fields.fields, attrs.transparent)? {
        Some(body) => body,
        None => return Err(DeriveError::TransparentStruct),
    };
    let new_impl = if attrs.new {
        Some(
            Constructor {
                path: ConstructorPath::SelfType,
                shape: fields.shape,
                inits: field_defaults(&fields.fields),
            },
        )
    } else {
        None
    };
    Ok((ProbeImpl::Struct(body), new_impl))
}

/// The selector style of an enum.
pub fn variants_style(tags: Option<TagsKind>) -> (r: StyleChoice)
    ensures
        r == style_choice(tags),
{
    match tags {
        None => StyleChoice::FromStyle,
        Some(TagsKind::Inlined) => StyleChoice::Fixed(VariantsStyle::Inlined),
        Some(TagsKind::ComboBox) => StyleChoice::Fixed(VariantsStyle::ComboBox),
    }
}

/// The `New` constructor of an enum: its first variant marked `new`.
fn enum_new_impl(attrs: TypeAttributes, variants: &Vec<Variant>) -> (r: Option<Constructor>)
    ensures
        enum_new_for(attrs, variants@, r),
{
    if !attrs.new {
        return None;
    }
    let n = variants.len();
    for i in 0..n
        invariant
            n == variants@.len(),
            attrs.new,
            first_where(variants@, i as nat, is_new_variant()) is None,
    {
        let variant = &variants[i];
        if variant_new(variant) {
            let path = match variant.fields.shape {
                FieldsShape::Unit => ConstructorPath::SelfType,
                _ => ConstructorPath::Variant(variant.ident.clone()),
            };
            proof {
                assert(first_where(variants@, (i + 1) as nat, is_new_variant()) == Some(i as int));
                lemma_first_where_stable(variants@, is_new_variant(), (i + 1) as nat, n as nat);
            }
            return Some(
                Constructor {
                    path,
                    shape: variant.fields.shape,
                    inits: field_defaults(&variant.fields.fields),
                },
            );
        }
    }
    None
}

/// The index of the first field whose arguments do not parse.
fn first_unparsed(fields: &Vec<Field>) -> (r: Option<usize>)
    ensures
        r matches Some(j) ==> first_unparsed_field(fields@) == Some(j as int),
        r is None ==> first_unparsed_field(fields@) is None,
{
    let n = fields.len();
    for j in 0..n
        invariant
            n == fields@.len(),
            first_where(fields@, j as nat, field_unparsed()) is None,
    {
        if fields[j].unparsed {
            proof {
                assert(first_where(fields@, (j + 1) as nat, field_unparsed()) == Some(j as int));
                lemma_first_where_stable(fields@, field_unparsed(), (j + 1) as nat, n as nat);
            }
            return Some(j);
        }
    }
    None
}

/// The probe impl of an enum. The arguments of the variants and of their
/// fields are read first, then transparent variants are checked, as the probe
/// drawn beside the selector is built before the records below it.
fn derive_enum(attrs: TypeAttributes, variants: &Vec<Variant>) -> (r: Result<ProbeImpl, DeriveError>)
    requires
        !attrs.transparent,
    ensures
        match r {
            Ok(probe) => {
                &&& enum_error(attrs, variants@) is None
                &&& probe matches ProbeImpl::Enum { style, variants: plans } && {
                    &&& style == style_choice(attrs.tags)
                    &&& plans@.len() == variants@.len()
                    &&& forall|i: int|
                        0 <= i < variants@.len() ==> #[trigger] variant_plan_for(
                            i,
                            variants@[i],
                            plans@[i],
                        )
                }
            },
            Err(e) => enum_error(attrs, variants@) == Some(e),
        },
{
    let n = variants.len();
    for i in 0..n
        invariant
            n == variants@.len(),
            !attrs.transparent,
            first_where(variants@, i as nat, variant_unparsed()) is None,
    {
        if variants[i].unparsed {
            proof {
                assert(first_where(variants@, (i + 1) as nat, variant_unparsed()) == Some(i as int));
                lemma_first_where_stable(variants@, variant_unparsed(), (i + 1) as nat, n as nat);
            }
            return Err(DeriveError::VariantSyntax(i));
        }
    }
    for i in 0..n
        invariant
            n == variants@.len(),
            !attrs.transparent,
            first_where(variants@, n as nat, variant_unparsed()) is None,
            first_where(variants@, i as nat, has_unparsed_field()) is None,
    {
        if let Some(j) = first_unparsed(&variants[i].fields.fields) {
            proof {
                assert(first_where(variants@, (i + 1) as nat, has_unparsed_field()) == Some(i as int));
                lemma_first_where_stable(variants@, has_unparsed_field(), (i + 1) as nat, n as nat);
            }
            return Err(DeriveError::FieldSyntax { variant: Some(i), field: j });
        }
    }
    for i in 0..n
        invariant
            n == variants@.len(),
            !attrs.transparent,
            first_where(variants@, n as nat, variant_unparsed()) is None,
            first_where(variants@, n as nat, has_unparsed_field()) is None,
            first_where(variants@, i as nat, fails_in_pass(true)) is None,
    {
        let variant = &variants[i];
        if variant.attributes.transparent {
            match variant_body(i, variant) {
                Ok(_) => {},
                Err(e) => {
                    proof {
                        assert(first_where(variants@, (i + 1) as nat, fails_in_pass(true)) == Some(
                            i as int,
                        ));
                        lemma_first_where_stable(
                            variants@,
                            fails_in_pass(true),
                            (i + 1) as nat,
                            n as nat,
                        );
                    }
                    return Err(e);
                },
            }
        }
    }
    proof {
        lemma_first_where_none(variants@, fails_in_pass(true), n as nat);
    }
    let mut plans: Vec<VariantPlan> = Vec::new();
    for i in 0..n
        invariant
            n == variants@.len(),
            !attrs.transparent,
            first_where(variants@, n as nat, variant_unparsed()) is None,
            first_where(variants@, n as nat, has_unparsed_field()) is None,
            first_where(variants@, n as nat, fails_in_pass(true)) is None,
            forall|j: int|
                0 <= j < n ==> !#[trigger] fails_in_pass(true)(j, variants@[j]),
            first_where(variants@, i as nat, fails_in_pass(false)) is None,
            plans@.len() == i,
            forall|j: int| 0 <= j < i ==> #[trigger] variant_plan_for(j, variants@[j], plans@[j]),
    {
        let variant = &variants[i];
        let body = match variant_body(i, variant) {
            Ok(body) => body,
            Err(e) => {
                proof {
                    assert(!fails_in_pass(true)(i as int, variants@[i as int]));
                    assert(first_where(variants@, (i + 1) as nat, fails_in_pass(false)) == Some(
                        i as int,
                    ));
                    lemma_first_where_stable(
                        variants@,
                        fails_in_pass(false),
                        (i + 1) as nat,
                        n as nat,
                    );
                }
                return Err(e);
            },
        };
        plans.push(
            VariantPlan {
                ident: variant.ident.clone(),
                name: variant_selected(variant),
                shape: variant.fields.shape,
                select: variant_probe(variant),
                body,
            },
        );
    }
    Ok(ProbeImpl::Enum { style: variants_style(attrs.tags), variants: plans })
}

/// A where clause: its `where` token and its predicates.
pub struct WhereParts<T, W> {
    pub token: T,
    pub predicates: Vec<W>,
}

/// The where clause of the generated impls: the type's own clause, followed
/// by the predicates of the `where` argument when one is given. Without an
/// own clause, the argument's `where` token is used.
pub fn merge_where<T, W>(own: Option<WhereParts<T, W>>, extra: Option<WhereParts<T, W>>) -> (r: Option<
    WhereParts<T, W>,
>)
    ensures
        extra is None ==> r == own,
        extra matches Some(e) ==> r matches Some(m) && m.token == (match own {
            Some(o) => o.token,
            None => e.token,
        }) && m.predicates@ == (match own {
            Some(o) => o.predicates@,
            None => Seq::<W>::empty(),
        }) + e.predicates@,
{
    match extra {
        None => own,
        Some(e) => {
            let WhereParts { token: extra_token, predicates: mut extra_predicates } = e;
            match own {
                Some(o) => {
                    let WhereParts { token, mut predicates } = o;
                    predicates.append(&mut extra_predicates);
                    Some(WhereParts { token, predicates })
                },
                None => {
                    proof {
                        assert(Seq::<W>::empty() + extra_predicates@ =~= extra_predicates@);
                    }
                    Some(WhereParts { token: extra_token, predicates: extra_predicates })
                },
            }
        },
    }
}

/// Decides what the `EguiProbe` derive generates for a type, or which error it reports.
pub fn derive(input: &DeriveInput) -> (r: Result<DerivePlan, DeriveError>)
    ensures
        match r {
            Ok(plan) => derive_error(*input) is None && plan_for(*input, plan),
            Err(e) => derive_error(*input) == Some(e),
        },
{
    let attrs = input.attributes;
    let title = if attrs.name {
        NameExpr::Given
    } else {
        NameExpr::Ident(input.ident.clone())
    };
    match &input.data {
        Data::Struct(fields) => {
            let (probe, new_impl) = derive_struct(attrs, fields)?;
            Ok(DerivePlan { title, extend_where: attrs.where_clause, probe, new_impl })
        },
        Data::Enum(variants) => {
            if attrs.transparent {
                return Err(DeriveError::TransparentEnum);
            }
            let probe = derive_enum(attrs, variants)?;
            let new_impl = enum_new_impl(attrs, variants);
            Ok(DerivePlan { title, extend_where: attrs.where_clause, probe, new_impl })
        },
        Data::Union => Err(DeriveError::Union),
    }
}

impl DeriveError {
    /// The message reported for the error. `detail` is how the conflicting
    /// argument of a skipped field is displayed, or for arguments that do not
    /// parse the parser's own message; other errors ignore it.
    pub fn message(&self, detail: &str) -> (r: String)
        ensures
            r@ == error_message(*self, detail@),
    {
        let attribute = detail;
        match self {
            DeriveError::FieldSyntax { .. } | DeriveError::VariantSyntax(_) => String::from_str(detail),
            DeriveError::SkippedFieldAttribute { .. } => {
                String::from_str("Cannot use ").concat(attribute).concat(" attribute for skipped field")
            },
            DeriveError::TagsOnStruct => String::from_str("Tags may be specified only for enums"),
            DeriveError::TransparentStruct => String::from_str(
                "Transparent struct must have exactly one non-skipped field",
            ),
            DeriveError::TransparentVariant(_) => String::from_str(
                "Transparent variant must have exactly one non-skipped field",
            ),
            DeriveError::TransparentEnum => String::from_str(
                "Transparent may be specified only for structs or enum variants with exactly one non-skipped field",
            ),
            DeriveError::Union => String::from_str("EguiProbe can only be derived for structs and enums"),
        }
    }
}

} // verus!
