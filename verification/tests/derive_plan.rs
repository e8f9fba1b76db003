use egui_probe::probe_derive::{
    field_default, field_name, field_probe, fields_body, is_option, make_name, range_form,
    merge_where, validate_field, variant_body, WhereParts,
};
use egui_probe::model::{
    Data, DeriveInput, Field, FieldAttributes, FieldKind, Fields, FieldsShape, RangeArg, TagsKind,
    TypeAttributes, Variant, VariantAttributes,
};
use egui_probe::plan::{
    Body, ConflictAttribute, Constructor, ConstructorPath, DefaultSource, DeriveError, FieldDefault,
    FieldInit, FieldProbe, NameExpr, ProbeImpl, ProbeKind, Record, StyleChoice,
};
use egui_probe::VariantsStyle;

fn bare() -> FieldAttributes {
    FieldAttributes { bookmarks: false, kind: None, name: false, new: false, skip: false }
}

fn field(ident: &str, ty: &str, attributes: FieldAttributes) -> Field {
    Field {
        ident: Some(ident.to_string()),
        ty_last_segment: Some(ty.to_string()),
        unparsed: false,
        attributes,
    }
}

fn tuple_field(ty: &str, attributes: FieldAttributes) -> Field {
    Field { ident: None, ty_last_segment: Some(ty.to_string()), unparsed: false, attributes }
}

fn type_attrs() -> TypeAttributes {
    TypeAttributes { name: false, new: false, tags: None, transparent: false, where_clause: false }
}

fn named(fields: Vec<Field>) -> Fields {
    Fields { shape: FieldsShape::Named, fields }
}

fn structure(attributes: TypeAttributes, fields: Fields) -> DeriveInput {
    DeriveInput { ident: "Demo".to_string(), attributes, data: Data::Struct(fields) }
}

fn variant(ident: &str, attributes: VariantAttributes, fields: Fields) -> Variant {
    Variant { ident: ident.to_string(), unparsed: false, attributes, fields }
}

fn plain_variant() -> VariantAttributes {
    VariantAttributes { name: false, new: false, transparent: false }
}

fn enumeration(attributes: TypeAttributes, variants: Vec<Variant>) -> DeriveInput {
    DeriveInput { ident: "Choice".to_string(), attributes, data: Data::Enum(variants) }
}

fn probe(field: usize, kind: ProbeKind) -> FieldProbe {
    FieldProbe { field, kind, bookmarks: false }
}

fn std_default(wrap_some: bool) -> FieldDefault {
    FieldDefault { source: DefaultSource::StdDefault, wrap_some }
}

#[test]
fn option_type_is_recognised_by_last_segment() {
    assert!(is_option(&Some("Option".to_string())));
    assert!(!is_option(&Some("Vec".to_string())));
    assert!(!is_option(&Some("option".to_string())));
    assert!(!is_option(&None));
}

#[test]
fn names_prefer_the_given_name() {
    assert_eq!(make_name(true, &Some("a".to_string())), NameExpr::Given);
    assert_eq!(make_name(false, &Some("a".to_string())), NameExpr::Ident("a".to_string()));
    assert_eq!(make_name(false, &None), NameExpr::Empty);
}

#[test]
fn range_forms() {
    assert_eq!(range_form(true, false), Some(RangeArg::Range));
    assert_eq!(range_form(false, true), Some(RangeArg::Step));
    assert_eq!(range_form(true, true), Some(RangeArg::RangeStep));
    assert_eq!(range_form(false, false), None);
}

#[test]
fn kinds_pick_their_probes() {
    let cases = [
        (FieldKind::As, ProbeKind::As),
        (FieldKind::With, ProbeKind::With),
        (FieldKind::Range(RangeArg::Range), ProbeKind::Range),
        (FieldKind::Range(RangeArg::Step), ProbeKind::Step),
        (FieldKind::Range(RangeArg::RangeStep), ProbeKind::RangeStep),
        (FieldKind::Frozen, ProbeKind::Frozen),
        (FieldKind::Multiline, ProbeKind::Multiline),
        (FieldKind::Rgb, ProbeKind::Rgb),
        (FieldKind::Rgba, ProbeKind::Rgba),
        (FieldKind::RgbaPremultiplied, ProbeKind::RgbaPremultiplied),
        (FieldKind::RgbaUnmultiplied, ProbeKind::RgbaUnmultiplied),
        (FieldKind::ToggleSwitch, ProbeKind::ToggleSwitch),
    ];
    for (kind, expected) in cases {
        let f = field("x", "Option", FieldAttributes { kind: Some(kind), ..bare() });
        assert_eq!(field_probe(None, 4, &f), Ok(Some(probe(4, expected))));
    }
}

#[test]
fn option_field_without_kind_gets_option_probe() {
    let f = field("x", "Option", bare());
    assert_eq!(
        field_probe(None, 0, &f),
        Ok(Some(probe(0, ProbeKind::OptionWithDefault(DefaultSource::StdDefault))))
    );
    let given = field("y", "Option", FieldAttributes { new: true, ..bare() });
    assert_eq!(
        field_probe(None, 1, &given),
        Ok(Some(probe(1, ProbeKind::OptionWithDefault(DefaultSource::Given))))
    );
    let plain = field("z", "u8", bare());
    assert_eq!(field_probe(None, 2, &plain), Ok(Some(probe(2, ProbeKind::Direct))));
}

#[test]
fn skipped_field_has_no_probe() {
    let f = field("x", "u8", FieldAttributes { skip: true, ..bare() });
    assert_eq!(field_probe(None, 0, &f), Ok(None));
}

#[test]
fn field_defaults_keep_the_name() {
    let f = field("x", "Option", FieldAttributes { new: true, ..bare() });
    assert_eq!(
        field_default(&f),
        FieldInit {
            ident: Some("x".to_string()),
            default: FieldDefault { source: DefaultSource::Given, wrap_some: true },
        }
    );
    let t = tuple_field("u8", bare());
    assert_eq!(field_default(&t), FieldInit { ident: None, default: std_default(false) });
}

#[test]
fn struct_records_list_unskipped_fields() {
    let input = structure(
        type_attrs(),
        named(vec![
            field("a", "u8", bare()),
            field("b", "NoProbe", FieldAttributes { skip: true, ..bare() }),
            field("c", "Option", FieldAttributes { name: true, ..bare() }),
            field("d", "f32", FieldAttributes { bookmarks: true, ..bare() }),
        ]),
    );
    let plan = egui_probe::probe_derive::derive(&input).unwrap();
    assert_eq!(plan.title, NameExpr::Ident("Demo".to_string()));
    assert!(!plan.extend_where);
    assert_eq!(plan.new_impl, None);
    assert_eq!(
        plan.probe,
        ProbeImpl::Struct(Body::Records(vec![
            Record { name: NameExpr::Ident("a".to_string()), probe: probe(0, ProbeKind::Direct) },
            Record {
                name: NameExpr::Given,
                probe: probe(2, ProbeKind::OptionWithDefault(DefaultSource::StdDefault)),
            },
            Record {
                name: NameExpr::Ident("d".to_string()),
                probe: FieldProbe { field: 3, kind: ProbeKind::Direct, bookmarks: true },
            },
        ]))
    );
}

#[test]
fn struct_name_and_where_clause() {
    let attrs = TypeAttributes { name: true, where_clause: true, ..type_attrs() };
    let plan = egui_probe::probe_derive::derive(&structure(attrs, named(vec![]))).unwrap();
    assert_eq!(plan.title, NameExpr::Given);
    assert!(plan.extend_where);
    assert_eq!(plan.probe, ProbeImpl::Struct(Body::Records(vec![])));
}

#[test]
fn tuple_fields_have_empty_names() {
    let input = structure(
        type_attrs(),
        Fields { shape: FieldsShape::Unnamed, fields: vec![tuple_field("u8", bare())] },
    );
    let plan = egui_probe::probe_derive::derive(&input).unwrap();
    assert_eq!(
        plan.probe,
        ProbeImpl::Struct(Body::Records(vec![Record {
            name: NameExpr::Empty,
            probe: probe(0, ProbeKind::Direct),
        }]))
    );
}

#[test]
fn transparent_struct_shows_its_field() {
    let attrs = TypeAttributes { transparent: true, ..type_attrs() };
    let input = structure(
        attrs,
        Fields {
            shape: FieldsShape::Unnamed,
            fields: vec![
                tuple_field("()", FieldAttributes { skip: true, ..bare() }),
                tuple_field(
                    "u32",
                    FieldAttributes { kind: Some(FieldKind::Range(RangeArg::Range)), ..bare() },
                ),
            ],
        },
    );
    let plan = egui_probe::probe_derive::derive(&input).unwrap();
    assert_eq!(plan.probe, ProbeImpl::Struct(Body::Transparent(probe(1, ProbeKind::Range))));
}

#[test]
fn transparent_struct_needs_one_field() {
    let attrs = TypeAttributes { transparent: true, ..type_attrs() };
    let two = structure(attrs, named(vec![field("a", "u8", bare()), field("b", "u8", bare())]));
    assert_eq!(egui_probe::probe_derive::derive(&two), Err(DeriveError::TransparentStruct));
    let none = structure(attrs, named(vec![field("a", "u8", FieldAttributes { skip: true, ..bare() })]));
    assert_eq!(egui_probe::probe_derive::derive(&none), Err(DeriveError::TransparentStruct));
}

#[test]
fn tags_are_refused_on_structs() {
    let attrs = TypeAttributes { tags: Some(TagsKind::Inlined), transparent: true, ..type_attrs() };
    let input = structure(attrs, named(vec![field("a", "u8", FieldAttributes { skip: true, name: true, ..bare() })]));
    assert_eq!(egui_probe::probe_derive::derive(&input), Err(DeriveError::TagsOnStruct));
}

#[test]
fn skipped_field_conflicts_in_argument_order() {
    let all = FieldAttributes {
        bookmarks: true,
        kind: Some(FieldKind::Frozen),
        name: true,
        new: true,
        skip: true,
    };
    let cases = [
        (all, ConflictAttribute::Bookmarks),
        (FieldAttributes { bookmarks: false, ..all }, ConflictAttribute::New),
        (FieldAttributes { bookmarks: false, new: false, ..all }, ConflictAttribute::Kind(FieldKind::Frozen)),
        (
            FieldAttributes { bookmarks: false, new: false, kind: None, ..all },
            ConflictAttribute::Name,
        ),
    ];
    for (attributes, attribute) in cases {
        let input = structure(
            type_attrs(),
            named(vec![field("ok", "u8", bare()), field("bad", "u8", attributes)]),
        );
        assert_eq!(
            egui_probe::probe_derive::derive(&input),
            Err(DeriveError::SkippedFieldAttribute { variant: None, field: 1, attribute })
        );
    }
}

#[test]
fn first_conflicting_field_is_reported() {
    let bad = FieldAttributes { skip: true, name: true, ..bare() };
    let input = structure(
        TypeAttributes { transparent: true, ..type_attrs() },
        named(vec![field("a", "u8", bare()), field("b", "u8", bad), field("c", "u8", bad)]),
    );
    assert_eq!(
        egui_probe::probe_derive::derive(&input),
        Err(DeriveError::SkippedFieldAttribute {
            variant: None,
            field: 1,
            attribute: ConflictAttribute::Name,
        })
    );
}

#[test]
fn struct_new_impl_builds_all_defaults() {
    let attrs = TypeAttributes { new: true, ..type_attrs() };
    let input = structure(
        attrs,
        named(vec![
            field("a", "u8", FieldAttributes { new: true, ..bare() }),
            field("b", "Option", FieldAttributes { skip: true, ..bare() }),
        ]),
    );
    let plan = egui_probe::probe_derive::derive(&input).unwrap();
    assert_eq!(
        plan.new_impl,
        Some(Constructor {
            path: ConstructorPath::SelfType,
            shape: FieldsShape::Named,
            inits: vec![
                FieldInit {
                    ident: Some("a".to_string()),
                    default: FieldDefault { source: DefaultSource::Given, wrap_some: false },
                },
                FieldInit { ident: Some("b".to_string()), default: std_default(true) },
            ],
        })
    );
}

#[test]
fn enum_plan_lists_variants() {
    let input = enumeration(
        TypeAttributes { tags: Some(TagsKind::ComboBox), ..type_attrs() },
        vec![
            variant("Empty", plain_variant(), Fields { shape: FieldsShape::Unit, fields: vec![] }),
            variant(
                "Num",
                VariantAttributes { name: true, ..plain_variant() },
                named(vec![field("value", "usize", bare())]),
            ),
            variant(
                "Float",
                VariantAttributes { transparent: true, ..plain_variant() },
                Fields { shape: FieldsShape::Unnamed, fields: vec![tuple_field("f32", bare())] },
            ),
        ],
    );
    let plan = egui_probe::probe_derive::derive(&input).unwrap();
    assert_eq!(plan.title, NameExpr::Ident("Choice".to_string()));
    assert_eq!(plan.new_impl, None);
    match plan.probe {
        ProbeImpl::Enum { style, variants } => {
            assert_eq!(style, StyleChoice::Fixed(VariantsStyle::ComboBox));
            assert_eq!(variants.len(), 3);
            assert_eq!(variants[0].ident, "Empty");
            assert_eq!(variants[0].name, NameExpr::Ident("Empty".to_string()));
            assert_eq!(variants[0].shape, FieldsShape::Unit);
            assert_eq!(
                variants[0].select,
                Constructor {
                    path: ConstructorPath::Variant("Empty".to_string()),
                    shape: FieldsShape::Unit,
                    inits: vec![],
                }
            );
            assert_eq!(variants[0].body, Body::Records(vec![]));
            assert_eq!(variants[1].name, NameExpr::Given);
            assert_eq!(
                variants[1].select,
                Constructor {
                    path: ConstructorPath::Variant("Num".to_string()),
                    shape: FieldsShape::Named,
                    inits: vec![FieldInit { ident: Some("value".to_string()), default: std_default(false) }],
                }
            );
            assert_eq!(
                variants[1].body,
                Body::Records(vec![Record {
                    name: NameExpr::Ident("value".to_string()),
                    probe: probe(0, ProbeKind::Direct),
                }])
            );
            assert_eq!(variants[2].body, Body::Transparent(probe(0, ProbeKind::Direct)));
        }
        other => panic!("expected an enum plan, got {:?}", other),
    }
}

#[test]
fn enum_style_follows_tags() {
    for (tags, expected) in [
        (None, StyleChoice::FromStyle),
        (Some(TagsKind::Inlined), StyleChoice::Fixed(VariantsStyle::Inlined)),
        (Some(TagsKind::ComboBox), StyleChoice::Fixed(VariantsStyle::ComboBox)),
    ] {
        let input = enumeration(TypeAttributes { tags, ..type_attrs() }, vec![]);
        match egui_probe::probe_derive::derive(&input).unwrap().probe {
            ProbeImpl::Enum { style, .. } => assert_eq!(style, expected),
            other => panic!("expected an enum plan, got {:?}", other),
        }
    }
}

#[test]
fn transparent_enum_is_refused() {
    let input = enumeration(TypeAttributes { transparent: true, ..type_attrs() }, vec![]);
    assert_eq!(egui_probe::probe_derive::derive(&input), Err(DeriveError::TransparentEnum));
}

#[test]
fn union_is_refused() {
    let input = DeriveInput { ident: "U".to_string(), attributes: type_attrs(), data: Data::Union };
    assert_eq!(egui_probe::probe_derive::derive(&input), Err(DeriveError::Union));
}

#[test]
fn transparent_variant_needs_one_field() {
    let input = enumeration(
        type_attrs(),
        vec![
            variant("A", plain_variant(), named(vec![field("x", "u8", bare())])),
            variant(
                "B",
                VariantAttributes { transparent: true, ..plain_variant() },
                named(vec![field("x", "u8", bare()), field("y", "u8", bare())]),
            ),
        ],
    );
    assert_eq!(egui_probe::probe_derive::derive(&input), Err(DeriveError::TransparentVariant(1)));
}

#[test]
fn transparent_variants_are_checked_first() {
    let bad = FieldAttributes { skip: true, new: true, ..bare() };
    let input = enumeration(
        type_attrs(),
        vec![
            variant("A", plain_variant(), named(vec![field("x", "u8", bad)])),
            variant(
                "B",
                VariantAttributes { transparent: true, ..plain_variant() },
                named(vec![]),
            ),
        ],
    );
    assert_eq!(egui_probe::probe_derive::derive(&input), Err(DeriveError::TransparentVariant(1)));
    let only_plain = enumeration(
        type_attrs(),
        vec![variant("A", plain_variant(), named(vec![field("x", "u8", bare()), field("y", "u8", bad)]))],
    );
    assert_eq!(
        egui_probe::probe_derive::derive(&only_plain),
        Err(DeriveError::SkippedFieldAttribute {
            variant: Some(0),
            field: 1,
            attribute: ConflictAttribute::New,
        })
    );
}

#[test]
fn enum_new_impl_builds_first_new_variant() {
    let attrs = TypeAttributes { new: true, ..type_attrs() };
    let marked = VariantAttributes { new: true, ..plain_variant() };
    let input = enumeration(
        attrs,
        vec![
            variant("A", plain_variant(), Fields { shape: FieldsShape::Unit, fields: vec![] }),
            variant("B", marked, Fields { shape: FieldsShape::Unnamed, fields: vec![tuple_field("u8", bare())] }),
            variant("C", marked, Fields { shape: FieldsShape::Unit, fields: vec![] }),
        ],
    );
    assert_eq!(
        egui_probe::probe_derive::derive(&input).unwrap().new_impl,
        Some(Constructor {
            path: ConstructorPath::Variant("B".to_string()),
            shape: FieldsShape::Unnamed,
            inits: vec![FieldInit { ident: None, default: std_default(false) }],
        })
    );
    let unit_first = enumeration(
        attrs,
        vec![variant("C", marked, Fields { shape: FieldsShape::Unit, fields: vec![] })],
    );
    assert_eq!(
        egui_probe::probe_derive::derive(&unit_first).unwrap().new_impl,
        Some(Constructor { path: ConstructorPath::SelfType, shape: FieldsShape::Unit, inits: vec![] })
    );
    let unmarked = enumeration(
        attrs,
        vec![variant("A", plain_variant(), Fields { shape: FieldsShape::Unit, fields: vec![] })],
    );
    assert_eq!(egui_probe::probe_derive::derive(&unmarked).unwrap().new_impl, None);
}

#[test]
fn error_messages() {
    let conflict = DeriveError::SkippedFieldAttribute {
        variant: None,
        field: 0,
        attribute: ConflictAttribute::Name,
    };
    assert_eq!(conflict.message("`name`"), "Cannot use `name` attribute for skipped field");
    assert_eq!(DeriveError::TagsOnStruct.message(""), "Tags may be specified only for enums");
    assert_eq!(
        DeriveError::TransparentStruct.message(""),
        "Transparent struct must have exactly one non-skipped field"
    );
    assert_eq!(
        DeriveError::TransparentVariant(2).message(""),
        "Transparent variant must have exactly one non-skipped field"
    );
    assert_eq!(
        DeriveError::TransparentEnum.message(""),
        "Transparent may be specified only for structs or enum variants with exactly one non-skipped field"
    );
    assert_eq!(DeriveError::Union.message(""), "EguiProbe can only be derived for structs and enums");
}

#[test]
fn validation_of_single_fields() {
    let ok = field("a", "u8", FieldAttributes { skip: true, ..bare() });
    assert_eq!(validate_field(Some(3), 0, &ok), Ok(()));
    let named_only = field("a", "u8", FieldAttributes { name: true, ..bare() });
    assert_eq!(validate_field(None, 0, &named_only), Ok(()));
    let bad = field("a", "u8", FieldAttributes { skip: true, bookmarks: true, ..bare() });
    assert_eq!(
        validate_field(Some(3), 2, &bad),
        Err(DeriveError::SkippedFieldAttribute {
            variant: Some(3),
            field: 2,
            attribute: ConflictAttribute::Bookmarks,
        })
    );
}

#[test]
fn field_names_leave_out_skipped_fields() {
    assert_eq!(field_name(None, 0, &field("a", "u8", bare())), Ok(Some(NameExpr::Ident("a".to_string()))));
    assert_eq!(field_name(None, 0, &field("a", "u8", FieldAttributes { skip: true, ..bare() })), Ok(None));
}

#[test]
fn bodies_of_fields() {
    let two = vec![field("a", "u8", bare()), field("b", "u8", bare())];
    assert_eq!(fields_body(None, &two, true), Ok(None));
    let one = vec![field("a", "u8", FieldAttributes { kind: Some(FieldKind::Rgb), ..bare() })];
    assert_eq!(
        fields_body(None, &one, true),
        Ok(Some(Body::Transparent(probe(0, ProbeKind::Rgb))))
    );
    let v = variant(
        "V",
        VariantAttributes { transparent: true, ..plain_variant() },
        named(two),
    );
    assert_eq!(variant_body(5, &v), Err(DeriveError::TransparentVariant(5)));
}

#[test]
fn single_field_helpers_report_conflicts() {
    let bad = field("a", "u8", FieldAttributes { skip: true, kind: Some(FieldKind::Rgb), ..bare() });
    let expected = DeriveError::SkippedFieldAttribute {
        variant: Some(1),
        field: 4,
        attribute: ConflictAttribute::Kind(FieldKind::Rgb),
    };
    assert_eq!(field_probe(Some(1), 4, &bad), Err(expected));
    assert_eq!(field_name(Some(1), 4, &bad), Err(expected));
    let unparsed = Field { unparsed: true, ..field("a", "u8", bare()) };
    assert_eq!(field_probe(None, 2, &unparsed), Err(DeriveError::FieldSyntax { variant: None, field: 2 }));
    assert_eq!(field_name(None, 2, &unparsed), Err(DeriveError::FieldSyntax { variant: None, field: 2 }));
}

#[test]
fn struct_fields_are_checked_in_order() {
    let bad = FieldAttributes { skip: true, name: true, ..bare() };
    let input = structure(
        type_attrs(),
        named(vec![
            field("a", "u8", bad),
            Field { unparsed: true, ..field("b", "u8", bare()) },
        ]),
    );
    assert_eq!(
        egui_probe::probe_derive::derive(&input),
        Err(DeriveError::SkippedFieldAttribute { variant: None, field: 0, attribute: ConflictAttribute::Name })
    );
    let input = structure(
        type_attrs(),
        named(vec![
            Field { unparsed: true, ..field("a", "u8", bare()) },
            field("b", "u8", bad),
        ]),
    );
    assert_eq!(
        egui_probe::probe_derive::derive(&input),
        Err(DeriveError::FieldSyntax { variant: None, field: 0 })
    );
}

#[test]
fn enum_arguments_are_read_before_checks() {
    let bad = FieldAttributes { skip: true, name: true, ..bare() };
    let transparent = VariantAttributes { transparent: true, ..plain_variant() };
    let input = enumeration(
        type_attrs(),
        vec![
            variant("A", transparent, named(vec![])),
            variant("B", plain_variant(), named(vec![field("x", "u8", bad), Field { unparsed: true, ..field("y", "u8", bare()) }])),
            Variant { unparsed: true, ..variant("C", plain_variant(), named(vec![])) },
        ],
    );
    assert_eq!(egui_probe::probe_derive::derive(&input), Err(DeriveError::VariantSyntax(2)));
    let input = enumeration(
        type_attrs(),
        vec![
            variant("A", transparent, named(vec![])),
            variant("B", plain_variant(), named(vec![field("x", "u8", bad), Field { unparsed: true, ..field("y", "u8", bare()) }])),
        ],
    );
    assert_eq!(
        egui_probe::probe_derive::derive(&input),
        Err(DeriveError::FieldSyntax { variant: Some(1), field: 1 })
    );
    let input = enumeration(
        TypeAttributes { transparent: true, ..type_attrs() },
        vec![Variant { unparsed: true, ..variant("C", plain_variant(), named(vec![])) }],
    );
    assert_eq!(egui_probe::probe_derive::derive(&input), Err(DeriveError::TransparentEnum));
}

#[test]
fn syntax_errors_keep_the_parser_message() {
    assert_eq!(DeriveError::VariantSyntax(0).message("expected `=`"), "expected `=`");
    assert_eq!(
        DeriveError::FieldSyntax { variant: None, field: 3 }.message("unexpected token"),
        "unexpected token"
    );
}

#[test]
fn where_clauses_merge() {
    let own = Some(WhereParts { token: 'o', predicates: vec![1, 2] });
    let extra = Some(WhereParts { token: 'e', predicates: vec![3] });
    let merged = merge_where(own, extra).unwrap();
    assert_eq!(merged.token, 'o');
    assert_eq!(merged.predicates, vec![1, 2, 3]);
    let merged = merge_where(None, Some(WhereParts { token: 'e', predicates: vec![3] })).unwrap();
    assert_eq!(merged.token, 'e');
    assert_eq!(merged.predicates, vec![3]);
    let kept = merge_where(Some(WhereParts { token: 'o', predicates: vec![1] }), None).unwrap();
    assert_eq!(kept.token, 'o');
    assert_eq!(kept.predicates, vec![1]);
    assert!(merge_where::<char, u8>(None, None).is_none());
}
