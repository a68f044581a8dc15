use typesum::decl::AttrDecl;
use typesum::decl::Decl;
use typesum::decl::EnumDecl;
use typesum::decl::FieldsDecl;
use typesum::decl::MetaItem;
use typesum::decl::MetaValue;
use typesum::decl::VariantDecl;
use typesum::error::GenError;
use typesum::flags::Attrs;
use typesum::runtime::eval_as;
use typesum::runtime::eval_from;
use typesum::runtime::eval_into;
use typesum::runtime::eval_is;
use typesum::runtime::eval_try_into;
use typesum::runtime::eval_try_into_group;
use typesum::runtime::UnionValue;
use typesum::synth::bucketise_by;
use typesum::synth::sumtype_attr;
use typesum::synth::Generated;
use typesum::synth::OpDef;
use typesum::synth::OpKind;
use typesum::TryIntoError;

fn item(key: &str, value: MetaValue) -> MetaItem {
    MetaItem { key: key.to_string(), value }
}

fn sumtype_attr_decl(items: Vec<MetaItem>) -> AttrDecl {
    AttrDecl { path: "sumtype".to_string(), items }
}

fn variant(ident: &str, attrs: Vec<AttrDecl>, fields: FieldsDecl) -> VariantDecl {
    VariantDecl { ident: ident.to_string(), attrs, fields }
}

fn payload(ty: &str) -> FieldsDecl {
    FieldsDecl::Unnamed(vec![ty.to_string()])
}

fn enum_decl(ident: &str, type_params: Vec<&str>, variants: Vec<VariantDecl>) -> Decl {
    Decl::Enum(EnumDecl {
        ident: ident.to_string(),
        type_params: type_params.into_iter().map(|t| t.to_string()).collect(),
        lifetimes: Vec::new(),
        variants,
    })
}

fn value(variant: &str, payload: u64) -> UnionValue {
    UnionValue { variant: variant.to_string(), payload: Some(payload) }
}

fn op_named<'a>(g: &'a Generated, name: &str) -> Option<&'a OpDef> {
    g.ops.iter().find(|o| o.name == name)
}

/// The declaration the derive tests in this file share: a five-variant sum
/// type exercising per-variant overrides, an opt-in grouped conversion and
/// an ignored variant.
fn my_sum_derive() -> Decl {
    enum_decl(
        "MySumDerive",
        vec![],
        vec![
            variant(
                "Int",
                vec![sumtype_attr_decl(vec![item("is", MetaValue::Bool(false))])],
                payload("i64"),
            ),
            variant(
                "Float",
                vec![sumtype_attr_decl(vec![
                    item("as_mut", MetaValue::Bool(false)),
                    item("try_into", MetaValue::Bool(false)),
                ])],
                payload("f64"),
            ),
            variant("String", vec![], payload("String")),
            variant(
                "Bool",
                vec![sumtype_attr_decl(vec![item("impl_try_into", MetaValue::Bare)])],
                payload("bool"),
            ),
            variant(
                "Not",
                vec![sumtype_attr_decl(vec![item("ignore", MetaValue::Bare)])],
                FieldsDecl::Unit,
            ),
        ],
    )
}

#[test]
fn my_sum_derive_try_into() {
    let g = sumtype_attr(Attrs::defaults(), &my_sum_derive()).unwrap();
    assert!(op_named(&g, "try_into_string").is_some());
    let v = value("Int", 64);
    let r = eval_try_into(&v, "MySumDerive", "String");
    assert_eq!(r, Err(TryIntoError::new("MySumDerive", "Int", "String")));
    let group = g
        .try_into_impls
        .iter()
        .find(|t| t.payload_ty == "bool")
        .unwrap();
    let k = eval_try_into_group(&v, "MySumDerive", group);
    assert_eq!(k, Err(TryIntoError::new("MySumDerive", "Int", "Bool")));
}

#[test]
fn test_derive_typed() {
    let decl = enum_decl(
        "MySumDeriveTyped",
        vec!["T"],
        vec![variant("A", vec![], payload("T"))],
    );
    let g = sumtype_attr(Attrs::defaults(), &decl).unwrap();
    assert!(op_named(&g, "as_a").is_some());
    let val = value("A", 6);
    assert_eq!(eval_as(&val, "A").unwrap(), 6);
}

#[test]
fn test_lifetime_deser() {
    let decl = Decl::Enum(EnumDecl {
        ident: "MySumDeriveLifetimed".to_string(),
        type_params: Vec::new(),
        lifetimes: vec!["a".to_string()],
        variants: vec![variant("A", vec![], payload("&'a i32"))],
    });
    let g = sumtype_attr(Attrs::defaults(), &decl).unwrap();
    assert!(op_named(&g, "as_a").is_some());
    let val = value("A", 5);
    assert_eq!(eval_as(&val, "A").unwrap(), 5);
}

#[test]
fn derive_skips_overridden_capabilities() {
    let g = sumtype_attr(Attrs::defaults(), &my_sum_derive()).unwrap();
    // Int opted out of the predicate, Float of the mutable accessor and the
    // fallible owned conversion, Not of everything.
    assert!(op_named(&g, "is_int").is_none());
    assert!(op_named(&g, "try_into_int").is_some());
    assert!(op_named(&g, "as_float_mut").is_none());
    assert!(op_named(&g, "try_into_float").is_none());
    assert!(op_named(&g, "as_float").is_some());
    assert!(op_named(&g, "is_not").is_none());
    assert!(op_named(&g, "as_not").is_none());
    // The stripped declaration keeps all five variants for exhaustive
    // matching, with the configuration attributes consumed.
    assert_eq!(g.stripped.variants.len(), 5);
    assert!(g.stripped.variants.iter().all(|v| v.attrs.is_empty()));
}

#[test]
fn snake_case_names() {
    let decl = enum_decl(
        "MySum",
        vec![],
        vec![variant("MyVariantName", vec![], payload("i64"))],
    );
    let g = sumtype_attr(Attrs::defaults(), &decl).unwrap();
    assert!(op_named(&g, "as_my_variant_name").is_some());
    assert!(op_named(&g, "as_my_variant_name_mut").is_some());
    assert!(op_named(&g, "into_my_variant_name").is_some());
    assert!(op_named(&g, "is_my_variant_name").is_some());
    assert!(op_named(&g, "try_into_my_variant_name").is_some());
    assert!(op_named(&g, "try_as_my_variant_name").is_some());
    assert!(op_named(&g, "try_as_my_variant_name_mut").is_some());
    assert_eq!(op_named(&g, "is_my_variant_name").unwrap().kind, OpKind::Predicate);
}

#[test]
fn accessors_agree_on_success_and_failure() {
    let v = value("Int", 64);
    assert!(eval_is(&v, "Int"));
    assert!(!eval_is(&v, "Bool"));
    assert_eq!(eval_as(&v, "Int"), Some(64));
    assert_eq!(eval_as(&v, "Bool"), None);
    assert_eq!(eval_into(value("Int", 64), "Int"), Some(64));
    assert_eq!(eval_into(value("Int", 64), "Bool"), None);
    assert_eq!(eval_try_into(&v, "MySum", "Int"), Ok(64));
    assert!(eval_try_into(&v, "MySum", "Bool").is_err());
}

#[test]
fn predicate_is_idempotent() {
    let v = value("Int", 64);
    let first = eval_is(&v, "Int");
    let second = eval_is(&v, "Int");
    assert_eq!(first, second);
    let first = eval_is(&v, "Bool");
    let second = eval_is(&v, "Bool");
    assert_eq!(first, second);
}

#[test]
fn round_trip_through_reverse_conversion() {
    let u = eval_from("Int", 64);
    assert_eq!(eval_try_into(&u, "MySum", "Int"), Ok(64));
    let u = eval_from("Bool", 1);
    assert_eq!(eval_try_into(&u, "MySum", "Bool"), Ok(1));
}

#[test]
fn mismatch_reports_each_other_variant() {
    // From every other variant of a three-variant union, the mismatch
    // branch is reached and names the true variant.
    for other in ["B", "C"] {
        let v = value(other, 9);
        let r = eval_try_into(&v, "Tri", "A");
        assert_eq!(r, Err(TryIntoError::new("Tri", other, "A")));
    }
    assert_eq!(eval_try_into(&value("A", 9), "Tri", "A"), Ok(9));
}

#[test]
fn duplicate_from_candidates_rejected() {
    let dup = enum_decl(
        "MySum",
        vec![],
        vec![
            variant("A", vec![], payload("i64")),
            variant("B", vec![], payload("i64")),
        ],
    );
    let r = sumtype_attr(Attrs::defaults(), &dup);
    match r {
        Err(GenError::DuplicateFromCandidate { ty }) => assert_eq!(ty, "i64"),
        other => panic!("expected a duplicate-candidate conflict, got {:?}", other.map(|_| ())),
    }
    // Disabling the reverse conversion on one variant makes generation
    // succeed.
    let fixed = enum_decl(
        "MySum",
        vec![],
        vec![
            variant("A", vec![], payload("i64")),
            variant(
                "B",
                vec![sumtype_attr_decl(vec![item("from", MetaValue::Bool(false))])],
                payload("i64"),
            ),
        ],
    );
    let g = sumtype_attr(Attrs::defaults(), &fixed).unwrap();
    assert_eq!(g.from_impls.len(), 1);
    assert_eq!(g.from_impls[0].variant, "A");
}

#[test]
fn multiple_generic_from_candidates_rejected() {
    let decl = enum_decl(
        "Either",
        vec!["L", "R"],
        vec![
            variant("Left", vec![], payload("L")),
            variant("Right", vec![], payload("R")),
        ],
    );
    let r = sumtype_attr(Attrs::defaults(), &decl);
    match r {
        Err(GenError::MultipleGenericFrom { ty }) => assert_eq!(ty, "R"),
        other => panic!("expected a generic conflict, got {:?}", other.map(|_| ())),
    }
}

#[test]
fn bucketed_conversion_joins_expected_label() {
    let mut defaults = Attrs::defaults();
    defaults.add_from_impl = false;
    let decl = enum_decl(
        "MySum",
        vec![],
        vec![
            variant(
                "A",
                vec![sumtype_attr_decl(vec![item("impl_try_into", MetaValue::Bare)])],
                payload("i64"),
            ),
            variant("B", vec![], payload("bool")),
            variant(
                "C",
                vec![sumtype_attr_decl(vec![item("impl_try_into", MetaValue::Bare)])],
                payload("i64"),
            ),
        ],
    );
    let g = sumtype_attr(defaults, &decl).unwrap();
    assert_eq!(g.try_into_impls.len(), 1);
    let group = &g.try_into_impls[0];
    assert_eq!(group.payload_ty, "i64");
    assert_eq!(group.variants, vec!["A".to_string(), "C".to_string()]);
    assert_eq!(group.expected, "A | C");
    let b = value("B", 1);
    let r = eval_try_into_group(&b, "MySum", group);
    assert_eq!(r, Err(TryIntoError::new("MySum", "B", "A | C")));
    let a = value("A", 7);
    assert_eq!(eval_try_into_group(&a, "MySum", group), Ok(7));
    let c = value("C", 8);
    assert_eq!(eval_try_into_group(&c, "MySum", group), Ok(8));
}

#[test]
fn generics_disable_grouped_conversion_at_enum_level() {
    let decl = enum_decl(
        "Typed",
        vec!["T"],
        vec![variant("A", vec![], payload("T"))],
    );
    let mut attrs = Attrs::defaults();
    attrs.add_try_into_impl = true;
    let g = sumtype_attr(attrs, &decl).unwrap();
    assert!(g.try_into_impls.is_empty());
}

#[test]
fn only_selects_exactly_one_capability() {
    let decl = enum_decl(
        "MySum",
        vec![],
        vec![variant(
            "A",
            vec![sumtype_attr_decl(vec![item(
                "only",
                MetaValue::Ident("as".to_string()),
            )])],
            payload("i64"),
        )],
    );
    let g = sumtype_attr(Attrs::defaults(), &decl).unwrap();
    assert_eq!(g.ops.len(), 1);
    assert_eq!(g.ops[0].name, "as_a");
    assert_eq!(g.ops[0].kind, OpKind::RefAccessor);
    assert!(g.from_impls.is_empty());
    assert!(g.try_into_impls.is_empty());
}

#[test]
fn variant_level_overrides_enum_level() {
    // The enum level switches everything off; the variant switches the
    // predicate back on, so exactly the predicate is generated for it.
    let attrs = Attrs::uniform(false);
    let decl = enum_decl(
        "MySum",
        vec![],
        vec![
            variant(
                "A",
                vec![sumtype_attr_decl(vec![item("is", MetaValue::Bare)])],
                payload("i64"),
            ),
            variant("B", vec![], payload("bool")),
        ],
    );
    let g = sumtype_attr(attrs, &decl).unwrap();
    assert_eq!(g.ops.len(), 1);
    assert_eq!(g.ops[0].name, "is_a");
    assert_eq!(g.ops[0].kind, OpKind::Predicate);
}

#[test]
fn predicate_only_accepts_unit_variant() {
    let attrs = Attrs::uniform(false);
    let decl = enum_decl(
        "MySum",
        vec![],
        vec![variant(
            "Empty",
            vec![sumtype_attr_decl(vec![item("is", MetaValue::Bare)])],
            FieldsDecl::Unit,
        )],
    );
    let g = sumtype_attr(attrs, &decl).unwrap();
    assert_eq!(g.ops.len(), 1);
    assert_eq!(g.ops[0].name, "is_empty");
}

#[test]
fn unit_variant_beyond_predicate_rejected() {
    let decl = enum_decl(
        "MySum",
        vec![],
        vec![variant("Empty", vec![], FieldsDecl::Unit)],
    );
    let r = sumtype_attr(Attrs::defaults(), &decl);
    match r {
        Err(GenError::InvalidVariantShape { variant }) => assert_eq!(variant, "Empty"),
        other => panic!("expected a shape error, got {:?}", other.map(|_| ())),
    }
}

#[test]
fn named_fields_variant_rejected() {
    let decl = enum_decl(
        "MySum",
        vec![],
        vec![variant("Rec", vec![], FieldsDecl::Named)],
    );
    let r = sumtype_attr(Attrs::defaults(), &decl);
    assert!(matches!(r, Err(GenError::InvalidVariantShape { .. })));
}

#[test]
fn two_payload_fields_rejected() {
    let decl = enum_decl(
        "MySum",
        vec![],
        vec![variant(
            "Pair",
            vec![],
            FieldsDecl::Unnamed(vec!["i64".to_string(), "i64".to_string()]),
        )],
    );
    let r = sumtype_attr(Attrs::defaults(), &decl);
    assert!(matches!(r, Err(GenError::InvalidVariantShape { .. })));
}

#[test]
fn all_variants_ignored_rejected() {
    let decl = enum_decl(
        "MySum",
        vec![],
        vec![variant(
            "A",
            vec![sumtype_attr_decl(vec![item("ignore", MetaValue::Bare)])],
            payload("i64"),
        )],
    );
    assert!(matches!(sumtype_attr(Attrs::defaults(), &decl), Err(GenError::NothingToDo)));
}

#[test]
fn non_enum_rejected() {
    assert!(matches!(sumtype_attr(Attrs::defaults(), &Decl::Struct), Err(GenError::NotAnEnum)));
    assert!(matches!(sumtype_attr(Attrs::defaults(), &Decl::Union), Err(GenError::NotAnEnum)));
}

#[test]
fn unknown_token_rejected() {
    let decl = enum_decl(
        "MySum",
        vec![],
        vec![variant(
            "A",
            vec![sumtype_attr_decl(vec![item("blorp", MetaValue::Bare)])],
            payload("i64"),
        )],
    );
    let r = sumtype_attr(Attrs::defaults(), &decl);
    match r {
        Err(GenError::UnknownToken { token }) => assert_eq!(token, "blorp"),
        other => panic!("expected an unknown-token error, got {:?}", other.map(|_| ())),
    }
}

#[test]
fn only_with_unknown_capability_rejected() {
    let decl = enum_decl(
        "MySum",
        vec![],
        vec![variant(
            "A",
            vec![sumtype_attr_decl(vec![item(
                "only",
                MetaValue::Ident("blorp".to_string()),
            )])],
            payload("i64"),
        )],
    );
    let r = sumtype_attr(Attrs::defaults(), &decl);
    match r {
        Err(GenError::UnknownToken { token }) => assert_eq!(token, "blorp"),
        other => panic!("expected an unknown-token error, got {:?}", other.map(|_| ())),
    }
}

#[test]
fn string_value_on_capability_rejected() {
    let decl = enum_decl(
        "MySum",
        vec![],
        vec![variant(
            "A",
            vec![sumtype_attr_decl(vec![item(
                "is",
                MetaValue::Str("yes".to_string()),
            )])],
            payload("i64"),
        )],
    );
    let r = sumtype_attr(Attrs::defaults(), &decl);
    match r {
        Err(GenError::InvalidValue { token }) => assert_eq!(token, "is"),
        other => panic!("expected an invalid-value error, got {:?}", other.map(|_| ())),
    }
}

#[test]
fn bucketise_by_groups_in_order() {
    let input = vec![
        ("i64".to_string(), "A".to_string()),
        ("bool".to_string(), "B".to_string()),
        ("i64".to_string(), "C".to_string()),
    ];
    let buckets = bucketise_by(input);
    assert_eq!(buckets.len(), 2);
    assert_eq!(buckets[0].0, "i64");
    assert_eq!(buckets[0].1, vec!["A".to_string(), "C".to_string()]);
    assert_eq!(buckets[1].0, "bool");
    assert_eq!(buckets[1].1, vec!["B".to_string()]);
}

#[test]
fn bucketise_by_empty_input() {
    let buckets = bucketise_by(Vec::new());
    assert!(buckets.is_empty());
}

#[test]
fn later_sumtype_attributes_are_left_alone() {
    // Only the first `sumtype` attribute of a scope configures it.
    let decl = enum_decl(
        "MySum",
        vec![],
        vec![variant(
            "A",
            vec![
                sumtype_attr_decl(vec![item("is", MetaValue::Bool(false))]),
                sumtype_attr_decl(vec![item("blorp", MetaValue::Bare)]),
            ],
            payload("i64"),
        )],
    );
    let g = sumtype_attr(Attrs::defaults(), &decl).unwrap();
    assert!(op_named(&g, "is_a").is_none());
    assert!(op_named(&g, "as_a").is_some());
}

#[test]
fn foreign_attributes_survive_stripping() {
    let decl = enum_decl(
        "MySum",
        vec![],
        vec![variant(
            "A",
            vec![
                AttrDecl { path: "serde".to_string(), items: vec![] },
                sumtype_attr_decl(vec![item("is", MetaValue::Bool(false))]),
            ],
            payload("i64"),
        )],
    );
    let g = sumtype_attr(Attrs::defaults(), &decl).unwrap();
    assert_eq!(g.stripped.variants[0].attrs.len(), 1);
    assert_eq!(g.stripped.variants[0].attrs[0].path, "serde");
}
