use typesum::decl::Decl;
use typesum::decl::EnumDecl;
use typesum::decl::FieldsDecl;
use typesum::decl::MetaItem;
use typesum::decl::MetaValue;
use typesum::decl::VariantDecl;
use typesum::error::GenError;
use typesum::kinded::kinded_macro;
use typesum::kinded::Attrs;
use typesum::runtime::eval_kind;
use typesum::runtime::UnionValue;

fn sauce() -> Decl {
    Decl::Enum(EnumDecl {
        ident: "Sauce".to_string(),
        type_params: Vec::new(),
        lifetimes: Vec::new(),
        variants: vec![
            VariantDecl {
                ident: "Ketchup".to_string(),
                attrs: Vec::new(),
                fields: FieldsDecl::Unnamed(vec!["Ketchup".to_string()]),
            },
            VariantDecl {
                ident: "Vinegar".to_string(),
                attrs: Vec::new(),
                fields: FieldsDecl::Unit,
            },
            VariantDecl {
                ident: "Brown".to_string(),
                attrs: Vec::new(),
                fields: FieldsDecl::Named,
            },
        ],
    })
}

#[test]
fn derives_kind_enum_and_function_names() {
    let out = kinded_macro(Attrs::default(), &sauce()).unwrap();
    assert_eq!(out.kind_name, "SauceKind");
    assert_eq!(out.kind_fn.as_deref(), Some("kind"));
    assert_eq!(
        out.kinds,
        vec!["Ketchup".to_string(), "Vinegar".to_string(), "Brown".to_string()],
    );
}

#[test]
fn name_and_function_overrides() {
    let attrs = Attrs {
        name: Some("Flavour".to_string()),
        kind_fn: Some("flavour_of".to_string()),
        no_kind_fn: false,
    };
    let out = kinded_macro(attrs, &sauce()).unwrap();
    assert_eq!(out.kind_name, "Flavour");
    assert_eq!(out.kind_fn.as_deref(), Some("flavour_of"));
}

#[test]
fn kind_function_can_be_opted_out() {
    let attrs = Attrs { name: None, kind_fn: None, no_kind_fn: true };
    let out = kinded_macro(attrs, &sauce()).unwrap();
    assert_eq!(out.kind_name, "SauceKind");
    assert!(out.kind_fn.is_none());
}

#[test]
fn kinded_rejects_non_enums() {
    let r = kinded_macro(Attrs::default(), &Decl::Struct);
    match r {
        Err(e) => {
            assert!(matches!(e, GenError::KindedNotAnEnum));
            assert_eq!(e.message(), "kinded only works on enums");
        },
        Ok(_) => panic!("expected the kind engine to reject a struct"),
    }
}

#[test]
fn kinded_attrs_parse_their_tokens() {
    let a = Attrs::default();
    let a = a
        .apply_item(&MetaItem {
            key: "name".to_string(),
            value: MetaValue::Str("MyKind".to_string()),
        })
        .unwrap();
    assert_eq!(a.name.as_deref(), Some("MyKind"));
    let a = a
        .apply_item(&MetaItem {
            key: "kind_fn".to_string(),
            value: MetaValue::Str("tag".to_string()),
        })
        .unwrap();
    assert_eq!(a.kind_fn.as_deref(), Some("tag"));
    let a = a
        .apply_item(&MetaItem { key: "no_kind_fn".to_string(), value: MetaValue::Bare })
        .unwrap();
    assert!(a.no_kind_fn);
    let bad = Attrs::default().apply_item(&MetaItem {
        key: "nope".to_string(),
        value: MetaValue::Bare,
    });
    match bad {
        Err(GenError::KindedUnknownToken { token }) => assert_eq!(token, "nope"),
        other => panic!("expected an unknown-token error, got {:?}", other.map(|_| ())),
    }
    let bad = a.apply_item(&MetaItem { key: "name".to_string(), value: MetaValue::Bare });
    assert!(matches!(bad, Err(GenError::InvalidValue { .. })));
}

#[test]
fn every_value_maps_to_its_own_tag() {
    for name in ["Ketchup", "Vinegar", "Brown"] {
        let v = UnionValue { variant: name.to_string(), payload: None };
        assert_eq!(eval_kind(&v), name);
    }
}
