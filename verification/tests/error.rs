use typesum::error::GenError;
use typesum::AnyTryIntoError;
use typesum::TryIntoError;

#[test]
fn new_carries_all_three_labels() {
    let err = AnyTryIntoError::new("s", "a", "e");
    assert_eq!(err.source(), "s");
    assert_eq!(err.actual(), "a");
    assert_eq!(err.expected(), "e");
}

#[test]
fn equality_is_structural() {
    let a = AnyTryIntoError::new("MySum", "B", "I");
    let b = AnyTryIntoError::new("MySum", "B", "I");
    let c = AnyTryIntoError::new("MySum", "I", "B");
    assert_eq!(a, b);
    assert!(a != c);
    assert_eq!(a.clone(), b);
}

#[test]
fn forget_source_keeps_the_labels() {
    let err: TryIntoError<u8> = TryIntoError::new("BetterResult", "Aight", "Messed");
    let forgotten = err.forget_source();
    assert_eq!(forgotten, AnyTryIntoError::new("BetterResult", "Aight", "Messed"));
    assert_eq!(forgotten.source(), "BetterResult");
    assert_eq!(forgotten.actual(), "Aight");
    assert_eq!(forgotten.expected(), "Messed");
}

#[test]
fn message_renders_the_diagnostic_line() {
    let err = AnyTryIntoError::new("MySum", "B", "I");
    assert_eq!(err.message(), "sumtype 'MySum': variant 'I' expected but was 'B'");
}

#[test]
fn gen_error_messages_name_the_context() {
    assert_eq!(GenError::NotAnEnum.message(), "sumtype can only act on enums");
    let unknown = GenError::UnknownToken { token: "blorp".to_string() };
    assert_eq!(
        unknown.message(),
        "property 'blorp' not recognised. must be one of: as into is as_mut try_into impl_try_into try_as try_as_mut from",
    );
    let invalid = GenError::InvalidValue { token: "only".to_string() };
    assert_eq!(invalid.message(), "invalid value for property 'only'");
    let shape = GenError::InvalidVariantShape { variant: "Rec".to_string() };
    assert_eq!(shape.message(), "variant 'Rec' must carry exactly one unnamed payload field");
    let dup = GenError::DuplicateFromCandidate { ty: "i64".to_string() };
    assert_eq!(
        dup.message(),
        "multiple valid From candidates found for 'i64'. You need to explicitly disable the ones you don't want with #[sumtype(from = false)]",
    );
    let generic = GenError::MultipleGenericFrom { ty: "R".to_string() };
    assert_eq!(
        generic.message(),
        "multiple type parameters with From implementations found, these will conflict, starting at 'R'. You need to explicitly disable the ones you don't want with #[sumtype(from = false)]",
    );
}

#[test]
fn kinded_errors_speak_for_the_kind_engine() {
    assert_eq!(GenError::KindedNotAnEnum.message(), "kinded only works on enums");
    let unknown = GenError::KindedUnknownToken { token: "nope".to_string() };
    assert_eq!(
        unknown.message(),
        "invalid argument 'nope'. must be one of: name kind_fn no_kind_fn",
    );
}
