//! The two error taxonomies of the engine.
//!
//! [`GenError`] is a generation-time error: a configuration, shape or
//! conflict problem that aborts generation for one declaration.
//! [`TryIntoError`] is the runtime error value returned by every fallible
//! conversion that the engine derives on a sum type.

use core::marker::PhantomData;
use vstd::prelude::*;
use vstd::string::StringExecFns;

verus! {

/// Mathematical view of a conversion error: the three diagnostic labels.
pub ghost struct TryIntoErrorView {
    /// Type name of the sum type the conversion was attempted on.
    pub source: Seq<char>,
    /// Name of the variant the value actually held.
    pub actual: Seq<char>,
    /// Name of the variant (or joined variant group) the conversion wanted.
    pub expected: Seq<char>,
}

/// Error type for the fallible conversions derived on a sum type.
///
/// A value carries the sum type's name, the variant the value actually held,
/// and the variant the conversion expected, so a caller can build a full
/// diagnostic without re-deriving any of it. The `Source` parameter ties the
/// error to the sum type it came from at the type level only; it carries no
/// data, and [`TryIntoError::forget_source`] erases it.
#[derive(Debug, Eq, PartialOrd, Ord, Hash)]
pub struct TryIntoError<Source> {
    discrim: PhantomData<Source>,
    source: String,
    actual: String,
    expected: String,
}

/// A [`TryIntoError`] that has forgotten, at the type level, which sum type
/// it came from; see [`TryIntoError::forget_source`].
pub type AnyTryIntoError = TryIntoError<()>;

impl<Source> View for TryIntoError<Source> {
    type V = TryIntoErrorView;

    closed spec fn view(&self) -> TryIntoErrorView {
        TryIntoErrorView { source: self.source@, actual: self.actual@, expected: self.expected@ }
    }
}

impl<Source> TryIntoError<Source> {
    /// Creates a conversion error from the sum type's name, the variant the
    /// value actually held, and the variant the conversion expected.
    pub fn new(source: &str, actual: &str, expected: &str) -> (r: Self)
        ensures
            r@ == (TryIntoErrorView { source: source@, actual: actual@, expected: expected@ }),
    {
        TryIntoError {
            discrim: PhantomData,
            source: source.to_owned(),
            actual: actual.to_owned(),
            expected: expected.to_owned(),
        }
    }

    /// The type name of the sum type the failed conversion was derived on.
    pub fn source(&self) -> (r: &str)
        ensures
            r@ == self@.source,
    {
        self.source.as_str()
    }

    /// The variant the value actually held when the conversion failed.
    pub fn actual(&self) -> (r: &str)
        ensures
            r@ == self@.actual,
    {
        self.actual.as_str()
    }

    /// The variant the failed conversion expected the value to hold.
    pub fn expected(&self) -> (r: &str)
        ensures
            r@ == self@.expected,
    {
        self.expected.as_str()
    }

    /// Erases the `Source` type binding while keeping all three labels
    /// unchanged, so errors from different sum types can be aggregated
    /// behind one type.
    pub fn forget_source(self) -> (r: AnyTryIntoError)
        ensures
            r@ == self@,
    {
        TryIntoError { discrim: PhantomData, source: self.source, actual: self.actual, expected: self.expected }
    }

    /// Renders the error as
    /// `sumtype '<source>': variant '<expected>' expected but was '<actual>'`.
    pub fn message(&self) -> (r: String)
        ensures
            r@ == spec_message(self@),
    {
        let mut r = "sumtype '".to_owned();
        r.append(self.source.as_str());
        r.append("': variant '");
        r.append(self.expected.as_str());
        r.append("' expected but was '");
        r.append(self.actual.as_str());
        r.append("'");
        r
    }
}

/// The rendering of a conversion error as one diagnostic line.
pub open spec fn spec_message(v: TryIntoErrorView) -> Seq<char> {
    "sumtype '"@ + v.source + "': variant '"@ + v.expected + "' expected but was '"@ + v.actual
        + "'"@
}

impl<Source> Clone for TryIntoError<Source> {
    /// A clone keeps all three labels.
    fn clone(&self) -> (r: Self)
        ensures
            r@ == self@,
    {
        TryIntoError {
            discrim: PhantomData,
            source: self.source.clone(),
            actual: self.actual.clone(),
            expected: self.expected.clone(),
        }
    }
}

impl<Source> PartialEq for TryIntoError<Source> {
    /// Equality is structural on the three labels.
    fn eq(&self, other: &Self) -> (r: bool) {
        self.source == other.source && self.actual == other.actual && self.expected
            == other.expected
    }
}

impl<Source> vstd::std_specs::cmp::PartialEqSpecImpl for TryIntoError<Source> {
    open spec fn obeys_eq_spec() -> bool {
        true
    }

    open spec fn eq_spec(&self, other: &Self) -> bool {
        self@ == other@
    }
}

/// A generation-time error: fatal to the one declaration being processed,
/// and carrying enough context to pinpoint the fix.
#[derive(Debug)]
pub enum GenError {
    /// The declaration handed to the sum-type engine is not an enum.
    NotAnEnum,
    /// A configuration token was not recognised; carries the invalid token.
    UnknownToken {
        /// The token that was not recognised.
        token: String,
    },
    /// A configuration token's value has the wrong shape, such as a string
    /// where a boolean or an identifier is needed; carries the token.
    InvalidValue {
        /// The token whose value has the wrong shape.
        token: String,
    },
    /// A variant asked for more than the predicate capability but does not
    /// carry exactly one unnamed payload field; carries the variant's name.
    InvalidVariantShape {
        /// The offending variant's identifier.
        variant: String,
    },
    /// Every declared variant resolved to no capabilities at all, so the
    /// annotation would generate nothing.
    NothingToDo,
    /// More than one reverse-conversion candidate names a payload type that
    /// is one of the enum's own type parameters; carries the second such
    /// payload type.
    MultipleGenericFrom {
        /// The payload type of the second type-parameter candidate.
        ty: String,
    },
    /// Two reverse-conversion candidates name the same payload type, so the
    /// two conversion implementations would collide; carries that type.
    DuplicateFromCandidate {
        /// The payload type the candidates share.
        ty: String,
    },
    /// The declaration handed to the kind engine is not an enum; the kind
    /// engine rejects it in its own words.
    KindedNotAnEnum,
    /// An argument of the kind engine was not recognised; carries the
    /// invalid token. The kind engine knows `name`, `kind_fn` and
    /// `no_kind_fn` only.
    KindedUnknownToken {
        /// The token that was not recognised.
        token: String,
    },
}

/// View of [`GenError`].
pub ghost enum GenErrorView {
    NotAnEnum,
    UnknownToken { token: Seq<char> },
    InvalidValue { token: Seq<char> },
    InvalidVariantShape { variant: Seq<char> },
    NothingToDo,
    MultipleGenericFrom { ty: Seq<char> },
    DuplicateFromCandidate { ty: Seq<char> },
    KindedNotAnEnum,
    KindedUnknownToken { token: Seq<char> },
}

impl View for GenError {
    type V = GenErrorView;

    open spec fn view(&self) -> GenErrorView {
        match self {
            GenError::NotAnEnum => GenErrorView::NotAnEnum,
            GenError::UnknownToken { token } => GenErrorView::UnknownToken { token: token@ },
            GenError::InvalidValue { token } => GenErrorView::InvalidValue { token: token@ },
            GenError::InvalidVariantShape { variant } => GenErrorView::InvalidVariantShape {
                variant: variant@,
            },
            GenError::NothingToDo => GenErrorView::NothingToDo,
            GenError::MultipleGenericFrom { ty } => GenErrorView::MultipleGenericFrom { ty: ty@ },
            GenError::DuplicateFromCandidate { ty } => GenErrorView::DuplicateFromCandidate {
                ty: ty@,
            },
            GenError::KindedNotAnEnum => GenErrorView::KindedNotAnEnum,
            GenError::KindedUnknownToken { token } => GenErrorView::KindedUnknownToken {
                token: token@,
            },
        }
    }
}

/// The view of a generation result: the error, if any, replaced by its view.
pub open spec fn gen_result_view<T>(r: Result<T, GenError>) -> Result<T, GenErrorView> {
    match r {
        Ok(t) => Ok(t),
        Err(e) => Err(e@),
    }
}

/// The rendering of a generation-time error as one diagnostic line; the two
/// conflict errors carry the remediation advice, since they need an explicit
/// disable rather than an obvious default.
pub open spec fn spec_gen_message(v: GenErrorView) -> Seq<char> {
    match v {
        GenErrorView::NotAnEnum => "sumtype can only act on enums"@,
        GenErrorView::UnknownToken { token } => "property '"@ + token
            + "' not recognised. must be one of: as into is as_mut try_into impl_try_into try_as try_as_mut from"@,
        GenErrorView::InvalidValue { token } => "invalid value for property '"@ + token + "'"@,
        GenErrorView::InvalidVariantShape { variant } => "variant '"@ + variant
            + "' must carry exactly one unnamed payload field"@,
        GenErrorView::NothingToDo => "this sumtype annotation won't do anything, try adding some options like #[sumtype(all = false, is = true)]"@,
        GenErrorView::MultipleGenericFrom { ty } => "multiple type parameters with From implementations found, these will conflict, starting at '"@
            + ty + "'. "@ + disable_advice(),
        GenErrorView::DuplicateFromCandidate { ty } => "multiple valid From candidates found for '"@
            + ty + "'. "@ + disable_advice(),
        GenErrorView::KindedNotAnEnum => "kinded only works on enums"@,
        GenErrorView::KindedUnknownToken { token } => "invalid argument '"@ + token
            + "'. must be one of: name kind_fn no_kind_fn"@,
    }
}

/// The remediation advice attached to the two conflict errors.
pub open spec fn disable_advice() -> Seq<char> {
    "You need to explicitly disable the ones you don't want with #[sumtype(from = false)]"@
}

impl GenError {
    /// Renders the error as one diagnostic line; the two conflict errors end
    /// with the advice to disable the offending capability explicitly.
    pub fn message(&self) -> (r: String)
        ensures
            r@ == spec_gen_message(self@),
    {
        match self {
            GenError::NotAnEnum => "sumtype can only act on enums".to_owned(),
            GenError::UnknownToken { token } => {
                let mut r = "property '".to_owned();
                r.append(token.as_str());
                r.append(
                    "' not recognised. must be one of: as into is as_mut try_into impl_try_into try_as try_as_mut from",
                );
                r
            },
            GenError::InvalidValue { token } => {
                let mut r = "invalid value for property '".to_owned();
                r.append(token.as_str());
                r.append("'");
                r
            },
            GenError::InvalidVariantShape { variant } => {
                let mut r = "variant '".to_owned();
                r.append(variant.as_str());
                r.append("' must carry exactly one unnamed payload field");
                r
            },
            GenError::NothingToDo => "this sumtype annotation won't do anything, try adding some options like #[sumtype(all = false, is = true)]".to_owned(),
            GenError::MultipleGenericFrom { ty } => {
                let mut r =
                    "multiple type parameters with From implementations found, these will conflict, starting at '".to_owned();
                r.append(ty.as_str());
                r.append("'. ");
                r.append(
                    "You need to explicitly disable the ones you don't want with #[sumtype(from = false)]",
                );
                r
            },
            GenError::DuplicateFromCandidate { ty } => {
                let mut r = "multiple valid From candidates found for '".to_owned();
                r.append(ty.as_str());
                r.append("'. ");
                r.append(
                    "You need to explicitly disable the ones you don't want with #[sumtype(from = false)]",
                );
                r
            },
            GenError::KindedNotAnEnum => "kinded only works on enums".to_owned(),
            GenError::KindedUnknownToken { token } => {
                let mut r = "invalid argument '".to_owned();
                r.append(token.as_str());
                r.append("'. must be one of: name kind_fn no_kind_fn");
                r
            },
        }
    }
}

} // verus!
