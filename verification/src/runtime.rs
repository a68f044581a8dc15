//! The runtime meaning of the generated operations.
//!
//! A value of a sum type is modelled by [`UnionValue`]: the variant it
//! currently holds and that variant's payload, payloads standing in as
//! plain tokens. Each evaluator here gives one generated family its exact
//! runtime behaviour — what the accessor, predicate, conversion and
//! reverse conversion return on every value — and the laws at the end
//! hold any result meeting those contracts to the behaviour the engine
//! promises.

use crate::error::AnyTryIntoError;
use crate::error::TryIntoError;
use crate::error::TryIntoErrorView;
use crate::synth::TryIntoImpl;
use crate::synth::TryIntoImplView;
use crate::text::str_eq;
use crate::text::vec_contains_str;
use vstd::prelude::*;
use vstd::string::StringExecFns;

verus! {

/// A runtime value of a sum type: the variant it holds and that variant's
/// payload, if the variant carries one.
pub struct UnionValue {
    /// The identifier of the variant the value holds.
    pub variant: String,
    /// The payload carried by that variant, or nothing for a tag-only
    /// variant.
    pub payload: Option<u64>,
}

/// View of [`UnionValue`].
pub ghost struct UnionValueView {
    pub variant: Seq<char>,
    pub payload: Option<u64>,
}

impl View for UnionValue {
    type V = UnionValueView;

    open spec fn view(&self) -> UnionValueView {
        UnionValueView { variant: self.variant@, payload: self.payload }
    }
}

/// What the predicate `is_{n}` returns: whether the value holds the
/// variant.
pub open spec fn spec_is(v: UnionValueView, target: Seq<char>) -> bool {
    v.variant == target
}

/// What the accessors `as_{n}`, `as_{n}_mut` and `into_{n}` reach: the
/// payload exactly when the value holds the variant.
pub open spec fn spec_accessor(v: UnionValueView, target: Seq<char>) -> Option<u64> {
    if v.variant == target {
        v.payload
    } else {
        None
    }
}

/// What the grouped conversion reaches: the payload exactly when the value
/// holds one of the group's variants.
pub open spec fn spec_group_accessor(v: UnionValueView, variants: Seq<Seq<char>>) -> Option<
    u64,
> {
    if variants.contains(v.variant) {
        v.payload
    } else {
        None
    }
}

/// The view of a fallible conversion's result.
pub open spec fn try_result_view(r: Result<u64, AnyTryIntoError>) -> Result<
    u64,
    TryIntoErrorView,
> {
    match r {
        Ok(p) => Ok(p),
        Err(e) => Err(e@),
    }
}

/// The contract of every fallible conversion `try_into_{n}`, `try_as_{n}`
/// and `try_as_{n}_mut`: the payload on a match, and otherwise an error
/// naming the sum type, the variant actually held, and the variant
/// expected.
pub open spec fn try_post(
    v: UnionValueView,
    source: Seq<char>,
    target: Seq<char>,
    r: Result<u64, TryIntoErrorView>,
) -> bool {
    match r {
        Ok(p) => spec_accessor(v, target) == Some(p),
        Err(e) => {
            &&& spec_accessor(v, target) is None
            &&& e.source == source
            &&& e.actual == v.variant
            &&& e.expected == target
        },
    }
}

/// The contract of a grouped fallible conversion: the payload when the
/// value holds any variant of the group, and otherwise an error whose
/// expected field is the group's joined label.
pub open spec fn group_try_post(
    v: UnionValueView,
    source: Seq<char>,
    group: TryIntoImplView,
    r: Result<u64, TryIntoErrorView>,
) -> bool {
    match r {
        Ok(p) => spec_group_accessor(v, group.variants) == Some(p),
        Err(e) => {
            &&& spec_group_accessor(v, group.variants) is None
            &&& e.source == source
            &&& e.actual == v.variant
            &&& e.expected == group.expected
        },
    }
}

/// The predicate `is_{n}` on a value.
pub fn eval_is(v: &UnionValue, target: &str) -> (r: bool)
    ensures
        r == spec_is(v@, target@),
{
    str_eq(v.variant.as_str(), target)
}

/// The reference accessor `as_{n}` on a value; the value itself is only
/// read, never changed.
pub fn eval_as(v: &UnionValue, target: &str) -> (r: Option<u64>)
    ensures
        r == spec_accessor(v@, target@),
{
    if str_eq(v.variant.as_str(), target) {
        v.payload
    } else {
        None
    }
}

/// The owned accessor `into_{n}` on a value: it consumes the value and
/// agrees with the reference accessor on every input.
pub fn eval_into(v: UnionValue, target: &str) -> (r: Option<u64>)
    ensures
        r == spec_accessor(v@, target@),
{
    eval_as(&v, target)
}

/// A fallible conversion on a value: `try_into_{n}`, `try_as_{n}` and
/// `try_as_{n}_mut` all return the payload on a match and this error
/// otherwise.
pub fn eval_try_into(v: &UnionValue, source: &str, target: &str) -> (r: Result<
    u64,
    AnyTryIntoError,
>)
    ensures
        try_post(v@, source@, target@, try_result_view(r)),
{
    if str_eq(v.variant.as_str(), target) {
        match v.payload {
            Some(p) => {
                return Ok(p);
            },
            None => {},
        }
    }
    Err(TryIntoError::new(source, v.variant.as_str(), target))
}

/// A grouped fallible conversion on a value: the payload when the value
/// holds any variant sharing the payload type, and otherwise an error whose
/// expected field is the joined label.
pub fn eval_try_into_group(v: &UnionValue, source: &str, group: &TryIntoImpl) -> (r: Result<
    u64,
    AnyTryIntoError,
>)
    ensures
        group_try_post(v@, source@, group@, try_result_view(r)),
{
    if vec_contains_str(&group.variants, &v.variant) {
        match v.payload {
            Some(p) => {
                return Ok(p);
            },
            None => {},
        }
    }
    Err(TryIntoError::new(source, v.variant.as_str(), group.expected.as_str()))
}

/// The reverse conversion for variant `n`: wraps a payload in that variant.
pub fn eval_from(variant: &str, payload: u64) -> (r: UnionValue)
    ensures
        r@.variant == variant@,
        r@.payload == Some(payload),
{
    UnionValue { variant: variant.to_owned(), payload: Some(payload) }
}

/// The kind mapping: every value maps to the tag named after its variant.
pub fn eval_kind(v: &UnionValue) -> (r: String)
    ensures
        r@ == v@.variant,
{
    v.variant.clone()
}

/// Law: on a payload-carrying value, the accessor succeeds exactly when
/// the value holds the variant, and any result meeting a fallible
/// conversion's contract succeeds exactly when the accessor does, with the
/// same payload.
pub proof fn lemma_accessor_try_agree(
    v: UnionValueView,
    source: Seq<char>,
    target: Seq<char>,
    r: Result<u64, TryIntoErrorView>,
)
    requires
        v.payload is Some,
        try_post(v, source, target, r),
    ensures
        spec_accessor(v, target) is Some <==> spec_is(v, target),
        r is Ok <==> spec_accessor(v, target) is Some,
        r is Ok ==> Some(r->Ok_0) == spec_accessor(v, target),
{
}

/// Law: the round trip holds. Wrapping a payload in variant `n` by the
/// reverse conversion and converting back with any result meeting the
/// fallible conversion's contract yields that very payload.
pub proof fn lemma_round_trip(
    variant: Seq<char>,
    payload: u64,
    source: Seq<char>,
    u: UnionValueView,
    r: Result<u64, TryIntoErrorView>,
)
    requires
        u.variant == variant,
        u.payload == Some(payload),
        try_post(u, source, variant, r),
    ensures
        r == Ok::<u64, TryIntoErrorView>(payload),
{
}

/// Law: the predicate is idempotent. Any two results meeting its contract
/// on one unmutated value are equal.
pub proof fn lemma_is_idempotent(v: UnionValueView, target: Seq<char>, r1: bool, r2: bool)
    requires
        r1 == spec_is(v, target),
        r2 == spec_is(v, target),
    ensures
        r1 == r2,
{
}

/// Law: the mismatch branch is exhaustive and truthful. Whichever other
/// variant the value holds, any result meeting a fallible conversion's
/// contract is an error naming that very variant as actual, the requested
/// one as expected, and the sum type as source.
pub proof fn lemma_mismatch_reports_actual(
    v: UnionValueView,
    source: Seq<char>,
    target: Seq<char>,
    r: Result<u64, TryIntoErrorView>,
)
    requires
        try_post(v, source, target, r),
        v.variant != target,
    ensures
        r is Err,
        r->Err_0.actual == v.variant,
        r->Err_0.expected == target,
        r->Err_0.source == source,
{
}

/// Law: a grouped conversion's mismatch branch reports the value's true
/// variant as actual and the group's joined label as expected.
pub proof fn lemma_group_mismatch_reports_actual(
    v: UnionValueView,
    source: Seq<char>,
    group: TryIntoImplView,
    r: Result<u64, TryIntoErrorView>,
)
    requires
        group_try_post(v, source, group, r),
        !group.variants.contains(v.variant),
    ensures
        r is Err,
        r->Err_0.actual == v.variant,
        r->Err_0.expected == group.expected,
        r->Err_0.source == source,
{
}

} // verus!
