//! The operation synthesizer: derives, for each normalized variant and each
//! enabled capability, one operation descriptor with its canonical name, and
//! groups the reverse try-conversion candidates into one implementation per
//! payload type.

use crate::decl::AttrDecl;
use crate::decl::Decl;
use crate::decl::EnumDecl;
use crate::decl::EnumDeclView;
use crate::decl::VariantDecl;
use crate::decl::VariantDeclView;
use crate::error::GenError;
use crate::error::GenErrorView;
use crate::flags::Attrs;
use crate::schema::PayloadTy;
use crate::schema::PayloadTyView;
use crate::schema::VariantSchema;
use crate::schema::VariantSchemaView;
use crate::text::compose_name;
use crate::text::spec_composed_name;
use crate::text::string_is;
use vstd::prelude::*;
use vstd::string::StringExecFns;

verus! {

/// The view of one bucket: its key and the values grouped under it.
pub open spec fn bucket_view(b: (String, Vec<String>)) -> (Seq<char>, Seq<Seq<char>>) {
    (b.0@, b.1@.map_values(|s: String| s@))
}

/// The first bucket holding the key, or `-1` when no bucket does.
pub open spec fn spec_find_bucket(
    acc: Seq<(Seq<char>, Seq<Seq<char>>)>,
    key: Seq<char>,
) -> int
    decreases acc.len(),
{
    if acc.len() == 0 {
        -1
    } else if acc[0].0 == key {
        0
    } else {
        let r = spec_find_bucket(acc.skip(1), key);
        if r == -1 {
            -1
        } else {
            r + 1
        }
    }
}

/// What the search returns: a well-placed first match, or `-1` exactly when
/// no bucket holds the key.
pub proof fn lemma_find_bucket_props(acc: Seq<(Seq<char>, Seq<Seq<char>>)>, key: Seq<char>)
    ensures
        spec_find_bucket(acc, key) == -1 ==> forall|k: int|
            0 <= k < acc.len() ==> (#[trigger] acc[k]).0 != key,
        spec_find_bucket(acc, key) != -1 ==> 0 <= spec_find_bucket(acc, key) < acc.len()
            && acc[spec_find_bucket(acc, key)].0 == key,
    decreases acc.len(),
{
    if acc.len() > 0 {
        lemma_find_bucket_props(acc.skip(1), key);
        if spec_find_bucket(acc, key) == -1 {
            assert forall|k: int| 0 <= k < acc.len() implies (#[trigger] acc[k]).0 != key by {
                if k > 0 {
                    assert(acc.skip(1)[k - 1] == acc[k]);
                }
            }
        } else {
            let r = spec_find_bucket(acc, key);
            if acc[0].0 != key {
                assert(acc.skip(1)[r - 1] == acc[r]);
            }
        }
    }
}

/// Skipping a matchless prefix shifts the search result.
pub proof fn lemma_find_bucket_skip(
    acc: Seq<(Seq<char>, Seq<Seq<char>>)>,
    key: Seq<char>,
    j: int,
)
    requires
        0 <= j <= acc.len(),
        forall|k: int| 0 <= k < j ==> (#[trigger] acc[k]).0 != key,
    ensures
        spec_find_bucket(acc, key) == (if spec_find_bucket(acc.skip(j), key) == -1 {
            -1int
        } else {
            spec_find_bucket(acc.skip(j), key) + j
        }),
    decreases j,
{
    if j > 0 {
        lemma_find_bucket_skip(acc, key, j - 1);
        lemma_find_bucket_props(acc.skip(j), key);
        assert(acc.skip(j - 1)[0] == acc[j - 1]);
        assert(acc.skip(j - 1)[0].0 != key);
        assert(acc.skip(j - 1).skip(1) =~= acc.skip(j));
        let rj = spec_find_bucket(acc.skip(j), key);
        let rj1 = spec_find_bucket(acc.skip(j - 1), key);
        assert(spec_find_bucket(acc.skip(j - 1).skip(1), key) == rj);
        assert(rj1 == (if rj == -1 {
            -1int
        } else {
            rj + 1
        }));
    } else {
        assert(acc.skip(0) =~= acc);
    }
}

/// One pair folded into the buckets: the value joins the first bucket with
/// its key, or opens a new bucket at the end.
pub open spec fn spec_bucket_step(
    acc: Seq<(Seq<char>, Seq<Seq<char>>)>,
    key: Seq<char>,
    val: Seq<char>,
) -> Seq<(Seq<char>, Seq<Seq<char>>)> {
    let idx = spec_find_bucket(acc, key);
    if idx == -1 {
        acc.push((key, seq![val]))
    } else {
        acc.update(idx, (acc[idx].0, acc[idx].1.push(val)))
    }
}

/// The pairs grouped by key, left to right: each key keeps the position of
/// its first occurrence, and each bucket keeps its values in input order.
pub open spec fn spec_bucketise(input: Seq<(Seq<char>, Seq<char>)>) -> Seq<
    (Seq<char>, Seq<Seq<char>>),
>
    decreases input.len(),
{
    if input.len() == 0 {
        Seq::empty()
    } else {
        spec_bucket_step(spec_bucketise(input.drop_last()), input.last().0, input.last().1)
    }
}

/// Law: bucketing never makes two buckets with one key — each payload type
/// gets exactly one group.
pub proof fn lemma_bucketise_distinct_keys(input: Seq<(Seq<char>, Seq<char>)>)
    ensures
        forall|i: int, j: int|
            0 <= i < j < spec_bucketise(input).len() ==> (#[trigger] spec_bucketise(input)[i]).0
                != (#[trigger] spec_bucketise(input)[j]).0,
    decreases input.len(),
{
    if input.len() > 0 {
        lemma_bucketise_distinct_keys(input.drop_last());
        let acc = spec_bucketise(input.drop_last());
        let key = input.last().0;
        lemma_find_bucket_props(acc, key);
    }
}

/// The first bucket whose key is the given one, if any.
fn find_bucket(buckets: &Vec<(String, Vec<String>)>, key: &String) -> (r: Option<usize>)
    ensures
        ({
            let f = spec_find_bucket(
                buckets@.map_values(|b: (String, Vec<String>)| bucket_view(b)),
                key@,
            );
            match r {
                Some(idx) => f == idx && idx < buckets@.len(),
                None => f == -1,
            }
        }),
{
    let ghost m = buckets@.map_values(|b: (String, Vec<String>)| bucket_view(b));
    let mut i: usize = 0;
    while i < buckets.len()
        invariant
            i <= buckets.len(),
            m == buckets@.map_values(|b: (String, Vec<String>)| bucket_view(b)),
            forall|k: int| 0 <= k < i ==> (#[trigger] m[k]).0 != key@,
        decreases buckets.len() - i,
    {
        if string_is(&buckets[i].0, key.as_str()) {
            proof {
                lemma_find_bucket_skip(m, key@, i as int);
                assert(m.skip(i as int)[0] == m[i as int]);
            }
            return Some(i);
        }
        i += 1;
    }
    proof {
        lemma_find_bucket_skip(m, key@, m.len() as int);
        assert(m.skip(m.len() as int) =~= Seq::<(Seq<char>, Seq<Seq<char>>)>::empty());
    }
    None
}

/// Groups the pairs by key, left to right: a pair joins the first bucket
/// whose key equals its own, or opens a new bucket at the end, so each
/// bucket keeps its values in input order.
pub fn bucketise_by(input: Vec<(String, String)>) -> (r: Vec<(String, Vec<String>)>)
    ensures
        r@.map_values(|b: (String, Vec<String>)| bucket_view(b)) == spec_bucketise(
            input@.map_values(|p: (String, String)| (p.0@, p.1@)),
        ),
{
    let ghost model = input@.map_values(|p: (String, String)| (p.0@, p.1@));
    let mut buckets: Vec<(String, Vec<String>)> = Vec::new();
    let mut i: usize = 0;
    proof {
        assert(model.take(0) =~= Seq::<(Seq<char>, Seq<char>)>::empty());
        assert(buckets@.map_values(|b: (String, Vec<String>)| bucket_view(b)) =~= Seq::<
            (Seq<char>, Seq<Seq<char>>),
        >::empty());
    }
    while i < input.len()
        invariant
            i <= input.len(),
            model == input@.map_values(|p: (String, String)| (p.0@, p.1@)),
            buckets@.map_values(|b: (String, Vec<String>)| bucket_view(b)) == spec_bucketise(
                model.take(i as int),
            ),
        decreases input.len() - i,
    {
        proof {
            assert(model.take(i + 1).drop_last() =~= model.take(i as int));
            assert(model.take(i + 1).last() == model[i as int]);
        }
        let ghost old_view = buckets@.map_values(|b: (String, Vec<String>)| bucket_view(b));
        let key = input[i].0.clone();
        let val = input[i].1.clone();
        match find_bucket(&buckets, &key) {
            Some(idx) => {
                let mut entry = buckets.remove(idx);
                entry.1.push(val);
                buckets.insert(idx, entry);
                proof {
                    assert(buckets@.map_values(|b: (String, Vec<String>)| bucket_view(b))
                        =~~= old_view.update(
                        idx as int,
                        (old_view[idx as int].0, old_view[idx as int].1.push(model[i as int].1)),
                    ));
                }
            },
            None => {
                let mut vals: Vec<String> = Vec::new();
                vals.push(val);
                buckets.push((key, vals));
                proof {
                    assert(buckets@.map_values(|b: (String, Vec<String>)| bucket_view(b))
                        =~~= old_view.push((model[i as int].0, seq![model[i as int].1])));
                }
            },
        }
        i += 1;
    }
    proof {
        assert(model.take(input@.len() as int) =~= model);
    }
    buckets
}

/// The joined label of a variant group: the names separated by `" | "`.
pub open spec fn spec_joined(names: Seq<Seq<char>>) -> Seq<char>
    decreases names.len(),
{
    if names.len() == 0 {
        Seq::empty()
    } else if names.len() == 1 {
        names[0]
    } else {
        spec_joined(names.drop_last()) + " | "@ + names.last()
    }
}

/// Joins the names with `" | "`, in order.
pub fn join_label(names: &Vec<String>) -> (r: String)
    ensures
        r@ == spec_joined(names@.map_values(|s: String| s@)),
{
    let ghost model = names@.map_values(|s: String| s@);
    let mut r = String::new();
    if names.len() == 0 {
        proof {
            assert(r@ =~= spec_joined(model));
        }
        return r;
    }
    r.append(names[0].as_str());
    let mut i: usize = 1;
    proof {
        assert(model.take(1).len() == 1);
        assert(r@ =~= spec_joined(model.take(1)));
    }
    while i < names.len()
        invariant
            1 <= i <= names.len(),
            model == names@.map_values(|s: String| s@),
            r@ == spec_joined(model.take(i as int)),
        decreases names.len() - i,
    {
        proof {
            assert(model.take(i + 1).drop_last() =~= model.take(i as int));
            assert(model.take(i + 1).last() == model[i as int]);
        }
        r.append(" | ");
        r.append(names[i].as_str());
        i += 1;
    }
    proof {
        assert(model.take(names@.len() as int) =~= model);
    }
    r
}

/// One of the seven per-variant operation families that land in the
/// inherent implementation block.
#[derive(Clone, Copy, Debug, PartialEq, Eq, Structural)]
pub enum OpKind {
    /// `as_{n}`: `(&self) -> Option<&V>`.
    RefAccessor,
    /// `as_{n}_mut`: `(&mut self) -> Option<&mut V>`.
    MutAccessor,
    /// `into_{n}`: `(self) -> Option<V>`.
    OwnedAccessor,
    /// `is_{n}`: `(&self) -> bool`.
    Predicate,
    /// `try_into_{n}`: `(self) -> Result<V, TryIntoError<U>>`.
    TryOwned,
    /// `try_as_{n}`: `(&self) -> Result<&V, TryIntoError<U>>`.
    TryRef,
    /// `try_as_{n}_mut`: `(&mut self) -> Result<&mut V, TryIntoError<U>>`.
    TryMut,
}

/// One synthesized operation: its family, its derived name, the variant it
/// closes over and that variant's payload type.
pub struct OpDef {
    /// The operation's family.
    pub kind: OpKind,
    /// The operation's derived name.
    pub name: String,
    /// The identifier of the variant the operation closes over.
    pub variant: String,
    /// The payload type of that variant.
    pub payload: PayloadTy,
}

/// View of [`OpDef`].
pub ghost struct OpDefView {
    pub kind: OpKind,
    pub name: Seq<char>,
    pub variant: Seq<char>,
    pub payload: PayloadTyView,
}

impl View for OpDef {
    type V = OpDefView;

    open spec fn view(&self) -> OpDefView {
        OpDefView {
            kind: self.kind,
            name: self.name@,
            variant: self.variant@,
            payload: self.payload@,
        }
    }
}

/// Whether a resolved capability set asks for the family.
pub open spec fn spec_family_enabled(a: Attrs, kind: OpKind) -> bool {
    match kind {
        OpKind::RefAccessor => a.add_as,
        OpKind::MutAccessor => a.add_mut_as,
        OpKind::OwnedAccessor => a.add_into,
        OpKind::Predicate => a.add_is,
        OpKind::TryOwned => a.add_try_into,
        OpKind::TryRef => a.add_try_as,
        OpKind::TryMut => a.add_try_as_mut,
    }
}

/// The name prefix of a family.
pub open spec fn spec_family_prefix(kind: OpKind) -> Seq<char> {
    match kind {
        OpKind::RefAccessor => "as"@,
        OpKind::MutAccessor => "as"@,
        OpKind::OwnedAccessor => "into"@,
        OpKind::Predicate => "is"@,
        OpKind::TryOwned => "try_into"@,
        OpKind::TryRef => "try_as"@,
        OpKind::TryMut => "try_as"@,
    }
}

/// The name suffix of a family, distinguishing the mutable forms.
pub open spec fn spec_family_suffix(kind: OpKind) -> Option<Seq<char>> {
    match kind {
        OpKind::MutAccessor => Some("mut"@),
        OpKind::TryMut => Some("mut"@),
        _ => None,
    }
}

/// The operation a family derives from one schema entry.
pub open spec fn spec_op_for(s: VariantSchemaView, kind: OpKind) -> OpDefView {
    OpDefView {
        kind: kind,
        name: spec_composed_name(spec_family_prefix(kind), s.lower, spec_family_suffix(kind)),
        variant: s.ident,
        payload: s.payload,
    }
}

/// One family's operations over a schema list, in declaration order.
pub open spec fn spec_family_ops(schemas: Seq<VariantSchemaView>, kind: OpKind) -> Seq<OpDefView>
    decreases schemas.len(),
{
    if schemas.len() == 0 {
        Seq::empty()
    } else {
        let rest = spec_family_ops(schemas.drop_last(), kind);
        if spec_family_enabled(schemas.last().attrs, kind) {
            rest.push(spec_op_for(schemas.last(), kind))
        } else {
            rest
        }
    }
}

/// Derives one family's operations for every schema entry that asks for it.
pub fn family_ops(schemas: &Vec<VariantSchema>, kind: OpKind) -> (r: Vec<OpDef>)
    ensures
        r@.map_values(|o: OpDef| o@) == spec_family_ops(
            schemas@.map_values(|s: VariantSchema| s@),
            kind,
        ),
{
    let ghost model = schemas@.map_values(|s: VariantSchema| s@);
    let mut out: Vec<OpDef> = Vec::new();
    let mut i: usize = 0;
    proof {
        assert(model.take(0) =~= Seq::<VariantSchemaView>::empty());
        assert(out@.map_values(|o: OpDef| o@) =~= Seq::<OpDefView>::empty());
    }
    while i < schemas.len()
        invariant
            i <= schemas.len(),
            model == schemas@.map_values(|s: VariantSchema| s@),
            out@.map_values(|o: OpDef| o@) == spec_family_ops(model.take(i as int), kind),
        decreases schemas.len() - i,
    {
        proof {
            assert(model.take(i + 1).drop_last() =~= model.take(i as int));
            assert(model.take(i + 1).last() == model[i as int]);
        }
        let s = &schemas[i];
        let enabled = match kind {
            OpKind::RefAccessor => s.attrs.add_as,
            OpKind::MutAccessor => s.attrs.add_mut_as,
            OpKind::OwnedAccessor => s.attrs.add_into,
            OpKind::Predicate => s.attrs.add_is,
            OpKind::TryOwned => s.attrs.add_try_into,
            OpKind::TryRef => s.attrs.add_try_as,
            OpKind::TryMut => s.attrs.add_try_as_mut,
        };
        if enabled {
            let prefix: &str = match kind {
                OpKind::RefAccessor => "as",
                OpKind::MutAccessor => "as",
                OpKind::OwnedAccessor => "into",
                OpKind::Predicate => "is",
                OpKind::TryOwned => "try_into",
                OpKind::TryRef => "try_as",
                OpKind::TryMut => "try_as",
            };
            let suffix: Option<&str> = match kind {
                OpKind::MutAccessor => Some("mut"),
                OpKind::TryMut => Some("mut"),
                _ => None,
            };
            let name = compose_name(prefix, s.lower.as_str(), suffix);
            let ghost old_out = out@.map_values(|o: OpDef| o@);
            out.push(
                OpDef {
                    kind,
                    name,
                    variant: s.ident.clone(),
                    payload: s.payload.clone(),
                },
            );
            proof {
                assert(out@.map_values(|o: OpDef| o@) =~= old_out.push(
                    spec_op_for(model[i as int], kind),
                ));
            }
        }
        i += 1;
    }
    proof {
        assert(model.take(schemas@.len() as int) =~= model);
    }
    out
}

/// Every inherent operation over a schema list, grouped family by family in
/// emission order.
pub open spec fn spec_all_ops(schemas: Seq<VariantSchemaView>) -> Seq<OpDefView> {
    spec_family_ops(schemas, OpKind::TryOwned) + spec_family_ops(schemas, OpKind::MutAccessor)
        + spec_family_ops(schemas, OpKind::RefAccessor) + spec_family_ops(
        schemas,
        OpKind::OwnedAccessor,
    ) + spec_family_ops(schemas, OpKind::TryRef) + spec_family_ops(schemas, OpKind::TryMut)
        + spec_family_ops(schemas, OpKind::Predicate)
}

/// Derives every inherent operation, family by family.
pub fn all_ops(schemas: &Vec<VariantSchema>) -> (r: Vec<OpDef>)
    ensures
        r@.map_values(|o: OpDef| o@) == spec_all_ops(schemas@.map_values(|s: VariantSchema| s@)),
{
    let mut out = family_ops(schemas, OpKind::TryOwned);
    let mut part = family_ops(schemas, OpKind::MutAccessor);
    out.append(&mut part);
    let mut part = family_ops(schemas, OpKind::RefAccessor);
    out.append(&mut part);
    let mut part = family_ops(schemas, OpKind::OwnedAccessor);
    out.append(&mut part);
    let mut part = family_ops(schemas, OpKind::TryRef);
    out.append(&mut part);
    let mut part = family_ops(schemas, OpKind::TryMut);
    out.append(&mut part);
    let mut part = family_ops(schemas, OpKind::Predicate);
    out.append(&mut part);
    proof {
        assert(out@.map_values(|o: OpDef| o@) =~= spec_all_ops(
            schemas@.map_values(|s: VariantSchema| s@),
        ));
    }
    out
}

/// One generated reverse conversion: a `From<payload_ty>` implementation
/// that wraps the payload in the variant.
pub struct FromImpl {
    /// The variant the conversion constructs.
    pub variant: String,
    /// The payload type the conversion takes.
    pub payload_ty: String,
}

/// View of [`FromImpl`].
pub ghost struct FromImplView {
    pub variant: Seq<char>,
    pub payload_ty: Seq<char>,
}

impl View for FromImpl {
    type V = FromImplView;

    open spec fn view(&self) -> FromImplView {
        FromImplView { variant: self.variant@, payload_ty: self.payload_ty@ }
    }
}

/// The reverse conversions of a schema list, one per candidate, in order.
pub open spec fn spec_from_impls(schemas: Seq<VariantSchemaView>) -> Seq<FromImplView> {
    crate::conflict::spec_from_candidates(schemas).map_values(
        |c: (Seq<char>, Seq<char>)| FromImplView { variant: c.0, payload_ty: c.1 },
    )
}

/// Derives one reverse conversion per candidate.
pub fn from_impls(candidates: &Vec<(String, String)>) -> (r: Vec<FromImpl>)
    ensures
        r@.len() == candidates@.len(),
        forall|k: int|
            0 <= k < r@.len() ==> (#[trigger] r@[k])@ == (FromImplView {
                variant: candidates@[k].0@,
                payload_ty: candidates@[k].1@,
            }),
{
    let mut out: Vec<FromImpl> = Vec::new();
    let mut i: usize = 0;
    while i < candidates.len()
        invariant
            i <= candidates.len(),
            out@.len() == i,
            forall|k: int|
                0 <= k < i ==> (#[trigger] out@[k])@ == (FromImplView {
                    variant: candidates@[k].0@,
                    payload_ty: candidates@[k].1@,
                }),
        decreases candidates.len() - i,
    {
        out.push(
            FromImpl { variant: candidates[i].0.clone(), payload_ty: candidates[i].1.clone() },
        );
        i += 1;
    }
    out
}

/// One grouped fallible reverse conversion: every variant sharing the
/// payload type, and the joined label its mismatch branch reports as the
/// expected variant.
pub struct TryIntoImpl {
    /// The payload type the group shares.
    pub payload_ty: String,
    /// The variants in the group, in declaration order.
    pub variants: Vec<String>,
    /// The group's label: the variant names joined with `" | "`.
    pub expected: String,
}

/// View of [`TryIntoImpl`].
pub ghost struct TryIntoImplView {
    pub payload_ty: Seq<char>,
    pub variants: Seq<Seq<char>>,
    pub expected: Seq<char>,
}

impl View for TryIntoImpl {
    type V = TryIntoImplView;

    open spec fn view(&self) -> TryIntoImplView {
        TryIntoImplView {
            payload_ty: self.payload_ty@,
            variants: self.variants@.map_values(|s: String| s@),
            expected: self.expected@,
        }
    }
}

/// The grouped-conversion candidates of a schema list, in order: each entry
/// is a variant's payload type paired with its identifier.
pub open spec fn spec_impl_candidates(schemas: Seq<VariantSchemaView>) -> Seq<
    (Seq<char>, Seq<char>),
>
    decreases schemas.len(),
{
    if schemas.len() == 0 {
        Seq::empty()
    } else {
        let rest = spec_impl_candidates(schemas.drop_last());
        let s = schemas.last();
        if s.attrs.add_try_into_impl && s.payload is Ty {
            rest.push((s.payload->Ty_0, s.ident))
        } else {
            rest
        }
    }
}

/// Collects the grouped-conversion candidates of a schema list.
pub fn impl_candidates(schemas: &Vec<VariantSchema>) -> (r: Vec<(String, String)>)
    ensures
        r@.map_values(|p: (String, String)| (p.0@, p.1@)) == spec_impl_candidates(
            schemas@.map_values(|s: VariantSchema| s@),
        ),
{
    let ghost model = schemas@.map_values(|s: VariantSchema| s@);
    let mut out: Vec<(String, String)> = Vec::new();
    let mut i: usize = 0;
    proof {
        assert(model.take(0) =~= Seq::<VariantSchemaView>::empty());
        assert(out@.map_values(|p: (String, String)| (p.0@, p.1@)) =~= Seq::<
            (Seq<char>, Seq<char>),
        >::empty());
    }
    while i < schemas.len()
        invariant
            i <= schemas.len(),
            model == schemas@.map_values(|s: VariantSchema| s@),
            out@.map_values(|p: (String, String)| (p.0@, p.1@)) == spec_impl_candidates(
                model.take(i as int),
            ),
        decreases schemas.len() - i,
    {
        proof {
            assert(model.take(i + 1).drop_last() =~= model.take(i as int));
            assert(model.take(i + 1).last() == model[i as int]);
        }
        let s = &schemas[i];
        if s.attrs.add_try_into_impl {
            match &s.payload {
                PayloadTy::Ty(ty) => {
                    let ghost old_out = out@.map_values(|p: (String, String)| (p.0@, p.1@));
                    out.push((ty.clone(), s.ident.clone()));
                    proof {
                        assert(out@.map_values(|p: (String, String)| (p.0@, p.1@)) =~= old_out.push(
                            (model[i as int].payload->Ty_0, model[i as int].ident),
                        ));
                    }
                },
                PayloadTy::Absent => {},
            }
        }
        i += 1;
    }
    proof {
        assert(model.take(schemas@.len() as int) =~= model);
    }
    out
}

/// The grouped conversions of a schema list: its candidates bucketed by
/// payload type, each bucket labelled with its joined variant names.
pub open spec fn spec_try_into_impls(schemas: Seq<VariantSchemaView>) -> Seq<TryIntoImplView> {
    spec_bucketise(spec_impl_candidates(schemas)).map_values(
        |b: (Seq<char>, Seq<Seq<char>>)|
            TryIntoImplView { payload_ty: b.0, variants: b.1, expected: spec_joined(b.1) },
    )
}

/// Law: the grouped conversions target pairwise distinct payload types, so
/// all variants sharing one payload type land in exactly one
/// implementation, and each group's label is the join of its variant names.
pub proof fn lemma_try_into_impls_unique(schemas: Seq<VariantSchemaView>)
    ensures
        forall|i: int, j: int|
            0 <= i < j < spec_try_into_impls(schemas).len() ==> (#[trigger] spec_try_into_impls(
                schemas,
            )[i]).payload_ty != (#[trigger] spec_try_into_impls(schemas)[j]).payload_ty,
        forall|i: int|
            0 <= i < spec_try_into_impls(schemas).len() ==> (#[trigger] spec_try_into_impls(
                schemas,
            )[i]).expected == spec_joined(spec_try_into_impls(schemas)[i].variants),
{
    lemma_bucketise_distinct_keys(spec_impl_candidates(schemas));
}

/// Derives the grouped conversions: one per payload type that any candidate
/// names.
pub fn try_into_impls(schemas: &Vec<VariantSchema>) -> (r: Vec<TryIntoImpl>)
    ensures
        r@.map_values(|t: TryIntoImpl| t@) == spec_try_into_impls(
            schemas@.map_values(|s: VariantSchema| s@),
        ),
{
    let cands = impl_candidates(schemas);
    let mut buckets = bucketise_by(cands);
    let ghost bucket_model = buckets@.map_values(|b: (String, Vec<String>)| bucket_view(b));
    let mut out: Vec<TryIntoImpl> = Vec::new();
    proof {
        assert(bucket_model.skip(0) =~= bucket_model);
    }
    let ghost mut done: int = 0;
    while buckets.len() > 0
        invariant
            0 <= done <= bucket_model.len(),
            buckets@.map_values(|b: (String, Vec<String>)| bucket_view(b)) == bucket_model.skip(
                done,
            ),
            out@.len() == done,
            forall|k: int|
                0 <= k < done ==> (#[trigger] out@[k])@ == (TryIntoImplView {
                    payload_ty: bucket_model[k].0,
                    variants: bucket_model[k].1,
                    expected: spec_joined(bucket_model[k].1),
                }),
        decreases buckets.len(),
    {
        proof {
            assert(bucket_model.skip(done).len() > 0);
            assert(bucket_model.skip(done)[0] == bucket_model[done]);
            assert(bucket_model.skip(done).skip(1) =~= bucket_model.skip(done + 1));
        }
        let ghost old_view = buckets@.map_values(|b: (String, Vec<String>)| bucket_view(b));
        let b = buckets.remove(0);
        proof {
            assert(buckets@.map_values(|bb: (String, Vec<String>)| bucket_view(bb))
                =~= old_view.skip(1));
        }
        let expected = join_label(&b.1);
        out.push(TryIntoImpl { payload_ty: b.0, variants: b.1, expected });
        proof {
            done = done + 1;
        }
    }
    proof {
        assert(bucket_model.skip(done).len() == 0);
        assert(done == bucket_model.len());
        assert(out@.map_values(|t: TryIntoImpl| t@) =~= spec_try_into_impls(
            schemas@.map_values(|s: VariantSchema| s@),
        ));
    }
    out
}

/// One scope's attributes with every `sumtype` attribute removed, in order.
pub open spec fn spec_strip_attrs(attrs: Seq<crate::decl::AttrDeclView>) -> Seq<
    crate::decl::AttrDeclView,
>
    decreases attrs.len(),
{
    if attrs.len() == 0 {
        Seq::empty()
    } else {
        let rest = spec_strip_attrs(attrs.drop_last());
        if attrs.last().path == "sumtype"@ {
            rest
        } else {
            rest.push(attrs.last())
        }
    }
}

/// One variant with its `sumtype` attributes consumed.
pub open spec fn spec_strip_variant(v: VariantDeclView) -> VariantDeclView {
    VariantDeclView { ident: v.ident, attrs: spec_strip_attrs(v.attrs), fields: v.fields }
}

/// The declaration with every variant's `sumtype` attributes consumed.
pub open spec fn spec_strip(e: EnumDeclView) -> EnumDeclView {
    EnumDeclView {
        ident: e.ident,
        type_params: e.type_params,
        lifetimes: e.lifetimes,
        variants: e.variants.map_values(|v: VariantDeclView| spec_strip_variant(v)),
    }
}

/// Removes every `sumtype` attribute from one scope's attribute list.
fn strip_attrs(attrs: &Vec<AttrDecl>) -> (r: Vec<AttrDecl>)
    ensures
        r@.map_values(|a: AttrDecl| a@) == spec_strip_attrs(
            attrs@.map_values(|a: AttrDecl| a@),
        ),
{
    let ghost model = attrs@.map_values(|a: AttrDecl| a@);
    let mut out: Vec<AttrDecl> = Vec::new();
    let mut i: usize = 0;
    proof {
        assert(model.take(0) =~= Seq::<crate::decl::AttrDeclView>::empty());
        assert(out@.map_values(|a: AttrDecl| a@) =~= Seq::<crate::decl::AttrDeclView>::empty());
    }
    while i < attrs.len()
        invariant
            i <= attrs.len(),
            model == attrs@.map_values(|a: AttrDecl| a@),
            out@.map_values(|a: AttrDecl| a@) == spec_strip_attrs(model.take(i as int)),
        decreases attrs.len() - i,
    {
        proof {
            assert(model.take(i + 1).drop_last() =~= model.take(i as int));
            assert(model.take(i + 1).last() == model[i as int]);
        }
        if !string_is(&attrs[i].path, "sumtype") {
            let ghost old_out = out@.map_values(|a: AttrDecl| a@);
            out.push(attrs[i].clone());
            proof {
                assert(out@.map_values(|a: AttrDecl| a@) =~= old_out.push(model[i as int]));
            }
        }
        i += 1;
    }
    proof {
        assert(model.take(attrs@.len() as int) =~= model);
    }
    out
}

/// Copies the declaration, removing every `sumtype` attribute from every
/// variant.
pub fn strip_decl(decl: &EnumDecl) -> (r: EnumDecl)
    ensures
        r@ == spec_strip(decl@),
{
    let mut variants: Vec<VariantDecl> = Vec::new();
    let mut i: usize = 0;
    while i < decl.variants.len()
        invariant
            i <= decl.variants.len(),
            variants@.len() == i,
            forall|k: int|
                0 <= k < i ==> (#[trigger] variants@[k])@ == spec_strip_variant(
                    decl.variants@[k]@,
                ),
        decreases decl.variants.len() - i,
    {
        let v = &decl.variants[i];
        let stripped = VariantDecl {
            ident: v.ident.clone(),
            attrs: strip_attrs(&v.attrs),
            fields: v.fields.clone(),
        };
        proof {
            assert(stripped@ == spec_strip_variant(v@));
        }
        variants.push(stripped);
        i += 1;
    }
    let r = EnumDecl {
        ident: decl.ident.clone(),
        type_params: crate::text::clone_strings(&decl.type_params),
        lifetimes: crate::text::clone_strings(&decl.lifetimes),
        variants,
    };
    proof {
        assert(r@.variants =~= spec_strip(decl@).variants);
    }
    r
}

/// Everything the engine emits for one accepted declaration.
pub struct Generated {
    /// The declaration with its configuration attributes consumed.
    pub stripped: EnumDecl,
    /// Every inherent operation, family by family in emission order.
    pub ops: Vec<OpDef>,
    /// One reverse conversion per candidate.
    pub from_impls: Vec<FromImpl>,
    /// One grouped fallible reverse conversion per shared payload type.
    pub try_into_impls: Vec<TryIntoImpl>,
}

/// View of [`Generated`].
pub ghost struct GeneratedView {
    pub stripped: EnumDeclView,
    pub ops: Seq<OpDefView>,
    pub from_impls: Seq<FromImplView>,
    pub try_into_impls: Seq<TryIntoImplView>,
}

impl View for Generated {
    type V = GeneratedView;

    open spec fn view(&self) -> GeneratedView {
        GeneratedView {
            stripped: self.stripped@,
            ops: self.ops@.map_values(|o: OpDef| o@),
            from_impls: self.from_impls@.map_values(|f: FromImpl| f@),
            try_into_impls: self.try_into_impls@.map_values(|t: TryIntoImpl| t@),
        }
    }
}

/// The whole engine on one declaration: reject anything but an enum;
/// disable the grouped conversion at enum level when a type parameter is
/// present; normalize the variants; reject a declaration that generates
/// nothing; reject conflicting reverse conversions; and otherwise emit the
/// stripped declaration with every derived operation and implementation.
pub open spec fn spec_sumtype_attr(attrs: Attrs, d: crate::decl::DeclView) -> Result<
    GeneratedView,
    GenErrorView,
> {
    match d {
        crate::decl::DeclView::Enum(e) => {
            let a0 = Attrs {
                add_try_into_impl: attrs.add_try_into_impl && e.type_params.len() == 0,
                ..attrs
            };
            match crate::schema::spec_extract(a0, e.variants) {
                Err(err) => Err(err),
                Ok(schemas) => {
                    if schemas.len() == 0 {
                        Err(GenErrorView::NothingToDo)
                    } else {
                        match crate::conflict::spec_analyze(
                            crate::conflict::spec_from_candidates(schemas).map_values(
                                |c: (Seq<char>, Seq<char>)| c.1,
                            ),
                            e.type_params,
                        ) {
                            Err(err) => Err(err),
                            Ok(u) => Ok(
                                GeneratedView {
                                    stripped: spec_strip(e),
                                    ops: spec_all_ops(schemas),
                                    from_impls: spec_from_impls(schemas),
                                    try_into_impls: spec_try_into_impls(schemas),
                                },
                            ),
                        }
                    }
                },
            }
        },
        _ => Err(GenErrorView::NotAnEnum),
    }
}

/// Runs the whole engine on one declaration with the given enum-level
/// capability set.
pub fn sumtype_attr(attrs: Attrs, input: &Decl) -> (r: Result<Generated, GenError>)
    ensures
        ({
            let m = spec_sumtype_attr(attrs, input@);
            match r {
                Ok(g) => m == Ok::<GeneratedView, GenErrorView>(g@),
                Err(e) => m == Err::<GeneratedView, GenErrorView>(e@),
            }
        }),
{
    let e = match input {
        Decl::Enum(e) => e,
        _ => {
            return Err(GenError::NotAnEnum);
        },
    };
    let a0 = Attrs {
        add_try_into_impl: attrs.add_try_into_impl && e.type_params.len() == 0,
        ..attrs
    };
    let schemas = match crate::schema::extract(a0, &e.variants) {
        Ok(s) => s,
        Err(err) => {
            return Err(err);
        },
    };
    let ghost schemas_model = crate::schema::spec_extract(a0, e@.variants)->Ok_0;
    proof {
        assert(schemas_model == schemas@.map_values(|s: VariantSchema| s@));
    }
    if schemas.len() == 0 {
        return Err(GenError::NothingToDo);
    }
    let cands = crate::conflict::from_candidates(&schemas);
    proof {
        assert(cands@.map_values(|p: (String, String)| p.1@)
            =~= crate::conflict::spec_from_candidates(schemas_model).map_values(
            |c: (Seq<char>, Seq<char>)| c.1,
        ));
        assert(e.type_params@.map_values(|t: String| t@) =~= e@.type_params);
    }
    match crate::conflict::analyze(&cands, &e.type_params) {
        Ok(u) => {},
        Err(err) => {
            return Err(err);
        },
    }
    let g = Generated {
        stripped: strip_decl(e),
        ops: all_ops(&schemas),
        from_impls: from_impls(&cands),
        try_into_impls: try_into_impls(&schemas),
    };
    proof {
        assert(g@.from_impls =~= spec_from_impls(schemas_model));
        assert(g@ == spec_sumtype_attr(attrs, input@)->Ok_0);
    }
    Ok(g)
}

} // verus!
