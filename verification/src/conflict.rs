//! The conflict analyzer: scans the reverse-conversion candidates, in
//! declaration order, and rejects the two configurations that would make the
//! generated `From` implementations collide — two candidates naming the same
//! payload type, and more than one candidate whose payload type is one of
//! the enum's own type parameters.

use crate::error::GenError;
use crate::error::GenErrorView;
use crate::schema::VariantSchema;
use crate::schema::VariantSchemaView;
use crate::text::vec_contains_str;
use vstd::prelude::*;

verus! {

/// True when the payload type is one of the enum's own type parameters.
pub open spec fn spec_is_generic(ty: Seq<char>, type_params: Seq<Seq<char>>) -> bool {
    type_params.contains(ty)
}

/// The reverse-conversion candidates of a schema list, in order: each entry
/// is the variant's identifier paired with its payload type.
pub open spec fn spec_from_candidates(schemas: Seq<VariantSchemaView>) -> Seq<
    (Seq<char>, Seq<char>),
>
    decreases schemas.len(),
{
    if schemas.len() == 0 {
        Seq::empty()
    } else {
        let rest = spec_from_candidates(schemas.drop_last());
        let s = schemas.last();
        if s.attrs.add_from_impl && s.payload is Ty {
            rest.push((s.ident, s.payload->Ty_0))
        } else {
            rest
        }
    }
}

/// The scan over the candidates' payload types, left to right, carrying the
/// types already seen and how many were type parameters. A second type
/// parameter is rejected first; a type already seen is rejected next.
pub open spec fn spec_scan_from(
    tys: Seq<Seq<char>>,
    type_params: Seq<Seq<char>>,
    seen: Seq<Seq<char>>,
    generics: nat,
) -> Result<(), GenErrorView>
    decreases tys.len(),
{
    if tys.len() == 0 {
        Ok(())
    } else {
        let ty = tys[0];
        let g2: nat = if spec_is_generic(ty, type_params) {
            generics + 1
        } else {
            generics
        };
        if g2 > 1 {
            Err(GenErrorView::MultipleGenericFrom { ty })
        } else if seen.contains(ty) {
            Err(GenErrorView::DuplicateFromCandidate { ty })
        } else {
            spec_scan_from(tys.skip(1), type_params, seen.push(ty), g2)
        }
    }
}

/// The verdict on a whole candidate list.
pub open spec fn spec_analyze(
    tys: Seq<Seq<char>>,
    type_params: Seq<Seq<char>>,
) -> Result<(), GenErrorView> {
    spec_scan_from(tys, type_params, Seq::empty(), 0)
}

/// Collects the reverse-conversion candidates of a schema list: the
/// variants whose resolved set asks for the reverse conversion, paired with
/// their payload types.
pub fn from_candidates(schemas: &Vec<VariantSchema>) -> (r: Vec<(String, String)>)
    ensures
        r@.map_values(|p: (String, String)| (p.0@, p.1@)) == spec_from_candidates(
            schemas@.map_values(|s: VariantSchema| s@),
        ),
{
    let ghost model = schemas@.map_values(|s: VariantSchema| s@);
    let mut out: Vec<(String, String)> = Vec::new();
    let mut i: usize = 0;
    proof {
        assert(model.take(0) =~= Seq::<VariantSchemaView>::empty());
        assert(out@.map_values(|p: (String, String)| (p.0@, p.1@)) =~= Seq::<
            (Seq<char>, Seq<char>),
        >::empty());
    }
    while i < schemas.len()
        invariant
            i <= schemas.len(),
            model == schemas@.map_values(|s: VariantSchema| s@),
            out@.map_values(|p: (String, String)| (p.0@, p.1@)) == spec_from_candidates(
                model.take(i as int),
            ),
        decreases schemas.len() - i,
    {
        proof {
            assert(model.take(i + 1).drop_last() =~= model.take(i as int));
            assert(model.take(i + 1).last() == model[i as int]);
        }
        let s = &schemas[i];
        if s.attrs.add_from_impl {
            match &s.payload {
                crate::schema::PayloadTy::Ty(ty) => {
                    let ghost old_out = out@.map_values(|p: (String, String)| (p.0@, p.1@));
                    out.push((s.ident.clone(), ty.clone()));
                    proof {
                        assert(out@.map_values(|p: (String, String)| (p.0@, p.1@)) =~= old_out.push(
                            (model[i as int].ident, model[i as int].payload->Ty_0),
                        ));
                    }
                },
                crate::schema::PayloadTy::Absent => {},
            }
        }
        i += 1;
    }
    proof {
        assert(model.take(schemas@.len() as int) =~= model);
    }
    out
}

/// Scans the candidates' payload types against the enum's type parameters
/// and returns the first conflict, if any.
pub fn analyze(candidates: &Vec<(String, String)>, type_params: &Vec<String>) -> (r: Result<
    (),
    GenError,
>)
    ensures
        ({
            let m = spec_analyze(
                candidates@.map_values(|p: (String, String)| p.1@),
                type_params@.map_values(|t: String| t@),
            );
            match r {
                Ok(u) => m == Ok::<(), GenErrorView>(u),
                Err(e) => m == Err::<(), GenErrorView>(e@),
            }
        }),
{
    let ghost tys = candidates@.map_values(|p: (String, String)| p.1@);
    let ghost tps = type_params@.map_values(|t: String| t@);
    let mut seen: Vec<String> = Vec::new();
    let mut generics: usize = 0;
    let mut i: usize = 0;
    proof {
        assert(tys.skip(0) =~= tys);
        assert(seen@.map_values(|x: String| x@) =~= Seq::<Seq<char>>::empty());
    }
    while i < candidates.len()
        invariant
            i <= candidates.len(),
            generics <= 1,
            tys == candidates@.map_values(|p: (String, String)| p.1@),
            tps == type_params@.map_values(|t: String| t@),
            spec_analyze(tys, tps) == spec_scan_from(
                tys.skip(i as int),
                tps,
                seen@.map_values(|x: String| x@),
                generics as nat,
            ),
        decreases candidates.len() - i,
    {
        proof {
            assert(tys.skip(i as int)[0] == tys[i as int]);
            assert(tys.skip(i as int).skip(1) =~= tys.skip(i + 1));
        }
        let ty = &candidates[i].1;
        let is_generic = vec_contains_str(type_params, ty);
        let g2: usize = if is_generic {
            generics + 1
        } else {
            generics
        };
        if g2 > 1 {
            return Err(GenError::MultipleGenericFrom { ty: ty.clone() });
        }
        if vec_contains_str(&seen, ty) {
            return Err(GenError::DuplicateFromCandidate { ty: ty.clone() });
        }
        let ghost old_seen = seen@.map_values(|x: String| x@);
        seen.push(ty.clone());
        proof {
            assert(seen@.map_values(|x: String| x@) =~= old_seen.push(tys[i as int]));
        }
        generics = g2;
        i += 1;
    }
    proof {
        assert(tys.skip(candidates@.len() as int) =~= Seq::<Seq<char>>::empty());
    }
    Ok(())
}

/// How many of the payload types are the enum's own type parameters.
pub open spec fn spec_count_generics(tys: Seq<Seq<char>>, type_params: Seq<Seq<char>>) -> nat
    decreases tys.len(),
{
    if tys.len() == 0 {
        0
    } else {
        (if spec_is_generic(tys[0], type_params) {
            1nat
        } else {
            0nat
        }) + spec_count_generics(tys.skip(1), type_params)
    }
}

/// Law: pairwise distinct payload types, none already seen, and at most one
/// type parameter among them, pass the scan.
pub proof fn lemma_scan_accepts_distinct(
    tys: Seq<Seq<char>>,
    type_params: Seq<Seq<char>>,
    seen: Seq<Seq<char>>,
    generics: nat,
)
    requires
        forall|i: int, j: int| 0 <= i < j < tys.len() ==> tys[i] != tys[j],
        forall|i: int| 0 <= i < tys.len() ==> !seen.contains(#[trigger] tys[i]),
        generics + spec_count_generics(tys, type_params) <= 1,
    ensures
        spec_scan_from(tys, type_params, seen, generics) == Ok::<(), GenErrorView>(()),
    decreases tys.len(),
{
    if tys.len() > 0 {
        let ty = tys[0];
        let rest = tys.skip(1);
        assert(forall|i: int| 0 <= i < rest.len() ==> #[trigger] rest[i] == tys[i + 1]);
        assert forall|i: int| 0 <= i < rest.len() implies !seen.push(ty).contains(
            #[trigger] rest[i],
        ) by {
            assert(rest[i] == tys[i + 1]);
            assert(tys[i + 1] != ty);
            assert(!seen.contains(tys[i + 1]));
        }
        let g2: nat = if spec_is_generic(ty, type_params) {
            generics + 1
        } else {
            generics
        };
        lemma_scan_accepts_distinct(rest, type_params, seen.push(ty), g2);
    }
}

/// Law: a duplicated payload type among candidates free of type parameters
/// is rejected as a duplicate-candidate conflict.
pub proof fn lemma_scan_rejects_duplicate(
    tys: Seq<Seq<char>>,
    type_params: Seq<Seq<char>>,
    seen: Seq<Seq<char>>,
    generics: nat,
)
    requires
        spec_count_generics(tys, type_params) == 0,
        generics <= 1,
        (exists|i: int, j: int| 0 <= i < j < tys.len() && tys[i] == tys[j]) || (exists|i: int|
            0 <= i < tys.len() && seen.contains(#[trigger] tys[i])),
    ensures
        spec_scan_from(tys, type_params, seen, generics) is Err,
        spec_scan_from(tys, type_params, seen, generics)->Err_0 is DuplicateFromCandidate,
    decreases tys.len(),
{
    let ty = tys[0];
    let rest = tys.skip(1);
    assert(!spec_is_generic(ty, type_params));
    assert(spec_count_generics(rest, type_params) == 0);
    if seen.contains(ty) {
        // rejected right here
    } else {
        assert(forall|i: int| 0 <= i < rest.len() ==> #[trigger] rest[i] == tys[i + 1]);
        if exists|i: int, j: int| 0 <= i < j < tys.len() && tys[i] == tys[j] {
            let (i, j): (int, int) = choose|i: int, j: int|
                0 <= i < j < tys.len() && tys[i] == tys[j];
            if i == 0 {
                assert(rest[j - 1] == tys[j]);
                assert(seen.push(ty).contains(rest[j - 1])) by {
                    assert(seen.push(ty)[seen.len() as int] == ty);
                }
            } else {
                assert(rest[i - 1] == tys[i] && rest[j - 1] == tys[j]);
                assert(0 <= i - 1 < j - 1 < rest.len() && rest[i - 1] == rest[j - 1]);
            }
        } else {
            let i = choose|i: int| 0 <= i < tys.len() && seen.contains(#[trigger] tys[i]);
            assert(i != 0);
            assert(rest[i - 1] == tys[i]);
            assert(seen.push(ty).contains(rest[i - 1])) by {
                let k = choose|k: int| 0 <= k < seen.len() && seen[k] == tys[i];
                assert(seen.push(ty)[k] == tys[i]);
            }
        }
        lemma_scan_rejects_duplicate(rest, type_params, seen.push(ty), generics);
    }
}

} // verus!
