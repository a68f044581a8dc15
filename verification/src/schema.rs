//! The schema extractor: validates each declared variant against its
//! resolved capability set and produces the normalized variant schema list
//! every later stage works from.
//!
//! A variant whose resolved set is entirely false is dropped. A variant
//! whose resolved set asks only for the predicate needs no payload and is
//! kept as tag-only. Any other variant must carry exactly one unnamed
//! payload field, or extraction fails for the whole declaration.

use crate::decl::FieldsDecl;
use crate::decl::VariantDecl;
use crate::decl::VariantDeclView;
use crate::error::GenError;
use crate::error::GenErrorView;
use crate::flags::spec_add_scope;
use crate::flags::spec_all_false;
use crate::flags::spec_all_false_but_is;
use crate::flags::Attrs;
use crate::text::snake_of;
use crate::text::to_snake_case;
use vstd::prelude::*;

verus! {

/// The payload of one schema entry: the rendered payload type, or nothing
/// for a tag-only variant.
pub enum PayloadTy {
    /// The rendering of the variant's single payload type.
    Ty(String),
    /// No payload: the variant only answers the predicate.
    Absent,
}

/// View of [`PayloadTy`].
pub ghost enum PayloadTyView {
    Ty(Seq<char>),
    Absent,
}

impl View for PayloadTy {
    type V = PayloadTyView;

    open spec fn view(&self) -> PayloadTyView {
        match self {
            PayloadTy::Ty(t) => PayloadTyView::Ty(t@),
            PayloadTy::Absent => PayloadTyView::Absent,
        }
    }
}

impl Clone for PayloadTy {
    /// A clone keeps the payload type.
    fn clone(&self) -> (r: Self)
        ensures
            r@ == self@,
    {
        match self {
            PayloadTy::Ty(t) => PayloadTy::Ty(t.clone()),
            PayloadTy::Absent => PayloadTy::Absent,
        }
    }
}

/// One normalized variant: its identifier, its canonical lowercase name,
/// its resolved capability set and its payload.
pub struct VariantSchema {
    /// The variant's identifier, as declared.
    pub ident: String,
    /// The canonical lowercase word form of the identifier.
    pub lower: String,
    /// The variant's resolved capability set.
    pub attrs: Attrs,
    /// The variant's payload type, or nothing for a tag-only variant.
    pub payload: PayloadTy,
}

/// View of [`VariantSchema`].
pub ghost struct VariantSchemaView {
    pub ident: Seq<char>,
    pub lower: Seq<char>,
    pub attrs: Attrs,
    pub payload: PayloadTyView,
}

impl View for VariantSchema {
    type V = VariantSchemaView;

    open spec fn view(&self) -> VariantSchemaView {
        VariantSchemaView {
            ident: self.ident@,
            lower: self.lower@,
            attrs: self.attrs,
            payload: self.payload@,
        }
    }
}

/// Well-formedness of one schema entry: the canonical name is the lowercase
/// word form of the identifier, at least one capability is set, and a
/// tag-only entry asks for the predicate alone.
pub open spec fn schema_wf(s: VariantSchemaView) -> bool {
    &&& s.lower == snake_of(s.ident)
    &&& !spec_all_false(s.attrs)
    &&& s.payload is Absent ==> spec_all_false_but_is(s.attrs)
}

/// One declared variant normalized against the enum-level set: dropped when
/// everything resolves to false, tag-only when only the predicate is asked
/// for, and otherwise required to carry exactly one unnamed payload field.
pub open spec fn spec_extract_variant(enum_attrs: Attrs, v: VariantDeclView) -> Result<
    Option<VariantSchemaView>,
    GenErrorView,
> {
    match spec_add_scope(enum_attrs, v.attrs) {
        Err(e) => Err(e),
        Ok(a) => {
            if spec_all_false(a) {
                Ok(None)
            } else if spec_all_false_but_is(a) {
                Ok(
                    Some(
                        VariantSchemaView {
                            ident: v.ident,
                            lower: snake_of(v.ident),
                            attrs: a,
                            payload: PayloadTyView::Absent,
                        },
                    ),
                )
            } else {
                match v.fields {
                    crate::decl::FieldsDeclView::Unnamed(tys) => {
                        if tys.len() == 1 {
                            Ok(
                                Some(
                                    VariantSchemaView {
                                        ident: v.ident,
                                        lower: snake_of(v.ident),
                                        attrs: a,
                                        payload: PayloadTyView::Ty(tys[0]),
                                    },
                                ),
                            )
                        } else {
                            Err(GenErrorView::InvalidVariantShape { variant: v.ident })
                        }
                    },
                    _ => Err(GenErrorView::InvalidVariantShape { variant: v.ident }),
                }
            }
        },
    }
}

/// The whole declaration normalized, in declaration order; the first
/// failing variant aborts extraction.
pub open spec fn spec_extract(enum_attrs: Attrs, variants: Seq<VariantDeclView>) -> Result<
    Seq<VariantSchemaView>,
    GenErrorView,
>
    decreases variants.len(),
{
    if variants.len() == 0 {
        Ok(Seq::empty())
    } else {
        match spec_extract(enum_attrs, variants.drop_last()) {
            Err(e) => Err(e),
            Ok(s) => match spec_extract_variant(enum_attrs, variants.last()) {
                Err(e) => Err(e),
                Ok(None) => Ok(s),
                Ok(Some(sch)) => Ok(s.push(sch)),
            },
        }
    }
}

/// Law: every schema entry that extraction lets through is well-formed — in
/// particular, a tag-only entry asks for the predicate capability alone.
pub proof fn lemma_extract_all_wf(enum_attrs: Attrs, variants: Seq<VariantDeclView>)
    requires
        spec_extract(enum_attrs, variants) is Ok,
    ensures
        forall|k: int|
            0 <= k < spec_extract(enum_attrs, variants)->Ok_0.len() ==> schema_wf(
                #[trigger] spec_extract(enum_attrs, variants)->Ok_0[k],
            ),
    decreases variants.len(),
{
    if variants.len() > 0 {
        lemma_extract_all_wf(enum_attrs, variants.drop_last());
    }
}

/// Normalizes every declared variant against the enum-level set.
pub fn extract(enum_attrs: Attrs, variants: &Vec<VariantDecl>) -> (r: Result<
    Vec<VariantSchema>,
    GenError,
>)
    ensures
        ({
            let m = spec_extract(enum_attrs, variants@.map_values(|v: VariantDecl| v@));
            match r {
                Ok(s) => m == Ok::<Seq<VariantSchemaView>, GenErrorView>(
                    s@.map_values(|x: VariantSchema| x@),
                ),
                Err(e) => m == Err::<Seq<VariantSchemaView>, GenErrorView>(e@),
            }
        }),
{
    let ghost model = variants@.map_values(|v: VariantDecl| v@);
    let mut out: Vec<VariantSchema> = Vec::new();
    let mut i: usize = 0;
    proof {
        assert(model.take(0) =~= Seq::<VariantDeclView>::empty());
        assert(out@.map_values(|x: VariantSchema| x@) =~= Seq::<VariantSchemaView>::empty());
    }
    while i < variants.len()
        invariant
            i <= variants.len(),
            model == variants@.map_values(|v: VariantDecl| v@),
            spec_extract(enum_attrs, model.take(i as int)) == Ok::<
                Seq<VariantSchemaView>,
                GenErrorView,
            >(out@.map_values(|x: VariantSchema| x@)),
        decreases variants.len() - i,
    {
        proof {
            assert(model.take(i + 1).drop_last() =~= model.take(i as int));
            assert(model.take(i + 1).last() == model[i as int]);
        }
        let v = &variants[i];
        let a = match enum_attrs.add_scope(&v.attrs) {
            Ok(a) => a,
            Err(e) => {
                proof {
                    lemma_extract_err_stable(enum_attrs, model, i + 1);
                }
                return Err(e);
            },
        };
        if a.all_false() {
            // dropped from generation entirely
        } else if a.all_false_but_is() {
            let sch = VariantSchema {
                ident: v.ident.clone(),
                lower: to_snake_case(v.ident.as_str()),
                attrs: a,
                payload: PayloadTy::Absent,
            };
            let ghost old_out = out@.map_values(|x: VariantSchema| x@);
            out.push(sch);
            proof {
                assert(out@.map_values(|x: VariantSchema| x@) =~= old_out.push(
                    spec_extract_variant(enum_attrs, model[i as int])->Ok_0->Some_0,
                ));
            }
        } else {
            match &v.fields {
                FieldsDecl::Unnamed(tys) => {
                    if tys.len() == 1 {
                        let sch = VariantSchema {
                            ident: v.ident.clone(),
                            lower: to_snake_case(v.ident.as_str()),
                            attrs: a,
                            payload: PayloadTy::Ty(tys[0].clone()),
                        };
                        let ghost old_out = out@.map_values(|x: VariantSchema| x@);
                        out.push(sch);
                        proof {
                            assert(out@.map_values(|x: VariantSchema| x@) =~= old_out.push(
                                spec_extract_variant(enum_attrs, model[i as int])->Ok_0->Some_0,
                            ));
                        }
                    } else {
                        proof {
                            lemma_extract_err_stable(enum_attrs, model, i + 1);
                        }
                        return Err(GenError::InvalidVariantShape { variant: v.ident.clone() });
                    }
                },
                _ => {
                    proof {
                        lemma_extract_err_stable(enum_attrs, model, i + 1);
                    }
                    return Err(GenError::InvalidVariantShape { variant: v.ident.clone() });
                },
            }
        }
        i += 1;
    }
    proof {
        assert(model.take(variants@.len() as int) =~= model);
    }
    Ok(out)
}

/// Once a prefix of the variant list has failed, the whole declaration
/// fails with that same error.
pub proof fn lemma_extract_err_stable(
    enum_attrs: Attrs,
    variants: Seq<VariantDeclView>,
    j: int,
)
    requires
        0 <= j <= variants.len(),
        spec_extract(enum_attrs, variants.take(j)) is Err,
    ensures
        spec_extract(enum_attrs, variants) == spec_extract(enum_attrs, variants.take(j)),
    decreases variants.len() - j,
{
    if j == variants.len() {
        assert(variants.take(j) =~= variants);
    } else {
        assert(variants.take(j + 1).drop_last() =~= variants.take(j));
        lemma_extract_err_stable(enum_attrs, variants, j + 1);
    }
}

} // verus!
