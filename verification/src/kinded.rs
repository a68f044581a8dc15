//! The companion "kind" engine: for a sum-type declaration it derives a
//! parallel tag-only enum, with one unit case per variant, and a total
//! function mapping every value to its tag, under configurable names.

use crate::decl::Decl;
use crate::decl::MetaItem;
use crate::decl::MetaValue;
use crate::decl::MetaValueView;
use crate::error::GenError;
use crate::error::GenErrorView;
use crate::text::string_is;
use vstd::prelude::*;
use vstd::string::StringExecFns;

verus! {

/// The configuration of the kind engine: an override for the tag enum's
/// name, an override for the mapping function's name, and an opt-out of the
/// mapping function.
pub struct Attrs {
    /// The tag enum's name, when overridden.
    pub name: Option<String>,
    /// The mapping function's name, when overridden.
    pub kind_fn: Option<String>,
    /// True to generate no mapping function at all.
    pub no_kind_fn: bool,
}

/// View of [`Attrs`].
pub ghost struct AttrsView {
    pub name: Option<Seq<char>>,
    pub kind_fn: Option<Seq<char>>,
    pub no_kind_fn: bool,
}

impl View for Attrs {
    type V = AttrsView;

    open spec fn view(&self) -> AttrsView {
        AttrsView {
            name: match self.name {
                Some(ref s) => Some(s@),
                None => None,
            },
            kind_fn: match self.kind_fn {
                Some(ref s) => Some(s@),
                None => None,
            },
            no_kind_fn: self.no_kind_fn,
        }
    }
}

impl Default for Attrs {
    /// No overrides: the derived names, with the mapping function kept.
    fn default() -> (r: Attrs)
        ensures
            r@ == (AttrsView { name: None, kind_fn: None, no_kind_fn: false }),
    {
        Attrs { name: None, kind_fn: None, no_kind_fn: false }
    }
}

/// One configuration entry of the kind engine applied to its settings:
/// `name = "..."` and `kind_fn = "..."` take a string value, `no_kind_fn`
/// stands alone, and anything else is rejected as an invalid argument of
/// the kind engine.
pub open spec fn spec_kinded_apply_item(a: AttrsView, item: crate::decl::MetaItemView) -> Result<
    AttrsView,
    GenErrorView,
> {
    if item.key == "name"@ {
        match item.value {
            MetaValueView::Str(s) => Ok(AttrsView { name: Some(s), ..a }),
            _ => Err(GenErrorView::InvalidValue { token: item.key }),
        }
    } else if item.key == "kind_fn"@ {
        match item.value {
            MetaValueView::Str(s) => Ok(AttrsView { kind_fn: Some(s), ..a }),
            _ => Err(GenErrorView::InvalidValue { token: item.key }),
        }
    } else if item.key == "no_kind_fn"@ {
        match item.value {
            MetaValueView::Bare => Ok(AttrsView { no_kind_fn: true, ..a }),
            _ => Err(GenErrorView::InvalidValue { token: item.key }),
        }
    } else {
        Err(GenErrorView::KindedUnknownToken { token: item.key })
    }
}

impl Attrs {
    /// Applies one configuration entry on top of these settings.
    pub fn apply_item(self, item: &MetaItem) -> (r: Result<Attrs, GenError>)
        ensures
            ({
                let m = spec_kinded_apply_item(self@, item@);
                match r {
                    Ok(a) => m == Ok::<AttrsView, GenErrorView>(a@),
                    Err(e) => m == Err::<AttrsView, GenErrorView>(e@),
                }
            }),
    {
        if string_is(&item.key, "name") {
            match &item.value {
                MetaValue::Str(s) => Ok(Attrs { name: Some(s.clone()), ..self }),
                _ => Err(GenError::InvalidValue { token: item.key.clone() }),
            }
        } else if string_is(&item.key, "kind_fn") {
            match &item.value {
                MetaValue::Str(s) => Ok(Attrs { kind_fn: Some(s.clone()), ..self }),
                _ => Err(GenError::InvalidValue { token: item.key.clone() }),
            }
        } else if string_is(&item.key, "no_kind_fn") {
            match &item.value {
                MetaValue::Bare => Ok(Attrs { no_kind_fn: true, ..self }),
                _ => Err(GenError::InvalidValue { token: item.key.clone() }),
            }
        } else {
            Err(GenError::KindedUnknownToken { token: item.key.clone() })
        }
    }
}

/// What the kind engine emits: the tag enum's name, one unit case per
/// declared variant in order, and the mapping function's name unless it was
/// opted out of.
pub struct KindedOutput {
    /// The tag enum's name.
    pub kind_name: String,
    /// The mapping function's name, or nothing when opted out.
    pub kind_fn: Option<String>,
    /// The tag cases: every declared variant's identifier, in order.
    pub kinds: Vec<String>,
}

/// View of [`KindedOutput`].
pub ghost struct KindedOutputView {
    pub kind_name: Seq<char>,
    pub kind_fn: Option<Seq<char>>,
    pub kinds: Seq<Seq<char>>,
}

impl View for KindedOutput {
    type V = KindedOutputView;

    open spec fn view(&self) -> KindedOutputView {
        KindedOutputView {
            kind_name: self.kind_name@,
            kind_fn: match self.kind_fn {
                Some(ref s) => Some(s@),
                None => None,
            },
            kinds: self.kinds@.map_values(|s: String| s@),
        }
    }
}

/// The kind engine on one declaration: reject anything but an enum; name
/// the tag enum after the declaration, `{Ident}Kind`, unless overridden;
/// name the mapping function `kind` unless overridden or opted out; and
/// list one tag per variant in declaration order.
pub open spec fn spec_kinded(attrs: AttrsView, d: crate::decl::DeclView) -> Result<
    KindedOutputView,
    GenErrorView,
> {
    match d {
        crate::decl::DeclView::Enum(e) => Ok(
            KindedOutputView {
                kind_name: match attrs.name {
                    Some(n) => n,
                    None => e.ident + "Kind"@,
                },
                kind_fn: if attrs.no_kind_fn {
                    None
                } else {
                    Some(
                        match attrs.kind_fn {
                            Some(f) => f,
                            None => "kind"@,
                        },
                    )
                },
                kinds: e.variants.map_values(|v: crate::decl::VariantDeclView| v.ident),
            },
        ),
        _ => Err(GenErrorView::KindedNotAnEnum),
    }
}

/// Runs the kind engine on one declaration with the given settings.
pub fn kinded_macro(attrs: Attrs, input: &Decl) -> (r: Result<KindedOutput, GenError>)
    ensures
        ({
            let m = spec_kinded(attrs@, input@);
            match r {
                Ok(o) => m == Ok::<KindedOutputView, GenErrorView>(o@),
                Err(e) => m == Err::<KindedOutputView, GenErrorView>(e@),
            }
        }),
{
    let e = match input {
        Decl::Enum(e) => e,
        _ => {
            return Err(GenError::KindedNotAnEnum);
        },
    };
    let kind_name = match &attrs.name {
        Some(n) => n.clone(),
        None => {
            let mut n = e.ident.clone();
            n.append("Kind");
            n
        },
    };
    let kind_fn = if attrs.no_kind_fn {
        None
    } else {
        match &attrs.kind_fn {
            Some(f) => Some(f.clone()),
            None => Some("kind".to_owned()),
        }
    };
    let mut kinds: Vec<String> = Vec::new();
    let mut i: usize = 0;
    while i < e.variants.len()
        invariant
            i <= e.variants.len(),
            kinds@.len() == i,
            forall|k: int| 0 <= k < i ==> kinds@[k]@ == e.variants@[k]@.ident,
        decreases e.variants.len() - i,
    {
        kinds.push(e.variants[i].ident.clone());
        i += 1;
    }
    let o = KindedOutput { kind_name, kind_fn, kinds };
    proof {
        assert(o@.kinds =~= e@.variants.map_values(
            |v: crate::decl::VariantDeclView| v.ident,
        ));
        assert(o@ == spec_kinded(attrs@, input@)->Ok_0);
    }
    Ok(o)
}

} // verus!
