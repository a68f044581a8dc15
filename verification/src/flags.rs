//! The capability flag set of the sum-type engine and its configuration
//! resolver.
//!
//! An [`Attrs`] value records, for one scope, which of the nine generation
//! capabilities are requested. Resolution is a strict left-to-right override
//! chain: built-in defaults, then the enum-level entries, then the
//! variant-level entries; [`spec_apply_items`] is the mathematical model of
//! one scope's entries and every executable resolver is proved against it.

use crate::decl::AttrDecl;
use crate::decl::MetaItem;
use crate::decl::MetaValue;
use crate::decl::MetaValueView;
use crate::error::gen_result_view;
use crate::error::GenError;
use crate::error::GenErrorView;
use crate::text::string_is;
use vstd::prelude::*;

verus! {

/// One capability set: which of the nine operation families a scope asks for.
///
/// The field names follow the configuration tokens: `add_as` answers to `as`,
/// `add_mut_as` to `as_mut`, `add_try_into_impl` to `impl_try_into`,
/// `add_from_impl` to `from`, and the rest to their own names.
#[derive(Clone, Copy, Debug, PartialEq, Eq, Structural)]
pub struct Attrs {
    /// Emit the reference accessor `as_{n}`.
    pub add_as: bool,
    /// Emit the owned accessor `into_{n}`.
    pub add_into: bool,
    /// Emit the predicate `is_{n}`.
    pub add_is: bool,
    /// Emit the mutable accessor `as_{n}_mut`.
    pub add_mut_as: bool,
    /// Emit the fallible owned conversion `try_into_{n}`.
    pub add_try_into: bool,
    /// Emit the grouped fallible conversion implementation keyed by payload
    /// type.
    pub add_try_into_impl: bool,
    /// Emit the fallible reference conversion `try_as_{n}`.
    pub add_try_as: bool,
    /// Emit the fallible mutable conversion `try_as_{n}_mut`.
    pub add_try_as_mut: bool,
    /// Emit the reverse conversion (a `From` implementation).
    pub add_from_impl: bool,
}

/// One of the nine capabilities, by name; used to state laws about
/// resolution uniformly over the flag set.
#[derive(Clone, Copy, Debug, PartialEq, Eq, Structural)]
pub enum Capability {
    /// The reference accessor.
    As,
    /// The owned accessor.
    Into,
    /// The predicate.
    Is,
    /// The mutable accessor.
    AsMut,
    /// The fallible owned conversion.
    TryInto,
    /// The grouped fallible conversion implementation.
    ImplTryInto,
    /// The fallible reference conversion.
    TryAs,
    /// The fallible mutable conversion.
    TryAsMut,
    /// The reverse conversion.
    From,
}

/// The flag that a capability occupies in a set.
pub open spec fn spec_get(a: Attrs, c: Capability) -> bool {
    match c {
        Capability::As => a.add_as,
        Capability::Into => a.add_into,
        Capability::Is => a.add_is,
        Capability::AsMut => a.add_mut_as,
        Capability::TryInto => a.add_try_into,
        Capability::ImplTryInto => a.add_try_into_impl,
        Capability::TryAs => a.add_try_as,
        Capability::TryAsMut => a.add_try_as_mut,
        Capability::From => a.add_from_impl,
    }
}

/// The configuration token that names a capability.
pub open spec fn cap_token(c: Capability) -> Seq<char> {
    match c {
        Capability::As => "as"@,
        Capability::Into => "into"@,
        Capability::Is => "is"@,
        Capability::AsMut => "as_mut"@,
        Capability::TryInto => "try_into"@,
        Capability::ImplTryInto => "impl_try_into"@,
        Capability::TryAs => "try_as"@,
        Capability::TryAsMut => "try_as_mut"@,
        Capability::From => "from"@,
    }
}

/// The set with every capability equal to `b`.
pub open spec fn spec_uniform(b: bool) -> Attrs {
    Attrs {
        add_as: b,
        add_into: b,
        add_is: b,
        add_mut_as: b,
        add_try_into: b,
        add_try_into_impl: b,
        add_try_as: b,
        add_try_as_mut: b,
        add_from_impl: b,
    }
}

/// The engine's built-in defaults: everything enabled except the grouped
/// fallible conversion implementation, which is opt-in because two variants
/// sharing a payload type would make it ambiguous.
pub open spec fn spec_defaults() -> Attrs {
    Attrs { add_try_into_impl: false, ..spec_uniform(true) }
}

/// The exclusive selection `only = name`: exactly the named capability is
/// set; a name that matches no capability leaves every flag false.
pub open spec fn spec_solo(name: Seq<char>) -> Attrs {
    Attrs {
        add_as: name == "as"@,
        add_into: name == "into"@,
        add_is: name == "is"@,
        add_mut_as: name == "as_mut"@,
        add_try_into: name == "try_into"@,
        add_try_into_impl: name == "impl_try_into"@,
        add_try_as: name == "try_as"@,
        add_try_as_mut: name == "try_as_mut"@,
        add_from_impl: name == "from"@,
    }
}

/// True when no capability at all is set.
pub open spec fn spec_all_false(a: Attrs) -> bool {
    &&& !a.add_as
    &&& !a.add_into
    &&& !a.add_is
    &&& !a.add_mut_as
    &&& !a.add_try_into
    &&& !a.add_try_into_impl
    &&& !a.add_try_as
    &&& !a.add_try_as_mut
    &&& !a.add_from_impl
}

/// True when the predicate is the only capability set: the shape that lets a
/// payload-less variant through the schema extractor.
pub open spec fn spec_all_false_but_is(a: Attrs) -> bool {
    !spec_all_false(a) && spec_all_false(Attrs { add_is: false, ..a })
}

/// One configuration entry applied to a flag set. `only = name` selects
/// exactly the named capability and rejects an unknown name; `ignore` clears
/// everything; `all = b` sets everything to `b`; a capability token sets that
/// one flag; anything else is an unrecognised token. A bare token stands for
/// `true`, and a value that is neither bare nor boolean (nor an identifier,
/// for `only`) is rejected.
pub open spec fn spec_apply_item(a: Attrs, item: crate::decl::MetaItemView) -> Result<
    Attrs,
    GenErrorView,
> {
    if item.key == "only"@ {
        match item.value {
            MetaValueView::Ident(name) => {
                let solo = spec_solo(name);
                if spec_all_false(solo) {
                    Err(GenErrorView::UnknownToken { token: name })
                } else {
                    Ok(solo)
                }
            },
            _ => Err(GenErrorView::InvalidValue { token: item.key }),
        }
    } else {
        match item.value {
            MetaValueView::Bare => spec_apply_keyed(a, item.key, true),
            MetaValueView::Bool(b) => spec_apply_keyed(a, item.key, b),
            _ => Err(GenErrorView::InvalidValue { token: item.key }),
        }
    }
}

/// A boolean-valued configuration token applied to a flag set.
pub open spec fn spec_apply_keyed(a: Attrs, key: Seq<char>, value: bool) -> Result<
    Attrs,
    GenErrorView,
> {
    if key == "ignore"@ {
        Ok(spec_uniform(false))
    } else if key == "all"@ {
        Ok(spec_uniform(value))
    } else if key == "as"@ {
        Ok(Attrs { add_as: value, ..a })
    } else if key == "into"@ {
        Ok(Attrs { add_into: value, ..a })
    } else if key == "is"@ {
        Ok(Attrs { add_is: value, ..a })
    } else if key == "as_mut"@ {
        Ok(Attrs { add_mut_as: value, ..a })
    } else if key == "try_into"@ {
        Ok(Attrs { add_try_into: value, ..a })
    } else if key == "impl_try_into"@ {
        Ok(Attrs { add_try_into_impl: value, ..a })
    } else if key == "try_as"@ {
        Ok(Attrs { add_try_as: value, ..a })
    } else if key == "try_as_mut"@ {
        Ok(Attrs { add_try_as_mut: value, ..a })
    } else if key == "from"@ {
        Ok(Attrs { add_from_impl: value, ..a })
    } else {
        Err(GenErrorView::UnknownToken { token: key })
    }
}

/// One scope's entries applied left to right; the first error aborts the
/// scope.
pub open spec fn spec_apply_items(a: Attrs, items: Seq<crate::decl::MetaItemView>) -> Result<
    Attrs,
    GenErrorView,
>
    decreases items.len(),
{
    if items.len() == 0 {
        Ok(a)
    } else {
        match spec_apply_items(a, items.drop_last()) {
            Ok(m) => spec_apply_item(m, items.last()),
            Err(e) => Err(e),
        }
    }
}

/// A scope's attribute list: the first attribute whose path is `sumtype`
/// resolves the scope, and later ones are left alone; a scope without one
/// keeps the incoming set.
pub open spec fn spec_add_scope(a: Attrs, attrs: Seq<crate::decl::AttrDeclView>) -> Result<
    Attrs,
    GenErrorView,
>
    decreases attrs.len(),
{
    if attrs.len() == 0 {
        Ok(a)
    } else if attrs[0].path == "sumtype"@ {
        spec_apply_items(a, attrs[0].items)
    } else {
        spec_add_scope(a, attrs.skip(1))
    }
}

impl Attrs {
    /// The set with every capability equal to `value`.
    pub fn uniform(value: bool) -> (r: Attrs)
        ensures
            r == spec_uniform(value),
    {
        Attrs {
            add_as: value,
            add_into: value,
            add_is: value,
            add_mut_as: value,
            add_try_into: value,
            add_try_into_impl: value,
            add_try_as: value,
            add_try_as_mut: value,
            add_from_impl: value,
        }
    }

    /// The engine's built-in defaults: everything enabled except the grouped
    /// fallible conversion implementation.
    pub fn defaults() -> (r: Attrs)
        ensures
            r == spec_defaults(),
    {
        Attrs { add_try_into_impl: false, ..Attrs::uniform(true) }
    }

    /// The exclusive selection: exactly the capability the name denotes.
    pub fn solo(name: &str) -> (r: Attrs)
        ensures
            r == spec_solo(name@),
    {
        Attrs {
            add_as: crate::text::str_eq(name, "as"),
            add_into: crate::text::str_eq(name, "into"),
            add_is: crate::text::str_eq(name, "is"),
            add_mut_as: crate::text::str_eq(name, "as_mut"),
            add_try_into: crate::text::str_eq(name, "try_into"),
            add_try_into_impl: crate::text::str_eq(name, "impl_try_into"),
            add_try_as: crate::text::str_eq(name, "try_as"),
            add_try_as_mut: crate::text::str_eq(name, "try_as_mut"),
            add_from_impl: crate::text::str_eq(name, "from"),
        }
    }

    /// True when no capability at all is set; such a variant is dropped from
    /// generation.
    pub fn all_false(&self) -> (r: bool)
        ensures
            r == spec_all_false(*self),
    {
        !(self.add_as || self.add_into || self.add_is || self.add_mut_as || self.add_try_into
            || self.add_try_into_impl || self.add_try_as || self.add_try_as_mut
            || self.add_from_impl)
    }

    /// True when the predicate is the only capability set.
    pub fn all_false_but_is(&self) -> (r: bool)
        ensures
            r == spec_all_false_but_is(*self),
    {
        if self.all_false() {
            false
        } else {
            let me = Attrs { add_is: false, ..*self };
            me.all_false()
        }
    }

    /// Applies one configuration entry on top of this set.
    pub fn apply_item(self, item: &MetaItem) -> (r: Result<Attrs, GenError>)
        ensures
            gen_result_view(r) == spec_apply_item(self, item@),
    {
        if string_is(&item.key, "only") {
            match &item.value {
                MetaValue::Ident(name) => {
                    let solo = Attrs::solo(name.as_str());
                    if solo.all_false() {
                        Err(GenError::UnknownToken { token: name.clone() })
                    } else {
                        Ok(solo)
                    }
                },
                _ => Err(GenError::InvalidValue { token: item.key.clone() }),
            }
        } else {
            let value: bool = match &item.value {
                MetaValue::Bare => true,
                MetaValue::Bool(b) => *b,
                _ => {
                    return Err(GenError::InvalidValue { token: item.key.clone() });
                },
            };
            if string_is(&item.key, "ignore") {
                Ok(Attrs::uniform(false))
            } else if string_is(&item.key, "all") {
                Ok(Attrs::uniform(value))
            } else if string_is(&item.key, "as") {
                Ok(Attrs { add_as: value, ..self })
            } else if string_is(&item.key, "into") {
                Ok(Attrs { add_into: value, ..self })
            } else if string_is(&item.key, "is") {
                Ok(Attrs { add_is: value, ..self })
            } else if string_is(&item.key, "as_mut") {
                Ok(Attrs { add_mut_as: value, ..self })
            } else if string_is(&item.key, "try_into") {
                Ok(Attrs { add_try_into: value, ..self })
            } else if string_is(&item.key, "impl_try_into") {
                Ok(Attrs { add_try_into_impl: value, ..self })
            } else if string_is(&item.key, "try_as") {
                Ok(Attrs { add_try_as: value, ..self })
            } else if string_is(&item.key, "try_as_mut") {
                Ok(Attrs { add_try_as_mut: value, ..self })
            } else if string_is(&item.key, "from") {
                Ok(Attrs { add_from_impl: value, ..self })
            } else {
                Err(GenError::UnknownToken { token: item.key.clone() })
            }
        }
    }

    /// Applies one scope's entries left to right; the first error aborts.
    pub fn apply_items(self, items: &Vec<MetaItem>) -> (r: Result<Attrs, GenError>)
        ensures
            gen_result_view(r) == spec_apply_items(
                self,
                items@.map_values(|i: MetaItem| i@),
            ),
    {
        let ghost model = items@.map_values(|i: MetaItem| i@);
        let mut acc = self;
        let mut i: usize = 0;
        while i < items.len()
            invariant
                i <= items.len(),
                model == items@.map_values(|it: MetaItem| it@),
                spec_apply_items(self, model.take(i as int)) == Ok::<Attrs, GenErrorView>(acc),
            decreases items.len() - i,
        {
            proof {
                assert(model.take(i + 1).drop_last() =~= model.take(i as int));
                assert(model.take(i + 1).last() == model[i as int]);
            }
            match acc.apply_item(&items[i]) {
                Ok(a) => {
                    acc = a;
                },
                Err(e) => {
                    proof {
                        lemma_apply_items_err_stable(self, model, i + 1);
                    }
                    return Err(e);
                },
            }
            i += 1;
        }
        proof {
            assert(model.take(items@.len() as int) =~= model);
        }
        Ok(acc)
    }

    /// Resolves one scope on top of this set: the first attribute whose path
    /// is `sumtype` is applied, later ones are left alone, and a scope
    /// without one keeps this set.
    pub fn add_scope(self, attrs: &Vec<AttrDecl>) -> (r: Result<Attrs, GenError>)
        ensures
            gen_result_view(r) == spec_add_scope(
                self,
                attrs@.map_values(|a: AttrDecl| a@),
            ),
    {
        let ghost model = attrs@.map_values(|a: AttrDecl| a@);
        proof {
            assert(model.skip(0) =~= model);
        }
        let mut i: usize = 0;
        while i < attrs.len()
            invariant
                i <= attrs.len(),
                model == attrs@.map_values(|a: AttrDecl| a@),
                spec_add_scope(self, model) == spec_add_scope(self, model.skip(i as int)),
            decreases attrs.len() - i,
        {
            proof {
                assert(model.skip(i as int)[0] == model[i as int]);
                assert(model.skip(i as int).skip(1) =~= model.skip(i + 1));
            }
            if string_is(&attrs[i].path, "sumtype") {
                return self.apply_items(&attrs[i].items);
            }
            i += 1;
        }
        proof {
            assert(model.skip(attrs@.len() as int) =~= Seq::<crate::decl::AttrDeclView>::empty());
        }
        Ok(self)
    }
}

/// The configuration tokens are pairwise distinct: no capability token is one
/// of the structural tokens `only`, `ignore` or `all`, and distinct
/// capabilities have distinct tokens.
pub proof fn lemma_tokens_distinct()
    ensures
        forall|c: Capability| cap_token(c) != "only"@,
        forall|c: Capability| cap_token(c) != "ignore"@,
        forall|c: Capability| cap_token(c) != "all"@,
        forall|c: Capability, d: Capability| c != d ==> cap_token(c) != cap_token(d),
        forall|c: Capability| c != Capability::As ==> cap_token(c) != "as"@,
        forall|c: Capability| c != Capability::Into ==> cap_token(c) != "into"@,
        forall|c: Capability| c != Capability::Is ==> cap_token(c) != "is"@,
        forall|c: Capability| c != Capability::AsMut ==> cap_token(c) != "as_mut"@,
        forall|c: Capability| c != Capability::TryInto ==> cap_token(c) != "try_into"@,
        forall|c: Capability| c != Capability::ImplTryInto ==> cap_token(c) != "impl_try_into"@,
        forall|c: Capability| c != Capability::TryAs ==> cap_token(c) != "try_as"@,
        forall|c: Capability| c != Capability::TryAsMut ==> cap_token(c) != "try_as_mut"@,
        forall|c: Capability| c != Capability::From ==> cap_token(c) != "from"@,
{
    broadcast use vstd::string::group_string_axioms;

    reveal_strlit("only");
    reveal_strlit("ignore");
    reveal_strlit("all");
    reveal_strlit("as");
    reveal_strlit("into");
    reveal_strlit("is");
    reveal_strlit("as_mut");
    reveal_strlit("try_into");
    reveal_strlit("impl_try_into");
    reveal_strlit("try_as");
    reveal_strlit("try_as_mut");
    reveal_strlit("from");
    assert("only"@.len() == 4);
    assert("ignore"@.len() == 6);
    assert("all"@.len() == 3);
    assert("as"@.len() == 2);
    assert("into"@.len() == 4);
    assert("is"@.len() == 2);
    assert("as_mut"@.len() == 6);
    assert("try_into"@.len() == 8);
    assert("impl_try_into"@.len() == 13);
    assert("try_as"@.len() == 6);
    assert("try_as_mut"@.len() == 10);
    assert("from"@.len() == 4);
    assert("as"@[0] == 'a');
    assert("is"@[0] == 'i');
    assert("only"@[0] == 'o');
    assert("into"@[0] == 'i');
    assert("from"@[0] == 'f');
    assert("ignore"@[0] == 'i');
    assert("as_mut"@[0] == 'a');
    assert("try_as"@[0] == 't');
}

/// Law: assigning one capability sets exactly that flag. Applying
/// `token = b` for a capability's token succeeds and yields the incoming set
/// with that capability equal to `b` and every other capability unchanged.
pub proof fn lemma_assignment_sets(a: Attrs, c: Capability, b: bool)
    ensures
        spec_apply_keyed(a, cap_token(c), b) is Ok,
        spec_get(spec_apply_keyed(a, cap_token(c), b)->Ok_0, c) == b,
        forall|d: Capability|
            d != c ==> spec_get(spec_apply_keyed(a, cap_token(c), b)->Ok_0, d) == spec_get(a, d),
{
    lemma_tokens_distinct();
    match c {
        Capability::As => {
            assert(spec_apply_keyed(a, cap_token(c), b) == Ok::<Attrs, GenErrorView>(
                Attrs { add_as: b, ..a },
            ));
        },
        Capability::Into => {
            assert(spec_apply_keyed(a, cap_token(c), b) == Ok::<Attrs, GenErrorView>(
                Attrs { add_into: b, ..a },
            ));
        },
        Capability::Is => {
            assert(spec_apply_keyed(a, cap_token(c), b) == Ok::<Attrs, GenErrorView>(
                Attrs { add_is: b, ..a },
            ));
        },
        Capability::AsMut => {
            assert(spec_apply_keyed(a, cap_token(c), b) == Ok::<Attrs, GenErrorView>(
                Attrs { add_mut_as: b, ..a },
            ));
        },
        Capability::TryInto => {
            assert(spec_apply_keyed(a, cap_token(c), b) == Ok::<Attrs, GenErrorView>(
                Attrs { add_try_into: b, ..a },
            ));
        },
        Capability::ImplTryInto => {
            assert(spec_apply_keyed(a, cap_token(c), b) == Ok::<Attrs, GenErrorView>(
                Attrs { add_try_into_impl: b, ..a },
            ));
        },
        Capability::TryAs => {
            assert(spec_apply_keyed(a, cap_token(c), b) == Ok::<Attrs, GenErrorView>(
                Attrs { add_try_as: b, ..a },
            ));
        },
        Capability::TryAsMut => {
            assert(spec_apply_keyed(a, cap_token(c), b) == Ok::<Attrs, GenErrorView>(
                Attrs { add_try_as_mut: b, ..a },
            ));
        },
        Capability::From => {
            assert(spec_apply_keyed(a, cap_token(c), b) == Ok::<Attrs, GenErrorView>(
                Attrs { add_from_impl: b, ..a },
            ));
        },
    }
}

/// Law: the innermost scope wins. Whatever the built-in defaults and the
/// outer scopes left in the incoming set, a scope whose last entry assigns a
/// capability resolves that capability to the assigned value.
pub proof fn lemma_last_assignment_wins(
    a: Attrs,
    items: Seq<crate::decl::MetaItemView>,
    c: Capability,
    b: bool,
)
    requires
        items.len() > 0,
        items.last().key == cap_token(c),
        items.last().value == MetaValueView::Bool(b),
        spec_apply_items(a, items) is Ok,
    ensures
        spec_get(spec_apply_items(a, items)->Ok_0, c) == b,
{
    lemma_tokens_distinct();
    lemma_assignment_sets(spec_apply_items(a, items.drop_last())->Ok_0, c, b);
}

/// True when applying the token could touch the given capability: its own
/// token, or one of the bulk tokens.
pub open spec fn key_mentions_cap(key: Seq<char>, c: Capability) -> bool {
    key == cap_token(c) || key == "all"@ || key == "ignore"@ || key == "only"@
}

/// A boolean-valued token other than its own, `all` or `ignore` leaves a
/// capability's flag as it was.
#[verifier::spinoff_prover]
#[verifier::rlimit(50)]
pub proof fn lemma_apply_keyed_keeps_unmentioned(
    a: Attrs,
    key: Seq<char>,
    value: bool,
    c: Capability,
)
    requires
        key != cap_token(c),
        key != "all"@,
        key != "ignore"@,
        spec_apply_keyed(a, key, value) is Ok,
    ensures
        spec_get(spec_apply_keyed(a, key, value)->Ok_0, c) == spec_get(a, c),
{
    let r = spec_apply_keyed(a, key, value)->Ok_0;
    assert({
        &&& key != "as"@ ==> r.add_as == a.add_as
        &&& key != "into"@ ==> r.add_into == a.add_into
        &&& key != "is"@ ==> r.add_is == a.add_is
        &&& key != "as_mut"@ ==> r.add_mut_as == a.add_mut_as
        &&& key != "try_into"@ ==> r.add_try_into == a.add_try_into
        &&& key != "impl_try_into"@ ==> r.add_try_into_impl == a.add_try_into_impl
        &&& key != "try_as"@ ==> r.add_try_as == a.add_try_as
        &&& key != "try_as_mut"@ ==> r.add_try_as_mut == a.add_try_as_mut
        &&& key != "from"@ ==> r.add_from_impl == a.add_from_impl
    }) by {};
    match c {
        Capability::As => {
        },
        Capability::Into => {
        },
        Capability::Is => {
        },
        Capability::AsMut => {
        },
        Capability::TryInto => {
        },
        Capability::ImplTryInto => {
        },
        Capability::TryAs => {
        },
        Capability::TryAsMut => {
        },
        Capability::From => {
        },
    }
}

/// One entry that does not mention a capability leaves that capability's
/// flag as it was.
#[verifier::spinoff_prover]
pub proof fn lemma_apply_item_keeps_unmentioned(
    a: Attrs,
    item: crate::decl::MetaItemView,
    c: Capability,
)
    requires
        !key_mentions_cap(item.key, c),
        spec_apply_item(a, item) is Ok,
    ensures
        spec_get(spec_apply_item(a, item)->Ok_0, c) == spec_get(a, c),
{
    match item.value {
        MetaValueView::Bare => {
            lemma_apply_keyed_keeps_unmentioned(a, item.key, true, c);
        },
        MetaValueView::Bool(b) => {
            lemma_apply_keyed_keeps_unmentioned(a, item.key, b, c);
        },
        MetaValueView::Ident(s) => {
            assert(false);
        },
        MetaValueView::Str(s) => {
            assert(false);
        },
    }
}

/// Law: outer scopes shine through. A scope none of whose entries names a
/// capability (nor uses `all`, `ignore` or `only`) resolves that capability
/// to whatever the outer scopes and defaults left in the incoming set.
pub proof fn lemma_unmentioned_capability_kept(
    a: Attrs,
    items: Seq<crate::decl::MetaItemView>,
    c: Capability,
)
    requires
        spec_apply_items(a, items) is Ok,
        forall|k: int| 0 <= k < items.len() ==> !key_mentions_cap(#[trigger] items[k].key, c),
    ensures
        spec_get(spec_apply_items(a, items)->Ok_0, c) == spec_get(a, c),
    decreases items.len(),
{
    if items.len() > 0 {
        lemma_unmentioned_capability_kept(a, items.drop_last(), c);
        lemma_apply_item_keeps_unmentioned(
            spec_apply_items(a, items.drop_last())->Ok_0,
            items.last(),
            c,
        );
    }
}

/// Law: the exclusive selection `only = token` yields exactly the named
/// capability, whatever the incoming set held.
pub proof fn lemma_only_selects(a: Attrs, item: crate::decl::MetaItemView, c: Capability)
    requires
        item.key == "only"@,
        item.value == MetaValueView::Ident(cap_token(c)),
    ensures
        spec_apply_item(a, item) is Ok,
        forall|d: Capability| spec_get(spec_apply_item(a, item)->Ok_0, d) == (d == c),
{
    lemma_tokens_distinct();
    let solo = spec_solo(cap_token(c));
    assert(spec_get(solo, c)) by {
        match c {
            Capability::As => {},
            Capability::Into => {},
            Capability::Is => {},
            Capability::AsMut => {},
            Capability::TryInto => {},
            Capability::ImplTryInto => {},
            Capability::TryAs => {},
            Capability::TryAsMut => {},
            Capability::From => {},
        }
    }
    assert forall|d: Capability| spec_get(solo, d) == (d == c) by {
        if d != c {
            assert(cap_token(d) != cap_token(c));
        }
    }
}

/// Once a prefix of a scope's entries has failed, the whole scope fails with
/// that same error.
pub proof fn lemma_apply_items_err_stable(
    a: Attrs,
    items: Seq<crate::decl::MetaItemView>,
    j: int,
)
    requires
        0 <= j <= items.len(),
        spec_apply_items(a, items.take(j)) is Err,
    ensures
        spec_apply_items(a, items) == spec_apply_items(a, items.take(j)),
    decreases items.len() - j,
{
    if j == items.len() {
        assert(items.take(j) =~= items);
    } else {
        assert(items.take(j + 1).drop_last() =~= items.take(j));
        lemma_apply_items_err_stable(a, items, j + 1);
    }
}

} // verus!
