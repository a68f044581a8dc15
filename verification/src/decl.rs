//! The engine's own model of a sum-type declaration: the enum's name, its
//! generic parameters, and an ordered variant list, each variant carrying its
//! field shape and its configuration attributes. Every type here has a
//! mathematical view, so the pipeline's contracts can speak of declarations
//! as plain sequences of characters.

use vstd::prelude::*;

verus! {

/// The value given to one configuration token.
pub enum MetaValue {
    /// A bare token, as in `is`: stands for `true`.
    Bare,
    /// An explicit boolean, as in `is = false`.
    Bool(bool),
    /// An identifier, as in `only = as`.
    Ident(String),
    /// A string literal, as in `name = "MyKind"`.
    Str(String),
}

/// View of [`MetaValue`].
pub ghost enum MetaValueView {
    Bare,
    Bool(bool),
    Ident(Seq<char>),
    Str(Seq<char>),
}

impl View for MetaValue {
    type V = MetaValueView;

    open spec fn view(&self) -> MetaValueView {
        match self {
            MetaValue::Bare => MetaValueView::Bare,
            MetaValue::Bool(b) => MetaValueView::Bool(*b),
            MetaValue::Ident(s) => MetaValueView::Ident(s@),
            MetaValue::Str(s) => MetaValueView::Str(s@),
        }
    }
}

/// One `key`, or `key = value`, entry of a configuration attribute.
pub struct MetaItem {
    /// The token on the left, such as `only`, `ignore`, `all` or a
    /// capability name.
    pub key: String,
    /// The value on the right; a bare token carries [`MetaValue::Bare`].
    pub value: MetaValue,
}

/// View of [`MetaItem`].
pub ghost struct MetaItemView {
    pub key: Seq<char>,
    pub value: MetaValueView,
}

impl View for MetaItem {
    type V = MetaItemView;

    open spec fn view(&self) -> MetaItemView {
        MetaItemView { key: self.key@, value: self.value@ }
    }
}

/// One attribute of a declaration: its path and its parenthesised entries.
pub struct AttrDecl {
    /// The attribute's path, such as `sumtype`.
    pub path: String,
    /// The entries between the parentheses, in source order.
    pub items: Vec<MetaItem>,
}

/// View of [`AttrDecl`].
pub ghost struct AttrDeclView {
    pub path: Seq<char>,
    pub items: Seq<MetaItemView>,
}

impl View for AttrDecl {
    type V = AttrDeclView;

    open spec fn view(&self) -> AttrDeclView {
        AttrDeclView { path: self.path@, items: self.items@.map_values(|i: MetaItem| i@) }
    }
}

/// The field shape of one declared variant.
pub enum FieldsDecl {
    /// No fields at all: a unit-like, tag-only variant.
    Unit,
    /// Unnamed (tuple) fields; each entry is the rendering of one field type.
    Unnamed(Vec<String>),
    /// Named (struct-like) fields, which the engine never accepts a payload
    /// from.
    Named,
}

/// View of [`FieldsDecl`].
pub ghost enum FieldsDeclView {
    Unit,
    Unnamed(Seq<Seq<char>>),
    Named,
}

impl View for FieldsDecl {
    type V = FieldsDeclView;

    open spec fn view(&self) -> FieldsDeclView {
        match self {
            FieldsDecl::Unit => FieldsDeclView::Unit,
            FieldsDecl::Unnamed(tys) => FieldsDeclView::Unnamed(
                tys@.map_values(|t: String| t@),
            ),
            FieldsDecl::Named => FieldsDeclView::Named,
        }
    }
}

impl Clone for FieldsDecl {
    /// A clone keeps the shape and the rendered field types.
    fn clone(&self) -> (r: Self)
        ensures
            r@ == self@,
    {
        match self {
            FieldsDecl::Unit => FieldsDecl::Unit,
            FieldsDecl::Unnamed(tys) => {
                let r = FieldsDecl::Unnamed(crate::text::clone_strings(tys));
                proof {
                    assert(r@ =~~= self@);
                }
                r
            },
            FieldsDecl::Named => FieldsDecl::Named,
        }
    }
}

/// One declared variant: its identifier, its attributes and its fields.
pub struct VariantDecl {
    /// The variant's identifier, as declared.
    pub ident: String,
    /// The variant's attributes, in source order.
    pub attrs: Vec<AttrDecl>,
    /// The variant's field shape.
    pub fields: FieldsDecl,
}

/// View of [`VariantDecl`].
pub ghost struct VariantDeclView {
    pub ident: Seq<char>,
    pub attrs: Seq<AttrDeclView>,
    pub fields: FieldsDeclView,
}

impl View for VariantDecl {
    type V = VariantDeclView;

    open spec fn view(&self) -> VariantDeclView {
        VariantDeclView {
            ident: self.ident@,
            attrs: self.attrs@.map_values(|a: AttrDecl| a@),
            fields: self.fields@,
        }
    }
}

/// A sum-type declaration: the enum's name, generics and ordered variants.
pub struct EnumDecl {
    /// The enum's identifier.
    pub ident: String,
    /// The names of the enum's type parameters, in declaration order.
    pub type_params: Vec<String>,
    /// The names of the enum's lifetime parameters, without the tick, in
    /// declaration order.
    pub lifetimes: Vec<String>,
    /// The declared variants, in source order.
    pub variants: Vec<VariantDecl>,
}

/// View of [`EnumDecl`].
pub ghost struct EnumDeclView {
    pub ident: Seq<char>,
    pub type_params: Seq<Seq<char>>,
    pub lifetimes: Seq<Seq<char>>,
    pub variants: Seq<VariantDeclView>,
}

impl View for EnumDecl {
    type V = EnumDeclView;

    open spec fn view(&self) -> EnumDeclView {
        EnumDeclView {
            ident: self.ident@,
            type_params: self.type_params@.map_values(|t: String| t@),
            lifetimes: self.lifetimes@.map_values(|t: String| t@),
            variants: self.variants@.map_values(|v: VariantDecl| v@),
        }
    }
}

impl Clone for MetaValue {
    /// A clone keeps the value.
    fn clone(&self) -> (r: Self)
        ensures
            r@ == self@,
    {
        match self {
            MetaValue::Bare => MetaValue::Bare,
            MetaValue::Bool(b) => MetaValue::Bool(*b),
            MetaValue::Ident(s) => MetaValue::Ident(s.clone()),
            MetaValue::Str(s) => MetaValue::Str(s.clone()),
        }
    }
}

impl Clone for MetaItem {
    /// A clone keeps the entry.
    fn clone(&self) -> (r: Self)
        ensures
            r@ == self@,
    {
        MetaItem { key: self.key.clone(), value: self.value.clone() }
    }
}

impl Clone for AttrDecl {
    /// A clone keeps the attribute.
    fn clone(&self) -> (r: Self)
        ensures
            r@ == self@,
    {
        let mut items: Vec<MetaItem> = Vec::new();
        let mut i: usize = 0;
        while i < self.items.len()
            invariant
                i <= self.items.len(),
                items@.len() == i,
                forall|k: int| 0 <= k < i ==> items@[k]@ == self.items@[k]@,
            decreases self.items.len() - i,
        {
            items.push(self.items[i].clone());
            i += 1;
        }
        let r = AttrDecl { path: self.path.clone(), items };
        proof {
            assert(r@.items =~= self@.items);
        }
        r
    }
}

/// A declaration as handed to an engine entry point: only the enum form
/// carries a payload, since the engine rejects everything else.
pub enum Decl {
    /// An enum declaration.
    Enum(EnumDecl),
    /// A struct declaration.
    Struct,
    /// An untagged union declaration.
    Union,
}

/// View of [`Decl`].
pub ghost enum DeclView {
    Enum(EnumDeclView),
    Struct,
    Union,
}

impl View for Decl {
    type V = DeclView;

    open spec fn view(&self) -> DeclView {
        match self {
            Decl::Enum(e) => DeclView::Enum(e@),
            Decl::Struct => DeclView::Struct,
            Decl::Union => DeclView::Union,
        }
    }
}

} // verus!
