//! A plain data model of the parsed source trees that the extractor walks.
//!
//! Parsing itself is a collaborator outside this crate: a front end turns a
//! source file into the item list below, and the extractor only reads it.
//! Each type carries a mathematical view (`deep_view`) over which every
//! contract in the crate is stated.

use vstd::prelude::*;

verus! {

/// One argument inside an attribute's argument list, e.g. the words of
/// `#[derive(A, B)]`.
pub enum MetaItem {
    /// A nested meta item that is a bare word, such as `A` in `#[derive(A)]`.
    Word(String),
    /// A literal argument; never a marker word.
    Literal,
}

/// View of [`MetaItem`].
pub enum MetaItemV {
    Word(Seq<char>),
    Literal,
}

impl DeepView for MetaItem {
    type V = MetaItemV;

    open spec fn deep_view(&self) -> MetaItemV {
        match self {
            MetaItem::Word(w) => MetaItemV::Word(w@),
            MetaItem::Literal => MetaItemV::Literal,
        }
    }
}

/// An attribute on an item: a name and, for list attributes such as
/// `#[derive(A, B)]`, the argument words. A bare attribute such as `#[name]`
/// has no argument list at all.
pub struct Attribute {
    pub name: String,
    pub args: Option<Vec<MetaItem>>,
}

/// View of [`Attribute`].
#[verifier::ext_equal]
pub struct AttributeV {
    pub name: Seq<char>,
    pub args: Option<Seq<MetaItemV>>,
}

impl DeepView for Attribute {
    type V = AttributeV;

    open spec fn deep_view(&self) -> AttributeV {
        AttributeV { name: self.name@, args: self.args.deep_view() }
    }
}

/// One field of a struct declaration. A tuple field has no name.
pub struct Field {
    pub name: Option<String>,
    pub public: bool,
    pub ty: String,
}

/// View of [`Field`].
#[verifier::ext_equal]
pub struct FieldV {
    pub name: Option<Seq<char>>,
    pub public: bool,
    pub ty: Seq<char>,
}

impl DeepView for Field {
    type V = FieldV;

    open spec fn deep_view(&self) -> FieldV {
        FieldV { name: self.name.deep_view(), public: self.public, ty: self.ty@ }
    }
}

/// The shape of a struct declaration's field list.
pub enum VariantData {
    /// A brace struct with named fields.
    Struct(Vec<Field>),
    /// A tuple struct; its fields are unnamed.
    Tuple(Vec<Field>),
    /// A unit struct without a field list.
    Unit,
}

/// View of [`VariantData`].
pub enum VariantDataV {
    Struct(Seq<FieldV>),
    Tuple(Seq<FieldV>),
    Unit,
}

impl DeepView for VariantData {
    type V = VariantDataV;

    open spec fn deep_view(&self) -> VariantDataV {
        match self {
            VariantData::Struct(fs) => VariantDataV::Struct(fs.deep_view()),
            VariantData::Tuple(fs) => VariantDataV::Tuple(fs.deep_view()),
            VariantData::Unit => VariantDataV::Unit,
        }
    }
}

/// What kind of member an impl block holds.
pub enum MemberKind {
    /// A function-kind member.
    Method,
    /// Any other member kind: associated constants, associated types, and the
    /// like, which binding generation never touches.
    Other,
}

/// View of [`MemberKind`].
pub enum MemberKindV {
    Method,
    Other,
}

impl DeepView for MemberKind {
    type V = MemberKindV;

    open spec fn deep_view(&self) -> MemberKindV {
        match self {
            MemberKind::Method => MemberKindV::Method,
            MemberKind::Other => MemberKindV::Other,
        }
    }
}

/// One member of an impl block.
pub struct ImplMember {
    pub name: String,
    pub public: bool,
    pub kind: MemberKind,
}

/// View of [`ImplMember`].
#[verifier::ext_equal]
pub struct ImplMemberV {
    pub name: Seq<char>,
    pub public: bool,
    pub kind: MemberKindV,
}

impl DeepView for ImplMember {
    type V = ImplMemberV;

    open spec fn deep_view(&self) -> ImplMemberV {
        ImplMemberV { name: self.name@, public: self.public, kind: self.kind.deep_view() }
    }
}

/// The kinds of top-level items the extractor distinguishes.
pub enum ItemKind {
    /// A struct declaration.
    Struct(VariantData),
    /// An impl block. `of_trait` is true for trait impls, whose members are
    /// never extracted; `self_id` is the declaration identity of the
    /// implemented type.
    Impl { of_trait: bool, self_id: u64, members: Vec<ImplMember> },
    /// Any other item kind.
    Other,
}

/// View of [`ItemKind`].
pub enum ItemKindV {
    Struct(VariantDataV),
    Impl { of_trait: bool, self_id: u64, members: Seq<ImplMemberV> },
    Other,
}

impl DeepView for ItemKind {
    type V = ItemKindV;

    open spec fn deep_view(&self) -> ItemKindV {
        match self {
            ItemKind::Struct(data) => ItemKindV::Struct(data.deep_view()),
            ItemKind::Impl { of_trait, self_id, members } => ItemKindV::Impl {
                of_trait: *of_trait,
                self_id: *self_id,
                members: members.deep_view(),
            },
            ItemKind::Other => ItemKindV::Other,
        }
    }
}

/// One top-level item of a parsed source file. `id` is the declaration
/// identity that ties an impl block to the struct it implements.
pub struct Item {
    pub id: u64,
    pub ident: String,
    pub attrs: Vec<Attribute>,
    pub kind: ItemKind,
}

/// View of [`Item`].
#[verifier::ext_equal]
pub struct ItemV {
    pub id: u64,
    pub ident: Seq<char>,
    pub attrs: Seq<AttributeV>,
    pub kind: ItemKindV,
}

impl DeepView for Item {
    type V = ItemV;

    open spec fn deep_view(&self) -> ItemV {
        ItemV {
            id: self.id,
            ident: self.ident@,
            attrs: self.attrs.deep_view(),
            kind: self.kind.deep_view(),
        }
    }
}

} // verus!
