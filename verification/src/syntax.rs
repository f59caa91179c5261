//! The syntax of a module, as far as the extraction reads it.
//!
//! A front end parses the source text and hands the module over in these
//! types. Each construct that a diagnostic can point at carries its
//! position; each construct that the description hands on carries a handle
//! to the tree node it was made from.

use vstd::prelude::*;
use vstd::utf8::is_ascii_chars;
use crate::position::{SourcePosition, SyntaxHandle};
use crate::type_expr::{TypeExpr, TypeExprView};
use crate::views::{view_all, view_opt};

verus! {

/// The pattern that binds an argument of a method.
#[derive(Debug, PartialEq, Eq)]
pub enum Pattern {
    /// A plain name.
    Ident(String),
    /// Any other pattern: a tuple, a struct, a wildcard and so on.
    Other,
}

/// An argument of a method that is written with its type.
#[derive(Debug, PartialEq, Eq)]
pub struct TypedArg {
    /// The pattern that binds the argument.
    pub pattern: Pattern,
    /// The type of the argument.
    pub ty: TypeExpr,
    /// Where the argument stands.
    pub position: SourcePosition,
}

/// An argument of a method.
#[derive(Debug, PartialEq, Eq)]
pub enum FnArg {
    /// The receiver: `self`, `&self` or `&mut self`.
    Receiver,
    /// An argument that is written with its type.
    Typed(TypedArg),
}

/// The return type of a method, where it has one.
#[derive(Debug, PartialEq, Eq)]
pub struct Output {
    /// The type that the method returns.
    pub ty: TypeExpr,
    /// Where the arrow and the type stand.
    pub position: SourcePosition,
}

/// A method of an implementation block.
#[derive(Debug, PartialEq, Eq)]
pub struct Method {
    /// The name of the method.
    pub ident: String,
    /// The arguments, in the order in which they are declared.
    pub inputs: Vec<FnArg>,
    /// The return type; `None` where the method has no arrow.
    pub output: Option<Output>,
    /// The tree node of the method.
    pub handle: SyntaxHandle,
}

/// A member of an implementation block.
#[derive(Debug, PartialEq, Eq)]
pub enum ImplMember {
    /// A method.
    Method(Method),
    /// Anything else, such as a constant or a type, with its position.
    Other(SourcePosition),
}

/// A named field of a struct. Its name is ASCII text: [`Field::new`] makes
/// no field of any other name.
#[derive(Debug, PartialEq, Eq)]
pub struct Field {
    ident: String,
    ty: TypeExpr,
    position: SourcePosition,
}

/// The fields of a struct.
#[derive(Debug, PartialEq, Eq)]
pub enum Fields {
    /// Named fields, in the order in which they are declared.
    Named(Vec<Field>),
    /// Fields without names, or no fields at all.
    Unnamed,
}

/// The definition of a struct.
#[derive(Debug, PartialEq, Eq)]
pub struct StructDef {
    /// The name of the struct.
    pub ident: String,
    /// The fields of the struct.
    pub fields: Fields,
    /// Where the definition stands.
    pub position: SourcePosition,
    /// The tree node of the definition.
    pub handle: SyntaxHandle,
}

/// An implementation block.
#[derive(Debug, PartialEq, Eq)]
pub struct ImplBlock {
    /// The type that the block implements something for.
    pub self_ty: TypeExpr,
    /// Whether the block implements a trait.
    pub is_trait: bool,
    /// The members of the block, in order.
    pub items: Vec<ImplMember>,
    /// Where the block stands.
    pub position: SourcePosition,
    /// The tree node of the block.
    pub handle: SyntaxHandle,
}

/// An item of a module.
#[derive(Debug, PartialEq, Eq)]
pub enum Item {
    /// The definition of a struct.
    Struct(StructDef),
    /// An implementation block.
    Impl(ImplBlock),
    /// An import, as the handle of its tree node.
    Use(SyntaxHandle),
    /// Any other item, with its position.
    Other(SourcePosition),
}

/// A module with its items.
#[derive(Debug, PartialEq, Eq)]
pub struct Module {
    /// The name of the module.
    pub ident: String,
    /// The items of the module, in source order.
    pub items: Vec<Item>,
    /// Where the module stands.
    pub position: SourcePosition,
}

/// The mathematical value of a [`Pattern`].
pub ghost enum PatternView {
    Ident(Seq<char>),
    Other,
}

/// The mathematical value of a [`TypedArg`].
pub ghost struct TypedArgView {
    pub pattern: PatternView,
    pub ty: TypeExprView,
    pub position: SourcePosition,
}

/// The mathematical value of a [`FnArg`].
pub ghost enum FnArgView {
    Receiver,
    Typed(TypedArgView),
}

/// The mathematical value of an [`Output`].
pub ghost struct OutputView {
    pub ty: TypeExprView,
    pub position: SourcePosition,
}

/// The mathematical value of a [`Method`].
pub ghost struct MethodView {
    pub ident: Seq<char>,
    pub inputs: Seq<FnArgView>,
    pub output: Option<OutputView>,
    pub handle: SyntaxHandle,
}

/// The mathematical value of an [`ImplMember`].
pub ghost enum ImplMemberView {
    Method(MethodView),
    Other(SourcePosition),
}

/// The mathematical value of a [`Field`].
pub ghost struct FieldView {
    pub ident: Seq<char>,
    pub ty: TypeExprView,
    pub position: SourcePosition,
}

/// The mathematical value of [`Fields`].
pub ghost enum FieldsView {
    Named(Seq<FieldView>),
    Unnamed,
}

/// The mathematical value of a [`StructDef`].
pub ghost struct StructDefView {
    pub ident: Seq<char>,
    pub fields: FieldsView,
    pub position: SourcePosition,
    pub handle: SyntaxHandle,
}

/// The mathematical value of an [`ImplBlock`].
pub ghost struct ImplBlockView {
    pub self_ty: TypeExprView,
    pub is_trait: bool,
    pub items: Seq<ImplMemberView>,
    pub position: SourcePosition,
    pub handle: SyntaxHandle,
}

/// The mathematical value of an [`Item`].
pub ghost enum ItemView {
    Struct(StructDefView),
    Impl(ImplBlockView),
    Use(SyntaxHandle),
    Other(SourcePosition),
}

/// The mathematical value of a [`Module`].
pub ghost struct ModuleView {
    pub ident: Seq<char>,
    pub items: Seq<ItemView>,
    pub position: SourcePosition,
}

impl View for Pattern {
    type V = PatternView;

    open spec fn view(&self) -> PatternView {
        match self {
            Pattern::Ident(name) => PatternView::Ident(name@),
            Pattern::Other => PatternView::Other,
        }
    }
}

impl View for TypedArg {
    type V = TypedArgView;

    open spec fn view(&self) -> TypedArgView {
        TypedArgView { pattern: self.pattern@, ty: self.ty@, position: self.position }
    }
}

impl View for FnArg {
    type V = FnArgView;

    open spec fn view(&self) -> FnArgView {
        match self {
            FnArg::Receiver => FnArgView::Receiver,
            FnArg::Typed(arg) => FnArgView::Typed(arg@),
        }
    }
}

impl View for Output {
    type V = OutputView;

    open spec fn view(&self) -> OutputView {
        OutputView { ty: self.ty@, position: self.position }
    }
}

impl View for Method {
    type V = MethodView;

    open spec fn view(&self) -> MethodView {
        MethodView {
            ident: self.ident@,
            inputs: view_all(self.inputs@),
            output: view_opt(self.output),
            handle: self.handle,
        }
    }
}

impl View for ImplMember {
    type V = ImplMemberView;

    open spec fn view(&self) -> ImplMemberView {
        match self {
            ImplMember::Method(method) => ImplMemberView::Method(method@),
            ImplMember::Other(position) => ImplMemberView::Other(*position),
        }
    }
}

impl View for Field {
    type V = FieldView;

    closed spec fn view(&self) -> FieldView {
        FieldView { ident: self.ident@, ty: self.ty@, position: self.position }
    }
}

impl View for Fields {
    type V = FieldsView;

    open spec fn view(&self) -> FieldsView {
        match self {
            Fields::Named(fields) => FieldsView::Named(view_all(fields@)),
            Fields::Unnamed => FieldsView::Unnamed,
        }
    }
}

impl View for StructDef {
    type V = StructDefView;

    open spec fn view(&self) -> StructDefView {
        StructDefView {
            ident: self.ident@,
            fields: self.fields@,
            position: self.position,
            handle: self.handle,
        }
    }
}

impl View for ImplBlock {
    type V = ImplBlockView;

    open spec fn view(&self) -> ImplBlockView {
        ImplBlockView {
            self_ty: self.self_ty@,
            is_trait: self.is_trait,
            items: view_all(self.items@),
            position: self.position,
            handle: self.handle,
        }
    }
}

impl View for Item {
    type V = ItemView;

    open spec fn view(&self) -> ItemView {
        match self {
            Item::Struct(def) => ItemView::Struct(def@),
            Item::Impl(block) => ItemView::Impl(block@),
            Item::Use(handle) => ItemView::Use(*handle),
            Item::Other(position) => ItemView::Other(*position),
        }
    }
}

impl View for Module {
    type V = ModuleView;

    open spec fn view(&self) -> ModuleView {
        ModuleView { ident: self.ident@, items: view_all(self.items@), position: self.position }
    }
}

impl Field {
    #[verifier::type_invariant]
    spec fn ascii_name(self) -> bool {
        is_ascii_chars(self.ident@)
    }

    /// A field called `ident` of the type `ty`, declared at `position`.
    /// There is one exactly if `ident` is ASCII text.
    pub fn new(ident: String, ty: TypeExpr, position: SourcePosition) -> (r: Option<Field>)
        ensures
            r is Some <==> is_ascii_chars(ident@),
            r matches Some(field) ==> field@ == (FieldView { ident: ident@, ty: ty@, position }),
    {
        if ident.is_ascii() {
            Some(Field { ident, ty, position })
        } else {
            None
        }
    }

    /// The name of the field, which is ASCII text.
    pub fn ident(&self) -> (r: &String)
        ensures
            r@ == self@.ident,
            is_ascii_chars(r@),
    {
        proof {
            use_type_invariant(self);
        }
        &self.ident
    }

    /// The type of the field.
    pub fn ty(&self) -> (r: &TypeExpr)
        ensures
            r@ == self@.ty,
    {
        &self.ty
    }

    /// Where the field stands.
    pub fn position(&self) -> (r: SourcePosition)
        ensures
            r == self@.position,
    {
        self.position
    }
}

} // verus!
