//! The description of an object that the extraction produces.

use vstd::prelude::*;
use crate::position::SyntaxHandle;
use crate::resolve::{ParameterType, ParameterTypeView};
use crate::views::{view_all, view_opt};

verus! {

/// A name that is spelled differently in C++ and in Rust.
#[derive(Debug, Clone, PartialEq, Eq)]
pub struct CppRustIdent {
    /// The name in C++.
    pub cpp_ident: String,
    /// The name in Rust.
    pub rust_ident: String,
}

/// An argument of an invokable.
#[derive(Debug, Clone, PartialEq, Eq)]
pub struct Parameter {
    /// The name of the argument.
    pub ident: String,
    /// The type of the argument.
    pub type_ident: ParameterType,
}

/// A method that can be invoked from QML.
#[derive(Debug, Clone, PartialEq, Eq)]
pub struct Invokable {
    /// The name of the method.
    pub ident: String,
    /// The arguments of the method but for its receiver, in the order in
    /// which they are declared.
    pub parameters: Vec<Parameter>,
    /// The return type; `None` where the method returns nothing.
    pub return_type: Option<ParameterType>,
    /// The tree node of the method.
    pub original_method: SyntaxHandle,
}

/// A property that can be used from QML.
#[derive(Debug, Clone, PartialEq, Eq)]
pub struct Property {
    /// The name of the property: that of the field.
    pub ident: String,
    /// The type of the property.
    pub type_ident: ParameterType,
    /// The names of the getter.
    pub getter: Option<CppRustIdent>,
    /// The names of the setter.
    pub setter: Option<CppRustIdent>,
    /// The names of the change notification.
    pub notify: Option<CppRustIdent>,
}

/// An implementation of a trait, retargeted from the module's struct to the
/// struct that holds the object's data.
#[derive(Debug, Clone, PartialEq, Eq)]
pub struct TraitImpl {
    /// The name that the block's self type has after retargeting.
    pub self_ty: String,
    /// The tree node of the block.
    pub original: SyntaxHandle,
}

/// The description of a QObject.
#[derive(Debug, Clone, PartialEq, Eq)]
pub struct QObject {
    /// The name of the module that declares the object.
    pub module_ident: String,
    /// The name of the module's struct, which is the name of the C++ class.
    pub ident: String,
    /// The name of the struct that holds the object's data.
    pub rust_struct_ident: String,
    /// The methods that can be invoked from QML, in source order.
    pub invokables: Vec<Invokable>,
    /// The properties, in the order of the struct's fields.
    pub properties: Vec<Property>,
    /// The tree node of the struct's definition.
    pub original_struct: SyntaxHandle,
    /// The struct's implementations of traits, in source order.
    pub original_trait_impls: Vec<TraitImpl>,
    /// The tree nodes of the module's imports, in source order.
    pub original_use_decls: Vec<SyntaxHandle>,
}

/// The mathematical value of a [`CppRustIdent`].
pub ghost struct CppRustIdentView {
    pub cpp_ident: Seq<char>,
    pub rust_ident: Seq<char>,
}

/// The mathematical value of a [`Parameter`].
pub ghost struct ParameterView {
    pub ident: Seq<char>,
    pub type_ident: ParameterTypeView,
}

/// The mathematical value of an [`Invokable`].
pub ghost struct InvokableView {
    pub ident: Seq<char>,
    pub parameters: Seq<ParameterView>,
    pub return_type: Option<ParameterTypeView>,
    pub original_method: SyntaxHandle,
}

/// The mathematical value of a [`Property`].
pub ghost struct PropertyView {
    pub ident: Seq<char>,
    pub type_ident: ParameterTypeView,
    pub getter: Option<CppRustIdentView>,
    pub setter: Option<CppRustIdentView>,
    pub notify: Option<CppRustIdentView>,
}

/// The mathematical value of a [`TraitImpl`].
pub ghost struct TraitImplView {
    pub self_ty: Seq<char>,
    pub original: SyntaxHandle,
}

/// The mathematical value of a [`QObject`].
pub ghost struct QObjectView {
    pub module_ident: Seq<char>,
    pub ident: Seq<char>,
    pub rust_struct_ident: Seq<char>,
    pub invokables: Seq<InvokableView>,
    pub properties: Seq<PropertyView>,
    pub original_struct: SyntaxHandle,
    pub original_trait_impls: Seq<TraitImplView>,
    pub original_use_decls: Seq<SyntaxHandle>,
}

impl View for CppRustIdent {
    type V = CppRustIdentView;

    open spec fn view(&self) -> CppRustIdentView {
        CppRustIdentView { cpp_ident: self.cpp_ident@, rust_ident: self.rust_ident@ }
    }
}

impl View for Parameter {
    type V = ParameterView;

    open spec fn view(&self) -> ParameterView {
        ParameterView { ident: self.ident@, type_ident: self.type_ident@ }
    }
}

impl View for Invokable {
    type V = InvokableView;

    open spec fn view(&self) -> InvokableView {
        InvokableView {
            ident: self.ident@,
            parameters: view_all(self.parameters@),
            return_type: view_opt(self.return_type),
            original_method: self.original_method,
        }
    }
}

impl View for Property {
    type V = PropertyView;

    open spec fn view(&self) -> PropertyView {
        PropertyView {
            ident: self.ident@,
            type_ident: self.type_ident@,
            getter: view_opt(self.getter),
            setter: view_opt(self.setter),
            notify: view_opt(self.notify),
        }
    }
}

impl View for TraitImpl {
    type V = TraitImplView;

    open spec fn view(&self) -> TraitImplView {
        TraitImplView { self_ty: self.self_ty@, original: self.original }
    }
}

impl View for QObject {
    type V = QObjectView;

    open spec fn view(&self) -> QObjectView {
        QObjectView {
            module_ident: self.module_ident@,
            ident: self.ident@,
            rust_struct_ident: self.rust_struct_ident@,
            invokables: view_all(self.invokables@),
            properties: view_all(self.properties@),
            original_struct: self.original_struct,
            original_trait_impls: view_all(self.original_trait_impls@),
            original_use_decls: self.original_use_decls@,
        }
    }
}

} // verus!
