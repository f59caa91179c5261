//! The extraction on whole modules, written out as the front end would hand
//! them over.

use qobject_extract::{
    extract_qobject, Field, Fields, FnArg, ImplBlock, ImplMember, Item, Method, Module, Output,
    PathSegment, Pattern, SourcePosition, StructDef, SyntaxHandle, TypeExpr, TypedArg,
};

fn at(index: usize) -> SourcePosition {
    SourcePosition { index }
}

fn named(name: &str, position: SourcePosition) -> TypeExpr {
    TypeExpr::Path(vec![PathSegment { ident: name.to_string(), generic: false, position }])
}

fn reference(referent: TypeExpr) -> TypeExpr {
    TypeExpr::Reference(Box::new(referent))
}

fn argument(name: &str, ty: TypeExpr, position: SourcePosition) -> FnArg {
    FnArg::Typed(TypedArg { pattern: Pattern::Ident(name.to_string()), ty, position })
}

fn field(name: &str, ty: TypeExpr, position: SourcePosition) -> Field {
    Field::new(name.to_string(), ty, position).unwrap()
}

fn my_object(fields: Fields, base: usize, index: usize) -> Item {
    Item::Struct(
        StructDef {
            ident: "MyObject".to_string(),
            fields,
            position: at(base + 4),
            handle: SyntaxHandle { index },
        },
    )
}

fn number_and_string(base: usize) -> Fields {
    Fields::Named(vec![
        field("number", named("i32", at(base + 116)), at(base + 108)),
        field("string", named("String", at(base + 216)), at(base + 208)),
    ])
}

fn say_hi(base: usize, index: usize) -> ImplMember {
    ImplMember::Method(Method {
        ident: "say_hi".to_string(),
        inputs: vec![
            FnArg::Receiver,
            argument("string", reference(named("str", at(base + 33))), at(base + 24)),
            argument("number", named("i32", at(base + 46)), at(base + 38)),
        ],
        output: None,
        handle: SyntaxHandle { index },
    })
}

fn say_bye(base: usize, index: usize) -> ImplMember {
    ImplMember::Method(Method {
        ident: "say_bye".to_string(),
        inputs: vec![FnArg::Receiver],
        output: None,
        handle: SyntaxHandle { index },
    })
}

fn inherent_impl(items: Vec<ImplMember>, base: usize, index: usize) -> Item {
    Item::Impl(ImplBlock {
        self_ty: named("MyObject", at(base + 9)),
        is_trait: false,
        items,
        position: at(base + 4),
        handle: SyntaxHandle { index },
    })
}

fn my_module(items: Vec<Item>) -> Module {
    Module { ident: "my_object".to_string(), items, position: at(100) }
}

/// mod my_object {
///     struct MyObject { public: i32 }
///     impl Default for MyObject { fn default() -> Self { .. } }
///     impl MyObject { fn test(&self) -> i32 { .. } }
/// }
fn basic_custom_default() -> Module {
    my_module(vec![
        my_object(Fields::Named(vec![field("public", named("i32", at(316)), at(308))]), 200, 0),
        Item::Impl(ImplBlock {
            self_ty: named("MyObject", at(621)),
            is_trait: true,
            items: vec![ImplMember::Method(Method {
                ident: "default".to_string(),
                inputs: vec![],
                output: Some(Output { ty: named("Self", at(724)), position: at(721) }),
                handle: SyntaxHandle { index: 2 },
            })],
            position: at(604),
            handle: SyntaxHandle { index: 1 },
        }),
        inherent_impl(
            vec![ImplMember::Method(Method {
                ident: "test".to_string(),
                inputs: vec![FnArg::Receiver],
                output: Some(Output { ty: named("i32", at(1326)), position: at(1323) }),
                handle: SyntaxHandle { index: 4 },
            })],
            1200,
            3,
        ),
    ])
}

/// mod my_object {
///     struct MyObject { number: i32, string: String }
///     impl MyObject {
///         fn say_hi(&self, string: &str, number: i32) { .. }
///         fn say_bye(&self) { .. }
///     }
/// }
fn basic_invokable_and_properties() -> Module {
    my_module(vec![
        my_object(number_and_string(200), 200, 0),
        inherent_impl(vec![say_hi(800, 2), say_bye(1200, 3)], 700, 1),
    ])
}

/// mod my_object {
///     struct MyObject;
///     impl MyObject {
///         fn say_hi(&self, string: &str, number: i32) { .. }
///         fn say_bye(&self) { .. }
///     }
/// }
fn basic_only_invokable() -> Module {
    my_module(vec![
        my_object(Fields::Unnamed, 200, 0),
        inherent_impl(vec![say_hi(500, 2), say_bye(900, 3)], 400, 1),
    ])
}

/// mod my_object {
///     struct MyObject { number: i32, string: String }
/// }
fn basic_only_properties() -> Module {
    my_module(vec![my_object(number_and_string(200), 200, 0)])
}

/// mod my_object {
///     use super::MyTrait;
///     struct MyObject { number: i32 }
///     impl MyObject { fn say_bye(&self) { .. } }
/// }
fn basic_mod_use() -> Module {
    my_module(vec![
        Item::Use(SyntaxHandle { index: 0 }),
        my_object(Fields::Named(vec![field("number", named("i32", at(516)), at(508))]), 400, 1),
        inherent_impl(vec![say_bye(900, 3)], 800, 2),
    ])
}

#[test]
fn parses_basic_custom_default() {
    let module = basic_custom_default();
    let qobject = extract_qobject(module).unwrap();

    // Check that it got the invokables and properties
    assert_eq!(qobject.invokables.len(), 1);
    assert_eq!(qobject.properties.len(), 1);

    // Check that impl Default was found
    assert_eq!(qobject.original_trait_impls.len(), 1);
    let trait_impl = &qobject.original_trait_impls[0];
    assert_eq!(trait_impl.self_ty.to_string(), "MyObjectRs");
    assert_eq!(trait_impl.original, SyntaxHandle { index: 1 });
}

#[test]
fn parses_basic_invokable_and_properties() {
    let module = basic_invokable_and_properties();
    let qobject = extract_qobject(module).unwrap();

    // Only the counts: the tests on invokables alone and on properties
    // alone look closer.
    assert_eq!(qobject.invokables.len(), 2);
    assert_eq!(qobject.properties.len(), 2);
}

#[test]
fn parses_basic_only_invokable() {
    let module = basic_only_invokable();
    let qobject = extract_qobject(module).unwrap();

    // Check that it got the names right
    assert_eq!(qobject.ident.to_string(), "MyObject");
    assert_eq!(qobject.module_ident.to_string(), "my_object");
    assert_eq!(qobject.rust_struct_ident.to_string(), "MyObjectRs");

    // Check that it got the invokables
    assert_eq!(qobject.invokables.len(), 2);

    // Check invokable ident
    let invokable = &qobject.invokables[0];
    assert_eq!(invokable.ident.to_string(), "say_hi");

    // Check invokable parameters ident and type ident
    assert_eq!(invokable.parameters.len(), 2);

    let param_first = &invokable.parameters[0];
    assert_eq!(param_first.ident.to_string(), "string");
    assert_eq!(param_first.type_ident.ident.to_string(), "str");
    assert_eq!(param_first.type_ident.is_ref, true);

    let param_second = &invokable.parameters[1];
    assert_eq!(param_second.ident.to_string(), "number");
    assert_eq!(param_second.type_ident.ident.to_string(), "i32");
    assert_eq!(param_second.type_ident.is_ref, false);

    // Check invokable ident
    let invokable_second = &qobject.invokables[1];
    assert_eq!(invokable_second.ident.to_string(), "say_bye");

    // Check invokable parameters ident and type ident
    assert_eq!(invokable_second.parameters.len(), 0);
}

#[test]
fn parses_basic_only_properties() {
    let module = basic_only_properties();
    let qobject = extract_qobject(module).unwrap();

    // Check that it got the properties and that the idents are correct
    assert_eq!(qobject.properties.len(), 2);

    // Check first property
    let prop_first = &qobject.properties[0];
    assert_eq!(prop_first.ident.to_string(), "number");
    assert_eq!(prop_first.type_ident.ident.to_string(), "i32");
    assert_eq!(prop_first.type_ident.is_ref, false);

    assert_eq!(prop_first.getter.is_some(), true);
    let getter = prop_first.getter.as_ref().unwrap();
    assert_eq!(getter.cpp_ident.to_string(), "getNumber");
    assert_eq!(getter.rust_ident.to_string(), "number");

    assert_eq!(prop_first.setter.is_some(), true);
    let setter = prop_first.setter.as_ref().unwrap();
    assert_eq!(setter.cpp_ident.to_string(), "setNumber");
    assert_eq!(setter.rust_ident.to_string(), "set_number");

    assert_eq!(prop_first.notify.is_some(), true);
    let notify = prop_first.notify.as_ref().unwrap();
    assert_eq!(notify.cpp_ident.to_string(), "numberChanged");
    assert_eq!(notify.rust_ident.to_string(), "number");

    // Check second property
    let prop_second = &qobject.properties[1];
    assert_eq!(prop_second.ident.to_string(), "string");
    assert_eq!(prop_second.type_ident.ident.to_string(), "String");
    assert_eq!(prop_second.type_ident.is_ref, false);

    assert_eq!(prop_second.getter.is_some(), true);
    let getter = prop_second.getter.as_ref().unwrap();
    assert_eq!(getter.cpp_ident.to_string(), "getString");
    assert_eq!(getter.rust_ident.to_string(), "string");

    assert_eq!(prop_second.setter.is_some(), true);
    let setter = prop_second.setter.as_ref().unwrap();
    assert_eq!(setter.cpp_ident.to_string(), "setString");
    assert_eq!(setter.rust_ident.to_string(), "set_string");

    assert_eq!(prop_second.notify.is_some(), true);
    let notify = prop_second.notify.as_ref().unwrap();
    assert_eq!(notify.cpp_ident.to_string(), "stringChanged");
    assert_eq!(notify.rust_ident.to_string(), "string");
}

#[test]
fn parses_basic_mod_use() {
    let module = basic_mod_use();
    let qobject = extract_qobject(module).unwrap();

    // Check that it got the invokables and properties
    assert_eq!(qobject.invokables.len(), 1);
    assert_eq!(qobject.properties.len(), 1);

    // Check that there is a use declaration
    assert_eq!(qobject.original_use_decls.len(), 1);
}

#[test]
fn handles_follow_the_syntax() {
    let qobject = extract_qobject(basic_mod_use()).unwrap();
    assert_eq!(qobject.original_use_decls, vec![SyntaxHandle { index: 0 }]);
    assert_eq!(qobject.original_struct, SyntaxHandle { index: 1 });
    assert_eq!(qobject.invokables[0].original_method, SyntaxHandle { index: 3 });
    assert!(qobject.original_trait_impls.is_empty());
}

#[test]
fn same_module_gives_same_description() {
    let first = extract_qobject(basic_custom_default());
    let second = extract_qobject(basic_custom_default());
    assert!(first.is_ok());
    assert_eq!(first, second);

    let first = extract_qobject(basic_invokable_and_properties());
    let second = extract_qobject(basic_invokable_and_properties());
    assert_eq!(first, second);
}
