//! Each rule of the extraction, on a module that breaks it.

use qobject_extract::{
    extract_invokables, extract_properties, extract_qobject, extract_type_ident, ErrorKind,
    ExtractError, ExtractTypeIdentError, Field, Fields, FnArg, ImplBlock, ImplMember, ImplTarget,
    Item, Method, Module, NamingRules, Output, ParameterType, PathSegment, Pattern,
    SourcePosition, StructDef, SyntaxHandle, TypeExpr, TypeUse, TypedArg,
};

fn at(index: usize) -> SourcePosition {
    SourcePosition { index }
}

fn segment(name: &str, position: SourcePosition) -> PathSegment {
    PathSegment { ident: name.to_string(), generic: false, position }
}

fn named(name: &str) -> TypeExpr {
    TypeExpr::Path(vec![segment(name, at(0))])
}

fn reference(referent: TypeExpr) -> TypeExpr {
    TypeExpr::Reference(Box::new(referent))
}

fn two_segments() -> TypeExpr {
    TypeExpr::Path(vec![segment("std", at(0)), segment("String", at(5))])
}

fn generic(name: &str) -> TypeExpr {
    TypeExpr::Path(vec![PathSegment { ident: name.to_string(), generic: true, position: at(0) }])
}

fn argument(name: &str, ty: TypeExpr, position: SourcePosition) -> FnArg {
    FnArg::Typed(TypedArg { pattern: Pattern::Ident(name.to_string()), ty, position })
}

fn method(name: &str, inputs: Vec<FnArg>, output: Option<Output>) -> ImplMember {
    ImplMember::Method(Method {
        ident: name.to_string(),
        inputs,
        output,
        handle: SyntaxHandle { index: 100 },
    })
}

fn foo(fields: Fields, position: SourcePosition) -> Item {
    Item::Struct(StructDef {
        ident: "Foo".to_string(),
        fields,
        position,
        handle: SyntaxHandle { index: 1 },
    })
}

fn block(self_ty: TypeExpr, is_trait: bool, items: Vec<ImplMember>, position: SourcePosition) -> Item {
    Item::Impl(ImplBlock { self_ty, is_trait, items, position, handle: SyntaxHandle { index: 2 } })
}

fn module(items: Vec<Item>) -> Module {
    Module { ident: "foo".to_string(), items, position: at(100) }
}

fn failure(kind: ErrorKind, position: SourcePosition) -> ExtractError {
    ExtractError { kind, position }
}

fn one_method_module(inputs: Vec<FnArg>, output: Option<Output>) -> Module {
    module(vec![
        foo(Fields::Unnamed, at(204)),
        block(named("Foo"), false, vec![method("run", inputs, output)], at(404)),
    ])
}

#[test]
fn resolves_plain_name_by_value() {
    assert_eq!(
        extract_type_ident(&named("i32")),
        Ok(ParameterType { ident: "i32".to_string(), is_ref: false })
    );
}

#[test]
fn resolves_reference_to_plain_name() {
    assert_eq!(
        extract_type_ident(&reference(named("str"))),
        Ok(ParameterType { ident: "str".to_string(), is_ref: true })
    );
}

#[test]
fn keeps_the_name_as_written() {
    assert_eq!(
        extract_type_ident(&named("QString")),
        Ok(ParameterType { ident: "QString".to_string(), is_ref: false })
    );
}

#[test]
fn tuple_is_invalid_type() {
    assert_eq!(extract_type_ident(&TypeExpr::Other), Err(ExtractTypeIdentError::InvalidType));
}

#[test]
fn double_reference_is_invalid_type() {
    assert_eq!(
        extract_type_ident(&reference(reference(named("str")))),
        Err(ExtractTypeIdentError::InvalidType)
    );
}

#[test]
fn reference_to_tuple_is_invalid_type() {
    assert_eq!(
        extract_type_ident(&reference(TypeExpr::Other)),
        Err(ExtractTypeIdentError::InvalidType)
    );
}

#[test]
fn generic_type_is_invalid_type() {
    assert_eq!(extract_type_ident(&generic("Vec")), Err(ExtractTypeIdentError::InvalidType));
    assert_eq!(
        extract_type_ident(&reference(generic("Vec"))),
        Err(ExtractTypeIdentError::InvalidType)
    );
}

#[test]
fn two_segments_are_invalid_segments() {
    assert_eq!(extract_type_ident(&two_segments()), Err(ExtractTypeIdentError::InvalidSegments));
    assert_eq!(
        extract_type_ident(&reference(two_segments())),
        Err(ExtractTypeIdentError::InvalidSegments)
    );
}

#[test]
fn empty_path_is_invalid_segments() {
    assert_eq!(
        extract_type_ident(&TypeExpr::Path(vec![])),
        Err(ExtractTypeIdentError::InvalidSegments)
    );
}

#[test]
fn segment_count_is_judged_before_generics() {
    let ty = TypeExpr::Path(vec![
        segment("std", at(0)),
        PathSegment { ident: "Vec".to_string(), generic: true, position: at(5) },
    ]);
    assert_eq!(extract_type_ident(&ty), Err(ExtractTypeIdentError::InvalidSegments));
}

#[test]
fn unsupported_item_is_rejected() {
    let r = extract_qobject(module(vec![foo(Fields::Unnamed, at(204)), Item::Other(at(504))]));
    assert_eq!(r, Err(failure(ErrorKind::UnsupportedItem, at(504))));
}

#[test]
fn unsupported_item_before_struct_is_rejected() {
    let r = extract_qobject(module(vec![Item::Other(at(204)), foo(Fields::Unnamed, at(304))]));
    assert_eq!(r, Err(failure(ErrorKind::UnsupportedItem, at(204))));
}

#[test]
fn second_struct_is_rejected_at_its_position() {
    let r = extract_qobject(module(vec![
        foo(Fields::Unnamed, at(204)),
        foo(Fields::Unnamed, at(304)),
    ]));
    assert_eq!(r, Err(failure(ErrorKind::DuplicateStruct, at(304))));
}

#[test]
fn second_struct_is_rejected_after_many_valid_items() {
    let r = extract_qobject(module(vec![
        Item::Use(SyntaxHandle { index: 7 }),
        foo(Fields::Unnamed, at(304)),
        block(named("Foo"), false, vec![method("run", vec![FnArg::Receiver], None)], at(404)),
        block(named("Foo"), true, vec![], at(704)),
        Item::Use(SyntaxHandle { index: 8 }),
        Item::Struct(StructDef {
            ident: "Other".to_string(),
            fields: Fields::Unnamed,
            position: at(1104),
            handle: SyntaxHandle { index: 9 },
        }),
        Item::Other(at(1204)),
    ]));
    assert_eq!(r, Err(failure(ErrorKind::DuplicateStruct, at(1104))));
}

#[test]
fn impl_before_struct_is_rejected() {
    let r = extract_qobject(module(vec![
        block(named("Foo"), false, vec![], at(204)),
        foo(Fields::Unnamed, at(304)),
    ]));
    assert_eq!(r, Err(failure(ErrorKind::ImplBeforeStruct, at(204))));
}

#[test]
fn trait_impl_before_struct_is_rejected() {
    let r = extract_qobject(module(vec![
        Item::Use(SyntaxHandle { index: 0 }),
        block(named("Foo"), true, vec![], at(304)),
        foo(Fields::Unnamed, at(404)),
    ]));
    assert_eq!(r, Err(failure(ErrorKind::ImplBeforeStruct, at(304))));
}

#[test]
fn impl_of_another_name_is_rejected_at_the_name() {
    let self_ty = TypeExpr::Path(vec![segment("Bar", at(409))]);
    let r = extract_qobject(module(vec![
        foo(Fields::Unnamed, at(204)),
        block(self_ty, false, vec![], at(404)),
    ]));
    assert_eq!(r, Err(failure(ErrorKind::ImplTargetMismatch(ImplTarget::OtherName), at(409))));
}

#[test]
fn trait_impl_of_another_name_is_rejected_at_the_name() {
    let self_ty = TypeExpr::Path(vec![segment("Bar", at(421))]);
    let r = extract_qobject(module(vec![
        foo(Fields::Unnamed, at(204)),
        block(self_ty, true, vec![], at(404)),
    ]));
    assert_eq!(r, Err(failure(ErrorKind::ImplTargetMismatch(ImplTarget::OtherName), at(421))));
}

#[test]
fn impl_of_qualified_path_is_rejected_at_the_block() {
    let self_ty = TypeExpr::Path(vec![segment("super", at(409)), segment("Foo", at(416))]);
    let r = extract_qobject(module(vec![
        foo(Fields::Unnamed, at(204)),
        block(self_ty, false, vec![], at(404)),
    ]));
    assert_eq!(r, Err(failure(ErrorKind::ImplTargetMismatch(ImplTarget::Qualified), at(404))));
}

#[test]
fn impl_of_non_path_is_rejected_at_the_block() {
    let r = extract_qobject(module(vec![
        foo(Fields::Unnamed, at(204)),
        block(reference(named("Foo")), true, vec![], at(404)),
    ]));
    assert_eq!(r, Err(failure(ErrorKind::ImplTargetMismatch(ImplTarget::NotAPath), at(404))));
}

#[test]
fn non_method_member_is_rejected() {
    let members = vec![
        method("run", vec![FnArg::Receiver], None),
        ImplMember::Other(at(608)),
        method("stop", vec![FnArg::Receiver], None),
    ];
    assert_eq!(
        extract_invokables(&members),
        Err(failure(ErrorKind::UnsupportedMember, at(608)))
    );
}

#[test]
fn non_method_member_is_rejected_in_module() {
    let r = extract_qobject(module(vec![
        foo(Fields::Unnamed, at(204)),
        block(named("Foo"), false, vec![ImplMember::Other(at(508))], at(404)),
    ]));
    assert_eq!(r, Err(failure(ErrorKind::UnsupportedMember, at(508))));
}

#[test]
fn members_of_trait_impl_are_not_judged() {
    let r = extract_qobject(module(vec![
        foo(Fields::Unnamed, at(204)),
        block(named("Foo"), true, vec![ImplMember::Other(at(508))], at(404)),
    ]));
    let qobject = r.unwrap();
    assert_eq!(qobject.invokables.len(), 0);
    assert_eq!(qobject.original_trait_impls.len(), 1);
}

#[test]
fn destructuring_argument_is_rejected() {
    let inputs = vec![
        FnArg::Receiver,
        FnArg::Typed(TypedArg { pattern: Pattern::Other, ty: named("i32"), position: at(521) }),
    ];
    let r = extract_qobject(one_method_module(inputs, None));
    assert_eq!(r, Err(failure(ErrorKind::InvalidParameterPattern, at(521))));
}

#[test]
fn pattern_is_judged_before_type() {
    let inputs = vec![FnArg::Typed(TypedArg {
        pattern: Pattern::Other,
        ty: TypeExpr::Other,
        position: at(521),
    })];
    let r = extract_qobject(one_method_module(inputs, None));
    assert_eq!(r, Err(failure(ErrorKind::InvalidParameterPattern, at(521))));
}

#[test]
fn tuple_argument_is_unresolvable() {
    let inputs = vec![FnArg::Receiver, argument("pair", TypeExpr::Other, at(521))];
    let r = extract_qobject(one_method_module(inputs, None));
    assert_eq!(r, Err(failure(ErrorKind::UnresolvableType(TypeUse::Argument), at(521))));
}

#[test]
fn double_reference_argument_is_unresolvable() {
    let inputs =
        vec![FnArg::Receiver, argument("text", reference(reference(named("str"))), at(521))];
    let r = extract_qobject(one_method_module(inputs, None));
    assert_eq!(r, Err(failure(ErrorKind::UnresolvableType(TypeUse::Argument), at(521))));
}

#[test]
fn two_segment_argument_is_qualified() {
    let inputs = vec![FnArg::Receiver, argument("text", two_segments(), at(521))];
    let r = extract_qobject(one_method_module(inputs, None));
    assert_eq!(r, Err(failure(ErrorKind::QualifiedType(TypeUse::Argument), at(521))));
}

#[test]
fn tuple_return_type_is_unresolvable() {
    let output = Some(Output { ty: TypeExpr::Other, position: at(530) });
    let r = extract_qobject(one_method_module(vec![FnArg::Receiver], output));
    assert_eq!(r, Err(failure(ErrorKind::UnresolvableType(TypeUse::ReturnType), at(530))));
}

#[test]
fn two_segment_return_type_is_qualified() {
    let output = Some(Output { ty: two_segments(), position: at(530) });
    let r = extract_qobject(one_method_module(vec![FnArg::Receiver], output));
    assert_eq!(r, Err(failure(ErrorKind::QualifiedType(TypeUse::ReturnType), at(530))));
}

#[test]
fn argument_is_judged_before_return_type() {
    let inputs = vec![argument("text", two_segments(), at(521))];
    let output = Some(Output { ty: TypeExpr::Other, position: at(530) });
    let r = extract_qobject(one_method_module(inputs, output));
    assert_eq!(r, Err(failure(ErrorKind::QualifiedType(TypeUse::Argument), at(521))));
}

#[test]
fn tuple_field_is_unresolvable() {
    let fields = Fields::Named(vec![
        Field::new("count".to_string(), named("i32"), at(308)).unwrap(),
        Field::new("pair".to_string(), TypeExpr::Other, at(408)).unwrap(),
    ]);
    let r = extract_qobject(module(vec![foo(fields, at(204))]));
    assert_eq!(r, Err(failure(ErrorKind::UnresolvableType(TypeUse::NamedField), at(408))));
}

#[test]
fn two_segment_field_is_qualified() {
    let fields =
        Fields::Named(vec![Field::new("text".to_string(), two_segments(), at(308)).unwrap()]);
    let r = extract_qobject(module(vec![foo(fields, at(204))]));
    assert_eq!(r, Err(failure(ErrorKind::QualifiedType(TypeUse::NamedField), at(308))));
}

#[test]
fn fields_are_judged_after_all_items() {
    let fields = Fields::Named(vec![Field::new("pair".to_string(), TypeExpr::Other, at(308)).unwrap()]);
    let r = extract_qobject(module(vec![foo(fields, at(204)), Item::Other(at(604))]));
    assert_eq!(r, Err(failure(ErrorKind::UnsupportedItem, at(604))));
}

#[test]
fn first_broken_rule_is_reported() {
    let r = extract_qobject(module(vec![
        foo(Fields::Unnamed, at(204)),
        block(named("Foo"), false, vec![ImplMember::Other(at(508))], at(404)),
        foo(Fields::Unnamed, at(804)),
        Item::Other(at(904)),
    ]));
    assert_eq!(r, Err(failure(ErrorKind::UnsupportedMember, at(508))));
}

#[test]
fn module_without_struct_is_rejected() {
    let r = extract_qobject(module(vec![]));
    assert_eq!(r, Err(failure(ErrorKind::MissingStruct, at(100))));

    let r = extract_qobject(module(vec![
        Item::Use(SyntaxHandle { index: 0 }),
        Item::Use(SyntaxHandle { index: 1 }),
    ]));
    assert_eq!(r, Err(failure(ErrorKind::MissingStruct, at(100))));
}

#[test]
fn struct_without_named_fields_has_no_properties() {
    let def = StructDef {
        ident: "Foo".to_string(),
        fields: Fields::Unnamed,
        position: at(204),
        handle: SyntaxHandle { index: 1 },
    };
    assert_eq!(extract_properties(&def, &NamingRules::standard()), Ok(vec![]));
}

#[test]
fn messages_name_the_rule() {
    let text = |kind: ErrorKind| failure(kind, at(100)).message();
    assert_eq!(text(ErrorKind::UnsupportedItem), "Unsupported item in mod.");
    assert_eq!(text(ErrorKind::DuplicateStruct), "Only one struct is supported per mod.");
    assert_eq!(text(ErrorKind::ImplBeforeStruct), "Impl can only be declared after a struct.");
    assert_eq!(
        text(ErrorKind::ImplTargetMismatch(ImplTarget::NotAPath)),
        "Expected a TypePath impl to parse."
    );
    assert_eq!(
        text(ErrorKind::ImplTargetMismatch(ImplTarget::Qualified)),
        "Invalid path on impl block."
    );
    assert_eq!(
        text(ErrorKind::ImplTargetMismatch(ImplTarget::OtherName)),
        "The impl block needs to match the struct."
    );
    assert_eq!(text(ErrorKind::UnsupportedMember), "Only methods are supported.");
    assert_eq!(text(ErrorKind::InvalidParameterPattern), "Invalid argument ident format.");
    assert_eq!(
        text(ErrorKind::UnresolvableType(TypeUse::Argument)),
        "Invalid argument ident format."
    );
    assert_eq!(
        text(ErrorKind::UnresolvableType(TypeUse::ReturnType)),
        "Invalid return type format."
    );
    assert_eq!(
        text(ErrorKind::UnresolvableType(TypeUse::NamedField)),
        "Invalid name field ident format."
    );
    assert_eq!(
        text(ErrorKind::QualifiedType(TypeUse::Argument)),
        "Argument should only have one segment."
    );
    assert_eq!(
        text(ErrorKind::QualifiedType(TypeUse::ReturnType)),
        "Return type should only have one segment."
    );
    assert_eq!(
        text(ErrorKind::QualifiedType(TypeUse::NamedField)),
        "Named field should only have one segment."
    );
    assert_eq!(text(ErrorKind::MissingStruct), "There must be at least one struct per mod");
}

#[test]
fn type_failures_become_diagnostics() {
    assert_eq!(
        ExtractError::for_type(ExtractTypeIdentError::InvalidType, TypeUse::ReturnType, at(304)),
        failure(ErrorKind::UnresolvableType(TypeUse::ReturnType), at(304))
    );
    assert_eq!(
        ExtractError::for_type(ExtractTypeIdentError::InvalidSegments, TypeUse::NamedField, at(506)),
        failure(ErrorKind::QualifiedType(TypeUse::NamedField), at(506))
    );
}
