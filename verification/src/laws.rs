//! What holds of every extraction.

use vstd::prelude::*;
use crate::descriptor::{
    CppRustIdentView, InvokableView, ParameterView, PropertyView, QObject, QObjectView,
};
use crate::error::{ErrorKind, ExtractError, TypeUse};
use crate::extract::{
    check_target, initial_state, qobject_of, scan, scan_item, scan_step, ScanState,
};
use crate::fold::{
    lemma_try_fold_all, lemma_try_fold_failed, lemma_try_fold_next, lemma_try_map_failed,
    lemma_try_map_ok, lemma_try_map_total,
};
use crate::invokable::{
    invokable_of, invokables_of, member_invokable, member_invokable_fn, parameter_of,
    parameters_of,
};
use crate::naming::{
    case_text, identifier_chars, is_identifier_text, lemma_compose_name_keeps_affixes,
    standard_rules, CaseStyle,
    NamingRules, NamingRulesView,
};
use crate::property::{properties_of, properties_of_fields, property_fn, property_of};
use crate::resolve::{resolve_type, ExtractTypeIdentError, ParameterTypeView};
use crate::syntax::{
    FieldView, FnArgView, ImplMemberView, ItemView, MethodView, Module, ModuleView, OutputView,
    TypedArgView,
};
use crate::type_expr::TypeExprView;
use crate::views::view_ok;

verus! {

/// Whether an invokable can have the argument: it is the receiver, or it is
/// bound by a plain name and its type resolves.
pub open spec fn supported_arg(arg: FnArgView) -> bool {
    match arg {
        FnArgView::Receiver => true,
        FnArgView::Typed(typed) => typed.pattern is Ident && resolve_type(typed.ty) is Ok,
    }
}

/// Whether a method gives an invokable: each of its arguments is supported,
/// and its return type resolves if it has one.
pub open spec fn supported_method(method: MethodView) -> bool {
    &&& forall|i: int| 0 <= i < method.inputs.len() ==> supported_arg(#[trigger] method.inputs[i])
    &&& method.output matches Some(written) ==> resolve_type(written.ty) is Ok
}

/// The parameter that a supported argument declares; the receiver declares
/// none.
pub open spec fn declared_parameter(arg: FnArgView) -> Option<ParameterView> {
    match arg {
        FnArgView::Receiver => None,
        FnArgView::Typed(typed) => Some(
            ParameterView {
                ident: typed.pattern->Ident_0,
                type_ident: resolve_type(typed.ty)->Ok_0,
            },
        ),
    }
}

/// [`declared_parameter`] as a function value.
pub open spec fn declared_parameter_fn() -> spec_fn(FnArgView) -> Option<ParameterView> {
    |arg: FnArgView| declared_parameter(arg)
}

/// The return type that a supported method declares.
pub open spec fn declared_return_type(output: Option<OutputView>) -> Option<ParameterTypeView> {
    match output {
        None => None,
        Some(written) => Some(resolve_type(written.ty)->Ok_0),
    }
}

/// The invokable that a supported method declares: its parameters are
/// those that its arguments declare, in the same order.
pub open spec fn declared_invokable(method: MethodView) -> InvokableView {
    InvokableView {
        ident: method.ident,
        parameters: method.inputs.filter_map(declared_parameter_fn()),
        return_type: declared_return_type(method.output),
        original_method: method.handle,
    }
}

/// Supported arguments give their parameters in the order of declaration:
/// the parameters are those that the arguments declare, with nothing left
/// out, added or moved.
pub proof fn lemma_parameters_in_order(inputs: Seq<FnArgView>)
    requires
        forall|i: int| 0 <= i < inputs.len() ==> supported_arg(#[trigger] inputs[i]),
    ensures
        parameters_of(inputs) == Ok::<Seq<ParameterView>, ExtractError>(
            inputs.filter_map(declared_parameter_fn()),
        ),
    decreases inputs.len(),
{
    if inputs.len() > 0 {
        let shorter = inputs.drop_last();
        assert forall|i: int| 0 <= i < shorter.len() implies supported_arg(
            #[trigger] shorter[i],
        ) by {
            assert(shorter[i] == inputs[i]);
        }
        lemma_parameters_in_order(shorter);
        assert(supported_arg(inputs[inputs.len() - 1]));
        let before = shorter.filter_map(declared_parameter_fn());
        match inputs.last() {
            FnArgView::Receiver => {},
            FnArgView::Typed(typed) => {
                let parameter = declared_parameter(inputs.last())->Some_0;
                assert(before.push(parameter) =~= before + seq![parameter]);
            },
        }
    }
}

/// A supported method gives the invokable that it declares.
pub proof fn lemma_supported_method_invokable(method: MethodView)
    requires
        supported_method(method),
    ensures
        invokable_of(method) == Ok::<InvokableView, ExtractError>(declared_invokable(method)),
{
    lemma_parameters_in_order(method.inputs);
}

/// A block whose members are all supported methods gives one invokable for
/// each method, in the order of the methods, each with the parameters that
/// the method declares in the order in which it declares them.
pub proof fn lemma_invokable_per_method(members: Seq<ImplMemberView>)
    requires
        forall|i: int|
            0 <= i < members.len() ==> (#[trigger] members[i] matches ImplMemberView::Method(method)
                && supported_method(method)),
    ensures
        invokables_of(members) is Ok,
        invokables_of(members)->Ok_0.len() == members.len(),
        forall|i: int|
            0 <= i < members.len() ==> #[trigger] invokables_of(members)->Ok_0[i]
                == declared_invokable(members[i]->Method_0),
{
    let f = member_invokable_fn();
    assert forall|i: int| 0 <= i < members.len() implies #[trigger] f(members[i]) is Ok by {
        lemma_supported_method_invokable(members[i]->Method_0);
    }
    lemma_try_map_total(members, f);
    lemma_try_map_ok(members, f);
    let found = invokables_of(members)->Ok_0;
    assert forall|i: int| 0 <= i < members.len() implies #[trigger] found[i] == declared_invokable(
        members[i]->Method_0,
    ) by {
        lemma_supported_method_invokable(members[i]->Method_0);
        assert(f(members[i]) == Ok::<InvokableView, ExtractError>(found[i]));
    }
}

/// The extraction of invokables stops at the first member that gives none:
/// where it fails, some member fails in just that way, and every member
/// before it gives an invokable.
pub proof fn lemma_first_failing_member(members: Seq<ImplMemberView>) -> (at: int)
    requires
        invokables_of(members) is Err,
    ensures
        0 <= at < members.len(),
        member_invokable(members[at]) == Err::<InvokableView, ExtractError>(
            invokables_of(members)->Err_0,
        ),
        forall|i: int| 0 <= i < at ==> member_invokable(#[trigger] members[i]) is Ok,
{
    let f = member_invokable_fn();
    let at = lemma_try_map_failed(members, f);
    assert forall|i: int| 0 <= i < at implies member_invokable(#[trigger] members[i]) is Ok by {
        assert(f(members[i]) is Ok);
    }
    at
}

/// Whether a module declares one object with one inherent implementation
/// block: its items are one struct, at the index `def`; one inherent
/// implementation block of that struct, at the later index `block`, whose
/// members are all supported methods; and otherwise imports, and
/// implementations of traits for that struct that stand after it.
pub open spec fn declares_one_object(module: ModuleView, def: int, block: int) -> bool {
    &&& 0 <= def < block < module.items.len()
    &&& module.items[def] is Struct
    &&& module.items[block] matches ItemView::Impl(found) && !found.is_trait && check_target(
        found,
        module.items[def]->Struct_0,
    ) is Ok && forall|i: int|
        0 <= i < found.items.len() ==> (#[trigger] found.items[i] matches ImplMemberView::Method(
            method,
        ) && supported_method(method))
    &&& forall|i: int|
        0 <= i < module.items.len() && i != def && i != block ==> (#[trigger] module.items[i]
            is Use || (module.items[i] matches ItemView::Impl(other) && other.is_trait && i > def
            && check_target(other, module.items[def]->Struct_0) is Ok))
}

proof fn lemma_scan_one_object(
    module: ModuleView,
    rules: NamingRulesView,
    def: int,
    block: int,
    k: int,
) -> (state: ScanState)
    requires
        declares_one_object(module, def, block),
        0 <= k <= module.items.len(),
    ensures
        scan(module.items.take(k), rules) == Ok::<ScanState, ExtractError>(state),
        state.primary == if k > def {
            Some(module.items[def]->Struct_0)
        } else {
            None
        },
        state.invokables == if k > block {
            invokables_of(module.items[block]->Impl_0.items)->Ok_0
        } else {
            Seq::empty()
        },
    decreases k,
{
    if k == 0 {
        initial_state()
    } else {
        let before = lemma_scan_one_object(module, rules, def, block, k - 1);
        lemma_try_fold_next(module.items, initial_state(), scan_step(rules), k - 1);
        let item = module.items[k - 1];
        if k - 1 == block {
            let found = module.items[block]->Impl_0;
            lemma_invokable_per_method(found.items);
            assert(Seq::<InvokableView>::empty() + invokables_of(found.items)->Ok_0
                =~= invokables_of(found.items)->Ok_0);
        } else if k - 1 != def {
            assert(item is Use || (item is Impl && k - 1 > def));
        }
        scan_item(before, item, rules)->Ok_0
    }
}

/// A module that declares one object with one inherent implementation
/// block, and whose struct has only fields of supported types, is
/// described; the description holds one invokable for each method of the
/// block, in the order of the methods, each with the parameters that the
/// method declares in the order in which it declares them.
pub proof fn lemma_one_object_described(
    module: ModuleView,
    rules: NamingRulesView,
    def: int,
    block: int,
)
    requires
        declares_one_object(module, def, block),
        properties_of(module.items[def]->Struct_0, rules) is Ok,
    ensures
        qobject_of(module, rules) is Ok,
        qobject_of(module, rules)->Ok_0.ident == module.items[def]->Struct_0.ident,
        qobject_of(module, rules)->Ok_0.invokables.len()
            == module.items[block]->Impl_0.items.len(),
        forall|i: int|
            0 <= i < module.items[block]->Impl_0.items.len() ==> #[trigger] qobject_of(
                module,
                rules,
            )->Ok_0.invokables[i] == declared_invokable(
                module.items[block]->Impl_0.items[i]->Method_0,
            ),
{
    let state = lemma_scan_one_object(module, rules, def, block, module.items.len() as int);
    lemma_try_fold_all(module.items, initial_state(), scan_step(rules));
    lemma_invokable_per_method(module.items[block]->Impl_0.items);
}

/// The names that the convention of the Qt bindings gives the accessors of
/// a property: for every field `f` of supported type, the getter is
/// `get` + Title(f) in C++ and Snake(f) in Rust, the setter `set` + Title(f)
/// and `set_` + Snake(f), the notification Camel(f) + `Changed` and
/// Snake(f), where of each converted name the letters, digits and
/// underscores are taken.
pub proof fn lemma_standard_accessor_names(field: FieldView)
    requires
        resolve_type(field.ty) is Ok,
    ensures
        property_of(field, standard_rules()) matches Ok(property) && {
            &&& property.ident == field.ident
            &&& property.getter == Some(
                CppRustIdentView {
                    cpp_ident: "get"@ + identifier_chars(case_text(field.ident, CaseStyle::Title)),
                    rust_ident: identifier_chars(case_text(field.ident, CaseStyle::Snake)),
                },
            )
            &&& property.setter == Some(
                CppRustIdentView {
                    cpp_ident: "set"@ + identifier_chars(case_text(field.ident, CaseStyle::Title)),
                    rust_ident: "set_"@ + identifier_chars(
                        case_text(field.ident, CaseStyle::Snake),
                    ),
                },
            )
            &&& property.notify == Some(
                CppRustIdentView {
                    cpp_ident: identifier_chars(case_text(field.ident, CaseStyle::Camel))
                        + "Changed"@,
                    rust_ident: identifier_chars(case_text(field.ident, CaseStyle::Snake)),
                },
            )
        },
{
    let rules = standard_rules();
    let title = identifier_chars(case_text(field.ident, CaseStyle::Title));
    let snake = identifier_chars(case_text(field.ident, CaseStyle::Snake));
    let camel = identifier_chars(case_text(field.ident, CaseStyle::Camel));
    let none = Seq::<char>::empty();
    reveal_strlit("get");
    reveal_strlit("set");
    reveal_strlit("set_");
    reveal_strlit("Changed");
    lemma_compose_name_keeps_affixes(rules.getter.cpp, case_text(field.ident, CaseStyle::Title));
    lemma_compose_name_keeps_affixes(rules.getter.rust, case_text(field.ident, CaseStyle::Snake));
    lemma_compose_name_keeps_affixes(rules.setter.cpp, case_text(field.ident, CaseStyle::Title));
    lemma_compose_name_keeps_affixes(rules.setter.rust, case_text(field.ident, CaseStyle::Snake));
    lemma_compose_name_keeps_affixes(rules.notify.cpp, case_text(field.ident, CaseStyle::Camel));
    lemma_compose_name_keeps_affixes(rules.notify.rust, case_text(field.ident, CaseStyle::Snake));
    assert("get"@ + title + none =~= "get"@ + title);
    assert("set"@ + title + none =~= "set"@ + title);
    assert("set_"@ + snake + none =~= "set_"@ + snake);
    assert(none + snake + none =~= snake);
    assert(none + camel + "Changed"@ =~= camel + "Changed"@);
}

/// Every named field of a struct gives one property, at the field's index:
/// where the properties of the struct are extracted, there are as many as
/// fields, and each is the property of the field at its index.
pub proof fn lemma_property_per_field(fields: Seq<FieldView>, rules: NamingRulesView)
    requires
        properties_of_fields(fields, rules) is Ok,
    ensures
        properties_of_fields(fields, rules)->Ok_0.len() == fields.len(),
        forall|i: int|
            0 <= i < fields.len() ==> property_of(#[trigger] fields[i], rules) == Ok::<
                PropertyView,
                ExtractError,
            >(properties_of_fields(fields, rules)->Ok_0[i]),
{
    let f = property_fn(rules);
    lemma_try_map_ok(fields, f);
    assert forall|i: int| 0 <= i < fields.len() implies property_of(
        #[trigger] fields[i],
        rules,
    ) == Ok::<PropertyView, ExtractError>(properties_of_fields(fields, rules)->Ok_0[i]) by {
        assert(f(fields[i]) == Ok::<PropertyView, ExtractError>(
            properties_of_fields(fields, rules)->Ok_0[i],
        ));
    }
}

/// The extraction of properties stops at the first field that gives none:
/// where it fails, some field fails in just that way, and every field
/// before it gives a property.
pub proof fn lemma_first_failing_field(fields: Seq<FieldView>, rules: NamingRulesView) -> (at: int)
    requires
        properties_of_fields(fields, rules) is Err,
    ensures
        0 <= at < fields.len(),
        property_of(fields[at], rules) == Err::<PropertyView, ExtractError>(
            properties_of_fields(fields, rules)->Err_0,
        ),
        forall|i: int| 0 <= i < at ==> property_of(#[trigger] fields[i], rules) is Ok,
{
    let f = property_fn(rules);
    let at = lemma_try_map_failed(fields, f);
    assert forall|i: int| 0 <= i < at implies property_of(#[trigger] fields[i], rules) is Ok by {
        assert(f(fields[i]) is Ok);
    }
    at
}

/// Extraction is a function of the module and the rules: two runs on
/// modules of the same value, under rules of the same value, end in
/// descriptions of the same value, or in the same diagnostic.
pub proof fn lemma_extraction_repeatable(
    first_module: Module,
    second_module: Module,
    first_rules: NamingRules,
    second_rules: NamingRules,
    first: Result<QObject, ExtractError>,
    second: Result<QObject, ExtractError>,
)
    requires
        first_module@ == second_module@,
        first_rules@ == second_rules@,
        view_ok(first) == qobject_of(first_module@, first_rules@),
        view_ok(second) == qobject_of(second_module@, second_rules@),
    ensures
        view_ok(first) == view_ok(second),
{
}

proof fn lemma_struct_stays_found(items: Seq<ItemView>, rules: NamingRulesView, at: int, k: int)
    requires
        0 <= at < k <= items.len(),
        items[at] is Struct,
        scan(items.take(k), rules) is Ok,
    ensures
        scan(items.take(k), rules)->Ok_0.primary is Some,
    decreases k,
{
    lemma_try_fold_next(items, initial_state(), scan_step(rules), k - 1);
    if k - 1 > at {
        lemma_struct_stays_found(items, rules, at, k - 1);
    }
}

/// A second struct is rejected: where a struct stands at `second`, another
/// stands before it, and the items before `second` break no rule, the
/// extraction ends in *DuplicateStruct* at the position of the struct at
/// `second`, however many items stand before it.
pub proof fn lemma_second_struct_rejected(
    module: ModuleView,
    rules: NamingRulesView,
    first: int,
    second: int,
)
    requires
        0 <= first < second < module.items.len(),
        module.items[first] is Struct,
        module.items[second] is Struct,
        scan(module.items.take(second), rules) is Ok,
    ensures
        qobject_of(module, rules) == Err::<QObjectView, ExtractError>(
            ExtractError {
                kind: ErrorKind::DuplicateStruct,
                position: module.items[second]->Struct_0.position,
            },
        ),
{
    lemma_struct_stays_found(module.items, rules, first, second);
    lemma_try_fold_next(module.items, initial_state(), scan_step(rules), second);
    lemma_try_fold_failed(module.items, initial_state(), scan_step(rules), second + 1);
}

proof fn lemma_struct_not_found(items: Seq<ItemView>, rules: NamingRulesView, k: int)
    requires
        0 <= k <= items.len(),
        forall|i: int| 0 <= i < k ==> !(#[trigger] items[i] is Struct),
        scan(items.take(k), rules) is Ok,
    ensures
        scan(items.take(k), rules)->Ok_0.primary is None,
    decreases k,
{
    if k > 0 {
        lemma_try_fold_next(items, initial_state(), scan_step(rules), k - 1);
        lemma_struct_not_found(items, rules, k - 1);
        assert(!(items[k - 1] is Struct));
    }
}

/// An implementation block before the struct is rejected: where a block
/// stands at `at`, no struct stands before it, and the items before it
/// break no rule, the extraction ends in *ImplBeforeStruct* at the position
/// of the block.
pub proof fn lemma_impl_before_struct_rejected(module: ModuleView, rules: NamingRulesView, at: int)
    requires
        0 <= at < module.items.len(),
        module.items[at] is Impl,
        forall|i: int| 0 <= i < at ==> !(#[trigger] module.items[i] is Struct),
        scan(module.items.take(at), rules) is Ok,
    ensures
        qobject_of(module, rules) == Err::<QObjectView, ExtractError>(
            ExtractError {
                kind: ErrorKind::ImplBeforeStruct,
                position: module.items[at]->Impl_0.position,
            },
        ),
{
    lemma_struct_not_found(module.items, rules, at);
    lemma_try_fold_next(module.items, initial_state(), scan_step(rules), at);
    lemma_try_fold_failed(module.items, initial_state(), scan_step(rules), at + 1);
}

/// Which types do not resolve: a type that is neither a path nor a
/// reference, such as a tuple, and a reference to anything but a path, such
/// as a reference to a reference, are *InvalidType*; a path of two segments
/// is *InvalidSegments*.
pub proof fn lemma_unsupported_types(ty: TypeExprView)
    ensures
        ty is Other ==> resolve_type(ty) == Err::<ParameterTypeView, ExtractTypeIdentError>(
            ExtractTypeIdentError::InvalidType,
        ),
        ty matches TypeExprView::Reference(referent) && !(*referent is Path) ==> resolve_type(ty)
            == Err::<ParameterTypeView, ExtractTypeIdentError>(ExtractTypeIdentError::InvalidType),
        ty matches TypeExprView::Path(segments) && segments.len() == 2 ==> resolve_type(ty) == Err::<
            ParameterTypeView,
            ExtractTypeIdentError,
        >(ExtractTypeIdentError::InvalidSegments),
{
}

/// An argument bound by a plain name whose type is a tuple, or a reference
/// to a reference, is *UnresolvableType*; one whose type is a path of two
/// segments is *QualifiedType*. Either diagnostic points at the argument.
pub proof fn lemma_unsupported_argument_types(arg: TypedArgView)
    requires
        arg.pattern is Ident,
    ensures
        arg.ty is Other || (arg.ty matches TypeExprView::Reference(referent) && *referent
            is Reference) ==> parameter_of(arg) == Err::<ParameterView, ExtractError>(
            ExtractError {
                kind: ErrorKind::UnresolvableType(TypeUse::Argument),
                position: arg.position,
            },
        ),
        arg.ty matches TypeExprView::Path(segments) && segments.len() == 2 ==> parameter_of(arg)
            == Err::<ParameterView, ExtractError>(
            ExtractError {
                kind: ErrorKind::QualifiedType(TypeUse::Argument),
                position: arg.position,
            },
        ),
{
}

/// The name of the struct that holds the data holds nothing but letters,
/// digits and underscores, where the name of the module's struct and the
/// suffix of the rules hold nothing else.
pub proof fn lemma_storage_name_is_identifier(module: ModuleView, rules: NamingRulesView)
    requires
        qobject_of(module, rules) is Ok,
        is_identifier_text(qobject_of(module, rules)->Ok_0.ident),
        is_identifier_text(rules.storage_suffix),
    ensures
        is_identifier_text(qobject_of(module, rules)->Ok_0.rust_struct_ident),
{
}

/// The struct that holds the data never has the name of the object's own
/// struct, as long as the rules append something: the description names it
/// by the struct's name followed by the suffix.
pub proof fn lemma_storage_name_differs(module: ModuleView, rules: NamingRulesView)
    requires
        rules.storage_suffix.len() > 0,
        qobject_of(module, rules) is Ok,
    ensures
        qobject_of(module, rules)->Ok_0.rust_struct_ident == qobject_of(module, rules)->Ok_0.ident
            + rules.storage_suffix,
        qobject_of(module, rules)->Ok_0.rust_struct_ident != qobject_of(module, rules)->Ok_0.ident,
{
    let described = qobject_of(module, rules)->Ok_0;
    assert(described.rust_struct_ident.len() == described.ident.len() + rules.storage_suffix.len());
}

} // verus!
