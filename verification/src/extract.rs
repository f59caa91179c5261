//! The extraction itself: one pass over the items of a module.

use vstd::prelude::*;
use crate::descriptor::{
    Invokable, InvokableView, QObject, QObjectView, TraitImpl, TraitImplView,
};
use crate::error::{ErrorKind, ExtractError, ImplTarget};
use crate::fold::{lemma_try_fold_all, lemma_try_fold_failed, lemma_try_fold_next, try_fold};
use crate::invokable::{extract_invokables, invokables_of};
use crate::naming::{standard_rules, NamingRules, NamingRulesView};
use crate::position::SyntaxHandle;
use crate::property::{all_have_identifier_names, extract_properties, properties_of};
use crate::syntax::{
    ImplBlock, ImplBlockView, Item, ItemView, Module, ModuleView, StructDef, StructDefView,
};
use crate::type_expr::{TypeExpr, TypeExprView};
use crate::views::{lemma_view_all_add, lemma_view_all_push, view_all, view_ok, view_opt};

verus! {

/// What the pass has gathered from the items it has seen. While `primary`
/// is `None` the pass awaits the struct; from then on the struct is found.
pub ghost struct ScanState {
    /// The module's struct, once it is found.
    pub primary: Option<StructDefView>,
    /// The invokables of the inherent implementation blocks seen so far.
    pub invokables: Seq<InvokableView>,
    /// The implementations of traits seen so far, retargeted.
    pub trait_impls: Seq<TraitImplView>,
    /// The imports seen so far.
    pub imports: Seq<SyntaxHandle>,
}

/// The state before the first item.
pub open spec fn initial_state() -> ScanState {
    ScanState {
        primary: None,
        invokables: Seq::empty(),
        trait_impls: Seq::empty(),
        imports: Seq::empty(),
    }
}

/// Whether an implementation block is one of the struct `def`: its self
/// type must be a path of one segment whose identifier is the struct's
/// name; generic arguments after the identifier are not looked at. A self
/// type that is no path, or a path of another length, is reported at the
/// block; another name is reported at the name.
pub open spec fn check_target(block: ImplBlockView, def: StructDefView) -> Result<(), ExtractError> {
    match block.self_ty {
        TypeExprView::Path(segments) => if segments.len() != 1 {
            Err(
                ExtractError {
                    kind: ErrorKind::ImplTargetMismatch(ImplTarget::Qualified),
                    position: block.position,
                },
            )
        } else if segments[0].ident != def.ident {
            Err(
                ExtractError {
                    kind: ErrorKind::ImplTargetMismatch(ImplTarget::OtherName),
                    position: segments[0].position,
                },
            )
        } else {
            Ok(())
        },
        _ => Err(
            ExtractError {
                kind: ErrorKind::ImplTargetMismatch(ImplTarget::NotAPath),
                position: block.position,
            },
        ),
    }
}

/// The name of the struct that holds the data of the object of `def`.
pub open spec fn storage_name(def: StructDefView, rules: NamingRulesView) -> Seq<char> {
    def.ident + rules.storage_suffix
}

/// The state after an implementation block of the struct `def`. A block
/// that implements a trait is recorded under the name of the data struct;
/// the members of another block give invokables, which follow those
/// gathered before.
pub open spec fn scan_impl(
    state: ScanState,
    block: ImplBlockView,
    def: StructDefView,
    rules: NamingRulesView,
) -> Result<ScanState, ExtractError> {
    match check_target(block, def) {
        Err(e) => Err(e),
        Ok(_) => if block.is_trait {
            Ok(
                ScanState {
                    trait_impls: state.trait_impls.push(
                        TraitImplView {
                            self_ty: storage_name(def, rules),
                            original: block.handle,
                        },
                    ),
                    ..state
                },
            )
        } else {
            match invokables_of(block.items) {
                Err(e) => Err(e),
                Ok(found) => Ok(ScanState { invokables: state.invokables + found, ..state }),
            }
        },
    }
}

/// The state after one more item.
///
/// - A struct becomes the module's struct, unless there is one already.
/// - An implementation block must follow the struct and be one of it.
/// - An import is recorded.
/// - No other item is supported.
pub open spec fn scan_item(state: ScanState, item: ItemView, rules: NamingRulesView) -> Result<
    ScanState,
    ExtractError,
> {
    match item {
        ItemView::Struct(def) => match state.primary {
            None => Ok(ScanState { primary: Some(def), ..state }),
            Some(_) => Err(
                ExtractError { kind: ErrorKind::DuplicateStruct, position: def.position },
            ),
        },
        ItemView::Impl(block) => match state.primary {
            None => Err(
                ExtractError { kind: ErrorKind::ImplBeforeStruct, position: block.position },
            ),
            Some(def) => scan_impl(state, block, def, rules),
        },
        ItemView::Use(handle) => Ok(ScanState { imports: state.imports.push(handle), ..state }),
        ItemView::Other(position) => Err(
            ExtractError { kind: ErrorKind::UnsupportedItem, position },
        ),
    }
}

/// [`scan_item`] as a step of a fold.
pub open spec fn scan_step(rules: NamingRulesView) -> spec_fn(ScanState, ItemView) -> Result<
    ScanState,
    ExtractError,
> {
    |state: ScanState, item: ItemView| scan_item(state, item, rules)
}

/// The state after all the items of a module, taken in source order, or
/// the diagnostic of the first item that breaks a rule.
pub open spec fn scan(items: Seq<ItemView>, rules: NamingRulesView) -> Result<
    ScanState,
    ExtractError,
> {
    try_fold(items, initial_state(), scan_step(rules))
}

/// The description that the gathered state gives at the end of the module.
/// A module without a struct has none; the properties are those of the
/// struct's fields.
pub open spec fn describe(module: ModuleView, state: ScanState, rules: NamingRulesView) -> Result<
    QObjectView,
    ExtractError,
> {
    match state.primary {
        None => Err(ExtractError { kind: ErrorKind::MissingStruct, position: module.position }),
        Some(def) => match properties_of(def, rules) {
            Err(e) => Err(e),
            Ok(properties) => Ok(
                QObjectView {
                    module_ident: module.ident,
                    ident: def.ident,
                    rust_struct_ident: storage_name(def, rules),
                    invokables: state.invokables,
                    properties,
                    original_struct: def.handle,
                    original_trait_impls: state.trait_impls,
                    original_use_decls: state.imports,
                },
            ),
        },
    }
}

/// The description of the object that a module declares under `rules`, or
/// the diagnostic of the first rule that the module breaks.
pub open spec fn qobject_of(module: ModuleView, rules: NamingRulesView) -> Result<
    QObjectView,
    ExtractError,
> {
    match scan(module.items, rules) {
        Err(e) => Err(e),
        Ok(state) => describe(module, state, rules),
    }
}

fn check_impl_target(block: &ImplBlock, def: &StructDef) -> (r: Result<(), ExtractError>)
    ensures
        r == check_target(block@, def@),
{
    match &block.self_ty {
        TypeExpr::Path(segments) => {
            assert(block.self_ty@ == TypeExprView::Path(view_all(segments@)));
            if segments.len() != 1 {
                return Err(
                    ExtractError {
                        kind: ErrorKind::ImplTargetMismatch(ImplTarget::Qualified),
                        position: block.position,
                    },
                );
            }
            let segment = &segments[0];
            if segment.ident == def.ident {
                Ok(())
            } else {
                Err(
                    ExtractError {
                        kind: ErrorKind::ImplTargetMismatch(ImplTarget::OtherName),
                        position: segment.position,
                    },
                )
            }
        },
        _ => Err(
            ExtractError {
                kind: ErrorKind::ImplTargetMismatch(ImplTarget::NotAPath),
                position: block.position,
            },
        ),
    }
}

fn storage_ident(def: &StructDef, rules: &NamingRules) -> (r: String)
    ensures
        r@ == storage_name(def@, rules@),
{
    let mut name = def.ident.clone();
    name.append(rules.storage_suffix.as_str());
    name
}

/// Extracts the description of the object that a module declares, under
/// the naming convention `rules`.
///
/// The items are taken once, in source order, and the first item that
/// breaks a rule ends the extraction with its diagnostic. At the end of the
/// module the struct must have been found; its fields then give the
/// properties, whose accessors are named by letters, digits and
/// underscores only.
pub fn extract_qobject_with(module: Module, rules: &NamingRules) -> (r: Result<
    QObject,
    ExtractError,
>)
    ensures
        view_ok(r) == qobject_of(module@, rules@),
        r matches Ok(qobject) ==> all_have_identifier_names(qobject@.properties),
{
    let ghost all = view_all(module.items@);
    let ghost step = scan_step(rules@);
    let mut primary: Option<&StructDef> = None;
    let mut invokables: Vec<Invokable> = Vec::new();
    let mut trait_impls: Vec<TraitImpl> = Vec::new();
    let mut imports: Vec<SyntaxHandle> = Vec::new();
    let mut i: usize = 0;
    assert(view_all(invokables@) =~= Seq::empty());
    assert(view_all(trait_impls@) =~= Seq::empty());
    while i < module.items.len()
        invariant
            i <= module.items.len(),
            all == view_all(module.items@),
            step == scan_step(rules@),
            try_fold(all.take(i as int), initial_state(), step) == Ok::<ScanState, ExtractError>(
                ScanState {
                    primary: view_opt(primary),
                    invokables: view_all(invokables@),
                    trait_impls: view_all(trait_impls@),
                    imports: imports@,
                },
            ),
        decreases module.items.len() - i,
    {
        proof {
            lemma_try_fold_next(all, initial_state(), step, i as int);
        }
        match &module.items[i] {
            Item::Struct(def) => {
                if primary.is_some() {
                    proof {
                        lemma_try_fold_failed(all, initial_state(), step, i + 1);
                    }
                    return Err(
                        ExtractError { kind: ErrorKind::DuplicateStruct, position: def.position },
                    );
                }
                primary = Some(def);
            },
            Item::Impl(block) => {
                let def = match primary {
                    Some(def) => def,
                    None => {
                        proof {
                            lemma_try_fold_failed(all, initial_state(), step, i + 1);
                        }
                        return Err(
                            ExtractError {
                                kind: ErrorKind::ImplBeforeStruct,
                                position: block.position,
                            },
                        );
                    },
                };
                match check_impl_target(block, def) {
                    Ok(_) => {},
                    Err(e) => {
                        proof {
                            lemma_try_fold_failed(all, initial_state(), step, i + 1);
                        }
                        return Err(e);
                    },
                }
                if block.is_trait {
                    let retargeted = TraitImpl {
                        self_ty: storage_ident(def, rules),
                        original: block.handle,
                    };
                    proof {
                        lemma_view_all_push(trait_impls@, retargeted);
                    }
                    trait_impls.push(retargeted);
                } else {
                    match extract_invokables(block.items.as_slice()) {
                        Ok(mut found) => {
                            proof {
                                lemma_view_all_add(invokables@, found@);
                            }
                            invokables.append(&mut found);
                        },
                        Err(e) => {
                            proof {
                                lemma_try_fold_failed(all, initial_state(), step, i + 1);
                            }
                            return Err(e);
                        },
                    }
                }
            },
            Item::Use(handle) => {
                imports.push(*handle);
            },
            Item::Other(position) => {
                proof {
                    lemma_try_fold_failed(all, initial_state(), step, i + 1);
                }
                return Err(ExtractError { kind: ErrorKind::UnsupportedItem, position: *position });
            },
        }
        i += 1;
    }
    proof {
        lemma_try_fold_all(all, initial_state(), step);
    }
    let def = match primary {
        Some(def) => def,
        None => {
            return Err(
                ExtractError { kind: ErrorKind::MissingStruct, position: module.position },
            );
        },
    };
    let properties = match extract_properties(def, rules) {
        Ok(properties) => properties,
        Err(e) => {
            return Err(e);
        },
    };
    Ok(
        QObject {
            module_ident: module.ident.clone(),
            ident: def.ident.clone(),
            rust_struct_ident: storage_ident(def, rules),
            invokables,
            properties,
            original_struct: def.handle,
            original_trait_impls: trait_impls,
            original_use_decls: imports,
        },
    )
}

/// Extracts the description of the object that a module declares, under
/// the convention of the Qt bindings.
pub fn extract_qobject(module: Module) -> (r: Result<QObject, ExtractError>)
    ensures
        view_ok(r) == qobject_of(module@, standard_rules()),
        r matches Ok(qobject) ==> all_have_identifier_names(qobject@.properties),
{
    let rules = NamingRules::standard();
    extract_qobject_with(module, &rules)
}

} // verus!
