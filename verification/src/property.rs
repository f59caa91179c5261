//! The properties that the fields of the struct give.

use vstd::prelude::*;
use crate::descriptor::{CppRustIdent, CppRustIdentView, Property, PropertyView};
use crate::error::{type_error, ExtractError, TypeUse};
use crate::fold::{
    lemma_try_fold_all, lemma_try_fold_failed, lemma_try_fold_next, lemma_try_map_ok, map_step,
    try_fold, try_map,
};
use crate::naming::{
    case_text, is_identifier_text, lemma_identifier_chars_are_identifier_text, pattern_name,
    AccessorPattern, AccessorPatternView, NamingRules, NamingRulesView,
};
use crate::resolve::{extract_type_ident, resolve_type};
use crate::syntax::{Field, FieldView, Fields, FieldsView, StructDef, StructDefView};
use crate::views::{lemma_view_all_push, view_all, view_all_ok, view_ok};

verus! {

/// The two spellings of an accessor's name for a field called `field`.
pub open spec fn accessor_names(pattern: AccessorPatternView, field: Seq<char>) -> CppRustIdentView {
    CppRustIdentView {
        cpp_ident: pattern_name(pattern.cpp, field),
        rust_ident: pattern_name(pattern.rust, field),
    }
}

/// The property that a field gives: the field's name, what its type
/// resolves to, and the names of a getter, a setter and a change
/// notification made as `rules` say. A type that does not resolve fails, and
/// the failure points at the field.
pub open spec fn property_of(field: FieldView, rules: NamingRulesView) -> Result<
    PropertyView,
    ExtractError,
> {
    match resolve_type(field.ty) {
        Err(cause) => Err(type_error(cause, TypeUse::NamedField, field.position)),
        Ok(type_ident) => Ok(
            PropertyView {
                ident: field.ident,
                type_ident,
                getter: Some(accessor_names(rules.getter, field.ident)),
                setter: Some(accessor_names(rules.setter, field.ident)),
                notify: Some(accessor_names(rules.notify, field.ident)),
            },
        ),
    }
}

/// Whether both spellings of an accessor's name, where it has a name, hold
/// nothing but letters, digits and underscores.
pub open spec fn are_identifiers(names: Option<CppRustIdentView>) -> bool {
    names matches Some(pair) ==> is_identifier_text(pair.cpp_ident) && is_identifier_text(
        pair.rust_ident,
    )
}

/// Whether the names of a property's getter, setter and change notification
/// all hold nothing but letters, digits and underscores.
pub open spec fn has_identifier_names(property: PropertyView) -> bool {
    &&& are_identifiers(property.getter)
    &&& are_identifiers(property.setter)
    &&& are_identifiers(property.notify)
}

/// Whether the accessors' names of every property of a list hold nothing
/// but letters, digits and underscores.
pub open spec fn all_have_identifier_names(properties: Seq<PropertyView>) -> bool {
    forall|i: int| 0 <= i < properties.len() ==> has_identifier_names(#[trigger] properties[i])
}

/// The names that a property gets hold nothing but letters, digits and
/// underscores, whatever the field is called and whatever the rules are.
pub proof fn lemma_property_has_identifier_names(field: FieldView, rules: NamingRulesView)
    ensures
        property_of(field, rules) matches Ok(property) ==> has_identifier_names(property),
{
    lemma_accessor_names_are_identifiers(rules.getter, field.ident);
    lemma_accessor_names_are_identifiers(rules.setter, field.ident);
    lemma_accessor_names_are_identifiers(rules.notify, field.ident);
}

proof fn lemma_accessor_names_are_identifiers(pattern: AccessorPatternView, field: Seq<char>)
    ensures
        are_identifiers(Some(accessor_names(pattern, field))),
{
    lemma_identifier_chars_are_identifier_text(
        pattern.cpp.prefix + case_text(field, pattern.cpp.style) + pattern.cpp.suffix,
    );
    lemma_identifier_chars_are_identifier_text(
        pattern.rust.prefix + case_text(field, pattern.rust.style) + pattern.rust.suffix,
    );
}

/// [`property_of`] under `rules` as a function value.
pub open spec fn property_fn(rules: NamingRulesView) -> spec_fn(FieldView) -> Result<
    PropertyView,
    ExtractError,
> {
    |field: FieldView| property_of(field, rules)
}

/// The properties that named fields give: one for each field, in the order
/// of declaration, or the failure of the first field that gives none.
pub open spec fn properties_of_fields(fields: Seq<FieldView>, rules: NamingRulesView) -> Result<
    Seq<PropertyView>,
    ExtractError,
> {
    try_map(fields, property_fn(rules))
}

/// The properties of a struct: those of its named fields, and none where it
/// has no named fields.
pub open spec fn properties_of(def: StructDefView, rules: NamingRulesView) -> Result<
    Seq<PropertyView>,
    ExtractError,
> {
    match def.fields {
        FieldsView::Named(fields) => properties_of_fields(fields, rules),
        FieldsView::Unnamed => Ok(Seq::empty()),
    }
}

impl AccessorPattern {
    /// The two spellings of the accessor's name for a field.
    fn names(&self, field: &Field) -> (r: CppRustIdent)
        ensures
            r@ == accessor_names(self@, field@.ident),
    {
        let ident = field.ident();
        CppRustIdent {
            cpp_ident: self.cpp.apply(ident.as_str()),
            rust_ident: self.rust.apply(ident.as_str()),
        }
    }
}

/// The names of all the properties of a struct hold nothing but letters,
/// digits and underscores.
pub proof fn lemma_properties_have_identifier_names(def: StructDefView, rules: NamingRulesView)
    ensures
        properties_of(def, rules) matches Ok(properties) ==> all_have_identifier_names(properties),
{
    if let FieldsView::Named(fields) = def.fields {
        if let Ok(properties) = properties_of_fields(fields, rules) {
            let f = property_fn(rules);
            lemma_try_map_ok(fields, f);
            assert forall|i: int| 0 <= i < properties.len() implies has_identifier_names(
                #[trigger] properties[i],
            ) by {
                assert(f(fields[i]) == Ok::<PropertyView, ExtractError>(properties[i]));
                lemma_property_has_identifier_names(fields[i], rules);
            }
        }
    }
}

/// The property that one field gives under `rules`, or the diagnostic of
/// its type. Its names can all stand as identifiers, as far as their
/// characters go.
pub fn extract_property(field: &Field, rules: &NamingRules) -> (r: Result<Property, ExtractError>)
    ensures
        view_ok(r) == property_of(field@, rules@),
        r matches Ok(property) ==> has_identifier_names(property@),
{
    proof {
        lemma_property_has_identifier_names(field@, rules@);
    }
    match extract_type_ident(field.ty()) {
        Err(cause) => Err(ExtractError::for_type(cause, TypeUse::NamedField, field.position())),
        Ok(type_ident) => Ok(
            Property {
                ident: field.ident().clone(),
                type_ident,
                getter: Some(rules.getter.names(field)),
                setter: Some(rules.setter.names(field)),
                notify: Some(rules.notify.names(field)),
            },
        ),
    }
}

/// Extracts the properties of a struct under `rules`: one for each named
/// field, in the order of declaration, and none for a struct without named
/// fields. The first field whose type is not supported ends the extraction
/// with its diagnostic. The names of the properties can all stand as
/// identifiers, as far as their characters go.
pub fn extract_properties(s: &StructDef, rules: &NamingRules) -> (r: Result<
    Vec<Property>,
    ExtractError,
>)
    ensures
        view_all_ok(r) == properties_of(s@, rules@),
        r matches Ok(properties) ==> all_have_identifier_names(view_all(properties@)),
{
    proof {
        lemma_properties_have_identifier_names(s@, rules@);
    }
    let mut properties: Vec<Property> = Vec::new();
    assert(view_all(properties@) =~= Seq::empty());
    match &s.fields {
        Fields::Unnamed => Ok(properties),
        Fields::Named(fields) => {
            let ghost all = view_all(fields@);
            let ghost step = map_step(property_fn(rules@));
            let mut i: usize = 0;
            while i < fields.len()
                invariant
                    i <= fields.len(),
                    all == view_all(fields@),
                    s@.fields == FieldsView::Named(all),
                    step == map_step(property_fn(rules@)),
                    try_fold(all.take(i as int), Seq::empty(), step) == Ok::<
                        Seq<PropertyView>,
                        ExtractError,
                    >(view_all(properties@)),
                decreases fields.len() - i,
            {
                proof {
                    lemma_try_fold_next(all, Seq::empty(), step, i as int);
                }
                match extract_property(&fields[i], rules) {
                    Ok(property) => {
                        proof {
                            lemma_view_all_push(properties@, property);
                        }
                        properties.push(property);
                    },
                    Err(e) => {
                        proof {
                            lemma_try_fold_failed(all, Seq::empty(), step, i + 1);
                        }
                        return Err(e);
                    },
                }
                i += 1;
            }
            proof {
                lemma_try_fold_all(all, Seq::empty(), step);
            }
            Ok(properties)
        },
    }
}

} // verus!
