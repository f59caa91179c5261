//! Views of sequences, of optional values and of results, element by element.

use vstd::prelude::*;

verus! {

/// The values of the elements of a sequence, in order.
pub open spec fn view_all<T: View>(items: Seq<T>) -> Seq<T::V> {
    items.map_values(|item: T| item@)
}

/// The value of an optional element.
pub open spec fn view_opt<T: View>(item: Option<T>) -> Option<T::V> {
    match item {
        Some(inner) => Some(inner@),
        None => None,
    }
}

/// The value of a result: the value of what was found, or the failure as
/// it is.
pub open spec fn view_ok<T: View, E>(r: Result<T, E>) -> Result<T::V, E> {
    match r {
        Ok(found) => Ok(found@),
        Err(e) => Err(e),
    }
}

/// The value of a result that holds a list: the values of the elements,
/// or the failure as it is.
pub open spec fn view_all_ok<T: View, E>(r: Result<Vec<T>, E>) -> Result<Seq<T::V>, E> {
    match r {
        Ok(found) => Ok(view_all(found@)),
        Err(e) => Err(e),
    }
}

/// Pushing an element and taking the values comes to the same as taking the
/// values and pushing the element's value.
pub proof fn lemma_view_all_push<T: View>(items: Seq<T>, item: T)
    ensures
        view_all(items.push(item)) == view_all(items).push(item@),
{
    assert(view_all(items.push(item)) =~= view_all(items).push(item@));
}

/// The values of a concatenation are the concatenation of the values.
pub proof fn lemma_view_all_add<T: View>(left: Seq<T>, right: Seq<T>)
    ensures
        view_all(left + right) == view_all(left) + view_all(right),
{
    assert(view_all(left + right) =~= view_all(left) + view_all(right));
}

} // verus!
