//! Contents of lists and results, element by element.

use vstd::prelude::*;

verus! {

/// The contents of each element of a list.
pub open spec fn views<T: View>(list: Seq<T>) -> Seq<T::V> {
    list.map_values(|element: T| element@)
}

/// The contents of a value or of the error text in its place.
pub open spec fn result_view<T: View>(r: Result<T, String>) -> Result<T::V, Seq<char>> {
    match r {
        Ok(value) => Ok(value@),
        Err(e) => Err(e@),
    }
}

/// The contents of each result of a list.
pub open spec fn result_views<T: View>(list: Seq<Result<T, String>>) -> Seq<
    Result<T::V, Seq<char>>,
> {
    list.map_values(|r: Result<T, String>| result_view(r))
}

/// The contents of a list are those of its elements, place by place.
pub proof fn contents_go_place_by_place<T: View>(list: Seq<T>, results: Seq<Result<T, String>>)
    ensures
        views(list).len() == list.len(),
        forall|i: int| 0 <= i < list.len() ==> #[trigger] views(list)[i] == list[i]@,
        result_views(results).len() == results.len(),
        forall|i: int|
            0 <= i < results.len() ==> #[trigger] result_views(results)[i] == (match results[i] {
                Ok(value) => Ok::<T::V, Seq<char>>(value@),
                Err(e) => Err(e@),
            }),
{
}

/// The contents of a result are those of its value or of its error.
pub proof fn contents_of_a_result<T: View>(value: T, error: String)
    ensures
        result_view(Ok::<T, String>(value)) == Ok::<T::V, Seq<char>>(value@),
        result_view(Err::<T, String>(error)) == Err::<T::V, Seq<char>>(error@),
{
}

} // verus!
