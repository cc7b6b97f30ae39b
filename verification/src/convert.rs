//! Conversion of the items of a vector.
use vstd::prelude::*;
use vstd::std_specs::convert::FromSpec;

verus! {

/// Converts every item of a vector, keeping the order.
pub fn vec_into<F, T: std::convert::From<F>>(vec: Vec<F>) -> (out: Vec<T>)
    ensures
        out@.len() == vec@.len(),
        forall|i: int|
            0 <= i < vec@.len() ==> call_ensures(T::from, (vec@[i],), #[trigger] out@[i]),
        T::obeys_from_spec() ==> forall|i: int|
            0 <= i < vec@.len() ==> #[trigger] out@[i] == T::from_spec(vec@[i]),
{
    let mut out: Vec<T> = Vec::new();
    for item in it: vec
        invariant
            out@.len() == it.index(),
            it.seq() == vec@,
            forall|i: int|
                0 <= i < out@.len() ==> call_ensures(T::from, (vec@[i],), #[trigger] out@[i]),
            T::obeys_from_spec() ==> forall|i: int|
                0 <= i < out@.len() ==> #[trigger] out@[i] == T::from_spec(vec@[i]),
    {
        out.push(T::from(item));
    }
    out
}

} // verus!
