use vstd::prelude::*;

verus! {

/// One element of a sequence, carried on its own through the compressed
/// adapter so that the framework's sequence support can be reused.
#[derive(Clone, Copy, Debug)]
pub struct Wrapped<T>(pub T);

/// The elements of `s`, each wrapped, in the same order.
pub open spec fn wrapped_seq<T>(s: Seq<T>) -> Seq<Wrapped<T>> {
    s.map_values(|v: T| Wrapped(v))
}

/// The values inside `s`, in the same order.
pub open spec fn unwrapped_seq<T>(s: Seq<Wrapped<T>>) -> Seq<T> {
    s.map_values(|w: Wrapped<T>| w.0)
}

/// Wraps each value of `values`, keeping their order.
pub fn wrap_all<T: Copy>(values: &[T]) -> (r: Vec<Wrapped<T>>)
    ensures
        r@ == wrapped_seq(values@),
{
    let mut out: Vec<Wrapped<T>> = Vec::new();
    let mut i: usize = 0;
    while i < values.len()
        invariant
            i <= values@.len(),
            out@ == wrapped_seq(values@.subrange(0, i as int)),
        decreases values@.len() - i,
    {
        out.push(Wrapped(values[i]));
        assert(values@.subrange(0, i + 1) == values@.subrange(0, i as int).push(values@[i as int]));
        i = i + 1;
    }
    assert(values@.subrange(0, values@.len() as int) == values@);
    out
}

/// Takes the value out of each element of `wrapped`, keeping their order.
pub fn unwrap_all<T>(wrapped: Vec<Wrapped<T>>) -> (r: Vec<T>)
    ensures
        r@ == unwrapped_seq(wrapped@),
{
    let ghost all = wrapped@;
    let ghost n = wrapped@.len();
    let mut rest = wrapped;
    let mut reversed: Vec<T> = Vec::new();
    while rest.len() > 0
        invariant
            rest@.len() + reversed@.len() == n,
            rest@ == all.subrange(0, rest@.len() as int),
            forall|k: int| 0 <= k < reversed@.len() ==> reversed@[k] == all[n - 1 - k].0,
            n == all.len(),
        decreases rest@.len(),
    {
        let w = rest.pop().unwrap();
        reversed.push(w.0);
    }
    let mut out: Vec<T> = Vec::new();
    while reversed.len() > 0
        invariant
            reversed@.len() + out@.len() == n,
            forall|k: int| 0 <= k < reversed@.len() ==> reversed@[k] == all[n - 1 - k].0,
            forall|j: int| 0 <= j < out@.len() ==> out@[j] == all[j].0,
            n == all.len(),
        decreases reversed@.len(),
    {
        let v = reversed.pop().unwrap();
        out.push(v);
    }
    assert(out@ == unwrapped_seq(all));
    out
}

} // verus!
