//! Aggregation across the discovered backends, which the manager keeps in
//! discovery order (NVIDIA, then AMD, then Intel).

use vstd::prelude::*;

verus! {

/// The items of every list, list after list.
pub open spec fn flatten_lists<T>(parts: Seq<Vec<T>>) -> Seq<T>
    decreases parts.len(),
{
    if parts.len() == 0 {
        Seq::empty()
    } else {
        parts[0]@ + flatten_lists(parts.drop_first())
    }
}

/// The devices (or processes) of every backend, backend after backend in
/// discovery order.
pub fn concat_lists<T>(parts: Vec<Vec<T>>) -> (r: Vec<T>)
    ensures
        r@ == flatten_lists(parts@),
{
    let mut rest = parts;
    let mut out: Vec<T> = Vec::new();
    while rest.len() > 0
        invariant
            out@ + flatten_lists(rest@) == flatten_lists(parts@),
        decreases rest.len(),
    {
        let ghost before = rest@;
        let mut first = rest.remove(0);
        assert(rest@ =~= before.drop_first());
        assert(out@ + first@ + flatten_lists(rest@) =~= out@ + flatten_lists(before));
        out.append(&mut first);
    }
    assert(out@ =~= out@ + flatten_lists(rest@));
    out
}

/// The first value some backend reports, in discovery order.
pub open spec fn first_reported_spec(values: Seq<Option<String>>) -> Option<Seq<char>>
    decreases values.len(),
{
    if values.len() == 0 {
        None
    } else {
        match values[0] {
            Some(s) => Some(s@),
            None => first_reported_spec(values.drop_first()),
        }
    }
}

/// The first value some backend reports (a driver or CUDA version), in
/// discovery order; `None` when no backend reports one.
pub fn first_reported(values: &[Option<String>]) -> (r: Option<String>)
    ensures
        match r {
            Some(s) => first_reported_spec(values@) == Some(s@),
            None => first_reported_spec(values@) is None,
        },
{
    let mut i: usize = 0;
    assert(values@.skip(0) =~= values@);
    while i < values.len()
        invariant
            i <= values.len(),
            first_reported_spec(values@) == first_reported_spec(values@.skip(i as int)),
        decreases values.len() - i,
    {
        assert(values@.skip(i as int).drop_first() =~= values@.skip(i + 1));
        assert(values@.skip(i as int)[0] == values@[i as int]);
        match &values[i] {
            Some(s) => {
                return Some(s.clone());
            },
            None => {},
        }
        i = i + 1;
    }
    None
}

/// Law: joining the backends' lists keeps backend order. Adding a backend at
/// the end appends its list after all earlier ones, and a backend with an
/// empty list (one that reports nothing) contributes nothing.
pub proof fn law_lists_join_in_backend_order<T>(parts: Seq<Vec<T>>, last: Vec<T>)
    ensures
        flatten_lists(parts.push(last)) == flatten_lists(parts) + last@,
        last@.len() == 0 ==> flatten_lists(parts.push(last)) == flatten_lists(parts),
    decreases parts.len(),
{
    if parts.len() == 0 {
        let one = parts.push(last);
        assert(one.drop_first() =~= Seq::<Vec<T>>::empty());
        assert(one[0] == last);
        assert(flatten_lists(one.drop_first()) == Seq::<T>::empty());
        assert(flatten_lists(parts) == Seq::<T>::empty());
        assert(flatten_lists(one) =~= last@ + Seq::<T>::empty());
    } else {
        law_lists_join_in_backend_order(parts.drop_first(), last);
        assert(parts.push(last).drop_first() =~= parts.drop_first().push(last));
        assert(flatten_lists(parts.push(last)) =~= parts[0]@ + (flatten_lists(parts.drop_first())
            + last@));
    }
    if last@.len() == 0 {
        assert(flatten_lists(parts) + last@ =~= flatten_lists(parts));
    }
}

} // verus!
