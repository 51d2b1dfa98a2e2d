//! Keeping the values that could be read back, in order, and dropping the
//! rest: what the services do with raw orders that fail to parse or print.
use std::collections::VecDeque;
use vstd::prelude::*;

verus! {

/// The values present in `s`, in order.
pub open spec fn somes<T>(s: Seq<Option<T>>) -> Seq<T>
    decreases s.len(),
{
    if s.len() == 0 {
        Seq::empty()
    } else {
        let front = somes(s.drop_last());
        match s.last() {
            Some(x) => front.push(x),
            None => front,
        }
    }
}

/// Keeps the present values, in order.
pub fn keep_parsed<T>(items: Vec<Option<T>>) -> (r: Vec<T>)
    ensures
        r@ == somes(items@),
{
    let ghost all = items@;
    let mut out: Vec<T> = Vec::new();
    for x in it: items
        invariant
            it.seq() == all,
            out@ == somes(all.take(it.index() as int)),
    {
        proof {
            let k = it.index() as int;
            assert(all.take(k + 1).drop_last() =~= all.take(k));
            assert(all.take(k + 1).last() == all[k]);
        }
        match x {
            Some(v) => out.push(v),
            None => {},
        }
    }
    assert(all.take(all.len() as int) =~= all);
    out
}

/// The same values, as a queue in the same order.
pub fn into_queue<T>(items: Vec<T>) -> (r: VecDeque<T>)
    ensures
        r@ == items@,
{
    let ghost all = items@;
    let mut out: VecDeque<T> = VecDeque::new();
    for x in it: items
        invariant
            it.seq() == all,
            out@ == all.take(it.index() as int),
    {
        proof {
            assert(all.take(it.index() + 1) =~= all.take(it.index() as int).push(all[it.index() as int]));
        }
        out.push_back(x);
    }
    assert(all.take(all.len() as int) =~= all);
    out
}

} // verus!
