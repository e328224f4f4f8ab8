//! Running two computations side by side.
use vstd::prelude::*;

verus! {

/// `rayon::join` calls both closures, perhaps on two threads, waits for both, and
/// returns what they returned, in order. It panics where one of them does.
pub assume_specification<A, B, RA, RB>[ rayon::join::<A, B, RA, RB> ](oper_a: A, oper_b: B) -> (results: (RA, RB))
    where A: FnOnce() -> RA + Send, B: FnOnce() -> RB + Send, RA: Send, RB: Send
    requires
        call_requires(oper_a, ()),
        call_requires(oper_b, ()),
    ensures
        call_ensures(oper_a, (), results.0),
        call_ensures(oper_b, (), results.1),
;

} // verus!
