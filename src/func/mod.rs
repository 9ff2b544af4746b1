//! Functions that take callables in each of Rust's forms, and a generic function to pass them.
use vstd::prelude::*;

verus! {

/// Does nothing with its argument; generic only so that each instance is a distinct function
/// item.
pub fn bar<T>(_x: u32) {
}

/// Calls a shared closure once, with 1.
pub fn accept_fn<F: Fn(u32)>(f: F)
    requires
        f.requires((1u32,)),
    ensures
        f.ensures((1u32,), ()),
{
    f(1);
}

/// Calls a mutable closure once, with 1.
pub fn accept_fn_mut<F: FnMut(u32)>(f: F)
    requires
        f.requires((1u32,)),
    ensures
        f.ensures((1u32,), ()),
{
    let mut f = f;
    f(1);
}

/// Calls a closure that may consume what it captured, once, with 1.
pub fn accept_fn_once<F: FnOnce(u32)>(f: F)
    requires
        f.requires((1u32,)),
    ensures
        f.ensures((1u32,), ()),
{
    f(1);
}

} // verus!
