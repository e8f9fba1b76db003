use vstd::prelude::*;

verus! {

/// A function that draws a probe, wrapped so that it can be used as one.
#[derive(Clone, Copy)]
pub struct EguiProbeFn<F>(pub F);

/// Wraps a function into a probe-able value.
pub fn probe_fn<F>(f: F) -> (r: EguiProbeFn<F>)
    ensures
        r.0 == f,
{
    EguiProbeFn(f)
}

} // verus!
