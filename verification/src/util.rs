use vstd::prelude::*;

verus! {

/// Whether a console that reports `num_procs` attached processes was opened only
/// for this program (it was launched by double-clicking), so that it should be
/// released: that is the case when one or two processes share it.
pub fn console_should_be_freed(num_procs: u32) -> (free: bool)
    ensures
        free == (num_procs == 1 || num_procs == 2),
{
    num_procs == 1 || num_procs == 2
}

} // verus!
