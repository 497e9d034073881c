//! Graphics adapter figures.
use vstd::prelude::*;

verus! {

/// The adapter memory in mebibytes, given in bytes: divided by 1024 twice,
/// rounding down, which is the division by 1 048 576.
pub fn adapter_memory_mib(adapter_ram: u64) -> (mib: u64)
    ensures
        mib == adapter_ram / 1024 / 1024,
        mib == adapter_ram / 1_048_576,
{
    let r = adapter_ram / 1024 / 1024;
    assert(adapter_ram / 1024 / 1024 == adapter_ram / 1_048_576) by (nonlinear_arith);
    r
}

} // verus!
