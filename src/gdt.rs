//! The task-state segment's dedicated double-fault stack.
use vstd::prelude::*;

verus! {

/// The interrupt-stack-table slot that holds the double-fault stack.
pub const DOUBLE_FAULT_IST_INDEX: u16 = 0;

/// Size in bytes of the stack reserved for the double-fault handler.
pub const STACK_SIZE: u64 = 4096 * 5;

/// The dedicated double-fault stack: the bytes `[start, end)`. The stack grows
/// down, so the interrupt-stack-table slot holds `end`.
#[derive(Clone, Copy, Debug, PartialEq, Eq, Structural)]
pub struct DoubleFaultStack {
    pub start: u64,
    pub end: u64,
}

impl DoubleFaultStack {
    /// The value to store in the interrupt-stack-table slot: the top of the stack.
    pub fn top(&self) -> (r: u64)
        ensures
            r == self.end,
    {
        self.end
    }
}

/// The double-fault stack reserved at `stack_start`, `STACK_SIZE` bytes long.
pub fn double_fault_stack(stack_start: u64) -> (r: DoubleFaultStack)
    requires
        stack_start + STACK_SIZE <= u64::MAX,
    ensures
        r.start == stack_start,
        r.end == stack_start + STACK_SIZE,
{
    DoubleFaultStack { start: stack_start, end: stack_start + STACK_SIZE }
}

} // verus!
