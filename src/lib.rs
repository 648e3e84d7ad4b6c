//! Bootstrap core of a small x86_64 kernel: physical frame allocation from the
//! firmware memory map, page-table walking, heap bootstrap and the layout of the
//! descriptor and interrupt tables. Everything that touches the hardware itself
//! lives outside this crate and drives the decisions made here.
use vstd::prelude::*;

pub mod allocator;
pub mod gdt;
pub mod interrupts;
pub mod memory;
pub mod paging;

use crate::gdt::{double_fault_stack, DoubleFaultStack, STACK_SIZE};
use crate::interrupts::{idt_layout, init_idt, IdtEntry};

verus! {

/// The value written to the emulator's exit port when the tests end.
#[derive(Clone, Copy, Debug, PartialEq, Eq, Structural)]
pub enum QemuExitCode {
    Success,
    Failed,
}

impl QemuExitCode {
    /// The number written to the port.
    pub fn code(&self) -> (r: u32)
        ensures
            r == (match self {
                QemuExitCode::Success => 0x10u32,
                QemuExitCode::Failed => 0x11u32,
            }),
    {
        match self {
            QemuExitCode::Success => 0x10,
            QemuExitCode::Failed => 0x11,
        }
    }
}

/// A test the kernel's test runner can run; a failing test panics.
pub trait Testable {
    fn run(&self);
}

/// Runs every test in order. A test that fails panics and never comes back, so
/// reaching the end means that all passed.
pub fn test_runner<T: Testable>(tests: &[T]) -> (r: QemuExitCode)
    ensures
        r == QemuExitCode::Success,
{
    let mut i: usize = 0;
    while i < tests.len()
        invariant
            i <= tests@.len(),
        decreases tests@.len() - i,
    {
        tests[i].run();
        i = i + 1;
    }
    QemuExitCode::Success
}

/// What kernel initialisation loads into the CPU's tables: the double-fault
/// stack of the task-state segment, and the interrupt-table entries.
pub struct BootContext {
    pub double_fault_stack: DoubleFaultStack,
    pub idt: [IdtEntry; 3],
}

/// The tables for a double-fault stack reserved at `stack_start`.
pub fn init(stack_start: u64) -> (r: BootContext)
    requires
        stack_start + STACK_SIZE <= u64::MAX,
    ensures
        r.double_fault_stack.start == stack_start,
        r.double_fault_stack.end == stack_start + STACK_SIZE,
        r.idt@ == idt_layout(),
{
    let double_fault_stack = double_fault_stack(stack_start);
    let idt = init_idt();
    BootContext { double_fault_stack, idt }
}

} // verus!
