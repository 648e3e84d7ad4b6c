//! The exception vectors this kernel handles and how each one is registered.
use vstd::prelude::*;
use crate::gdt::DOUBLE_FAULT_IST_INDEX;

verus! {

/// Vector of the breakpoint exception (`int3`).
pub const BREAKPOINT_VECTOR: u8 = 3;

/// Vector of the double-fault exception.
pub const DOUBLE_FAULT_VECTOR: u8 = 8;

/// Vector of the page-fault exception.
pub const PAGE_FAULT_VECTOR: u8 = 14;

/// The handlers of the interrupt table.
#[derive(Clone, Copy, Debug, PartialEq, Eq, Structural)]
pub enum ExceptionHandler {
    /// Reports the interrupted frame and returns to it.
    Breakpoint,
    /// Reports the interrupted frame and halts.
    DoubleFault,
    /// Reports the faulting address, the error code and the frame, and halts.
    PageFault,
}

impl ExceptionHandler {
    /// Whether execution goes on after the handler; only a breakpoint resumes,
    /// every other exception is fatal.
    pub fn resumes(&self) -> (r: bool)
        ensures
            r == (*self == ExceptionHandler::Breakpoint),
    {
        match self {
            ExceptionHandler::Breakpoint => true,
            _ => false,
        }
    }
}

/// One registered vector: its handler, and the interrupt-stack-table slot the
/// CPU switches to before running it, if any.
#[derive(Clone, Copy, Debug, PartialEq, Eq, Structural)]
pub struct IdtEntry {
    pub vector: u8,
    pub handler: ExceptionHandler,
    pub stack_index: Option<u16>,
}

/// The registered vectors: breakpoint and page fault on the interrupted stack,
/// double fault on the dedicated stack of the task-state segment.
pub open spec fn idt_layout() -> Seq<IdtEntry> {
    seq![
        IdtEntry { vector: BREAKPOINT_VECTOR, handler: ExceptionHandler::Breakpoint, stack_index: None },
        IdtEntry {
            vector: DOUBLE_FAULT_VECTOR,
            handler: ExceptionHandler::DoubleFault,
            stack_index: Some(DOUBLE_FAULT_IST_INDEX),
        },
        IdtEntry { vector: PAGE_FAULT_VECTOR, handler: ExceptionHandler::PageFault, stack_index: None },
    ]
}

/// The entries to load into the interrupt table.
pub fn init_idt() -> (r: [IdtEntry; 3])
    ensures
        r@ == idt_layout(),
        forall|i: int|
            0 <= i < r@.len() && (#[trigger] r@[i]).handler == ExceptionHandler::DoubleFault
                ==> r@[i].stack_index == Some(DOUBLE_FAULT_IST_INDEX),
{
    let entries = [
        IdtEntry { vector: BREAKPOINT_VECTOR, handler: ExceptionHandler::Breakpoint, stack_index: None },
        IdtEntry {
            vector: DOUBLE_FAULT_VECTOR,
            handler: ExceptionHandler::DoubleFault,
            stack_index: Some(DOUBLE_FAULT_IST_INDEX),
        },
        IdtEntry { vector: PAGE_FAULT_VECTOR, handler: ExceptionHandler::PageFault, stack_index: None },
    ];
    assert(entries@ =~= idt_layout());
    entries
}

} // verus!
