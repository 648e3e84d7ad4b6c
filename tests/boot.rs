use std::cell::Cell;

use blog_os::gdt::{double_fault_stack, DoubleFaultStack, DOUBLE_FAULT_IST_INDEX, STACK_SIZE};
use blog_os::interrupts::{
    init_idt, ExceptionHandler, IdtEntry, BREAKPOINT_VECTOR, DOUBLE_FAULT_VECTOR, PAGE_FAULT_VECTOR,
};
use blog_os::{init, test_runner, QemuExitCode, Testable};

#[test]
fn exit_codes() {
    assert_eq!(QemuExitCode::Success.code(), 0x10);
    assert_eq!(QemuExitCode::Failed.code(), 0x11);
}

struct Counted<'a> {
    runs: &'a Cell<u32>,
}

impl Testable for Counted<'_> {
    fn run(&self) {
        self.runs.set(self.runs.get() + 1);
    }
}

#[test]
fn runner_runs_every_test_and_reports_success() {
    let runs = Cell::new(0);
    let tests = [Counted { runs: &runs }, Counted { runs: &runs }, Counted { runs: &runs }];
    assert_eq!(test_runner(&tests), QemuExitCode::Success);
    assert_eq!(runs.get(), 3);
    let none: [Counted; 0] = [];
    assert_eq!(test_runner(&none), QemuExitCode::Success);
}

#[test]
fn double_fault_stack_top_is_its_end() {
    let s = double_fault_stack(0x20_0000);
    assert_eq!(s, DoubleFaultStack { start: 0x20_0000, end: 0x20_0000 + 20480 });
    assert_eq!(s.top(), 0x20_5000);
    assert_eq!(STACK_SIZE, 4096 * 5);
}

#[test]
fn idt_puts_double_fault_on_its_own_stack() {
    let idt = init_idt();
    assert_eq!(
        idt,
        [
            IdtEntry { vector: 3, handler: ExceptionHandler::Breakpoint, stack_index: None },
            IdtEntry { vector: 8, handler: ExceptionHandler::DoubleFault, stack_index: Some(0) },
            IdtEntry { vector: 14, handler: ExceptionHandler::PageFault, stack_index: None },
        ]
    );
    assert_eq!((BREAKPOINT_VECTOR, DOUBLE_FAULT_VECTOR, PAGE_FAULT_VECTOR), (3, 8, 14));
    assert_eq!(DOUBLE_FAULT_IST_INDEX, 0);
}

#[test]
fn only_breakpoint_resumes() {
    assert!(ExceptionHandler::Breakpoint.resumes());
    assert!(!ExceptionHandler::DoubleFault.resumes());
    assert!(!ExceptionHandler::PageFault.resumes());
}

#[test]
fn init_builds_both_tables() {
    let ctx = init(0x30_0000);
    assert_eq!(ctx.double_fault_stack.start, 0x30_0000);
    assert_eq!(ctx.double_fault_stack.end, 0x30_5000);
    assert_eq!(ctx.idt, init_idt());
}
