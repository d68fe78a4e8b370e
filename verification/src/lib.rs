//! Runtime substrate of a bare-metal kernel: a lock-free bump memory arena,
//! the CPU descriptor-table machinery that turns hardware faults into
//! catchable events, and a cooperative task executor.
//!
//! Privileged instructions (port I/O, table loads, interrupt enable) cannot
//! be issued from verified code; this library computes exactly what must be
//! written or loaded, and the embedding kernel performs the writes.

use vstd::prelude::*;

pub mod arena;
pub mod boot;
pub mod executor;
pub mod gates;
pub mod idt;
pub mod multiboot2;
pub mod pic;
pub mod serial;
pub mod vga;

pub use arena::AllocError;
pub use arena::FailurePolicy;
pub use arena::MemoryArena;
pub use boot::BootSequence;
pub use boot::BootStage;
pub use executor::Board;
pub use executor::Executor;
pub use executor::KernelTask;
pub use executor::Poll;
pub use executor::ValueTask;
pub use multiboot2::Architecture;
pub use multiboot2::MultibootColor;
pub use multiboot2::MultibootFramebufferColorPalette1;
pub use multiboot2::MultibootFramebufferColorPalette2;
pub use multiboot2::MultibootFramebufferPalette;
pub use multiboot2::MultibootHeader;
pub use multiboot2::MultibootHeaderTag;
pub use multiboot2::MultibootHeaderTagAddress;
pub use multiboot2::MultibootHeaderTagConsoleFlags;
pub use multiboot2::MultibootHeaderTagEntryAddress;
pub use multiboot2::MultibootHeaderTagFramebuffer;
pub use multiboot2::MultibootHeaderTagInformationRequest;
pub use multiboot2::MultibootHeaderTagModuleAlign;
pub use multiboot2::MultibootHeaderTagRelocatable;
pub use multiboot2::MultibootMmapEntry;
pub use multiboot2::MultibootTag;
pub use multiboot2::MultibootTagApm;
pub use multiboot2::MultibootTagBasicMeminfo;
pub use multiboot2::MultibootTagBootdev;
pub use multiboot2::MultibootTagEFI32;
pub use multiboot2::MultibootTagEFI64;
pub use multiboot2::MultibootTagEfi32Ih;
pub use multiboot2::MultibootTagEfi64Ih;
pub use multiboot2::MultibootTagEfiMmap;
pub use multiboot2::MultibootTagElfSections;
pub use multiboot2::MultibootTagFramebuffer;
pub use multiboot2::MultibootTagFramebufferCommon;
pub use multiboot2::MultibootTagLoadBaseAddr;
pub use multiboot2::MultibootTagMmap;
pub use multiboot2::MultibootTagModule;
pub use multiboot2::MultibootTagNetwork;
pub use multiboot2::MultibootTagNewAcpi;
pub use multiboot2::MultibootTagOldAcpi;
pub use multiboot2::MultibootTagSmbios;
pub use multiboot2::MultibootTagString;
pub use multiboot2::MultibootTagVbe;
pub use multiboot2::MultibootVbeInfoBlock;
pub use multiboot2::MultibootVbeModeInfoBlock;
pub use gates::GateDescriptor;
pub use gates::TypeDescriptor;
pub use idt::ExceptionHandlers;
pub use idt::InterruptsDescriptorTable;
pub use idt::init_idt;
pub use pic::PortWrite;
pub use pic::remap_sequence;
pub use serial::Port;
pub use serial::SerialInitPlan;
pub use serial::init_serial;
pub use vga::Buffer;
pub use vga::Color;
pub use vga::ColorCode;
pub use vga::ScreenChar;
pub use vga::VGAOut;
pub use vga::VGAOutInner;
pub use vga::Writer;

verus! {

/// A unit of the kernel's self-test suite.
pub trait Testable {
    fn run(&self);
}

/// Run every registered self-test in order.
pub fn test_runner<T: Testable>(tests: &[T]) {
    let mut i: usize = 0;
    while i < tests.len()
        decreases tests@.len() - i,
    {
        tests[i].run();
        i = i + 1;
    }
}

} // verus!
