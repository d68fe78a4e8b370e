//! The interrupt-vector table: 256 gate descriptors indexed by vector
//! number. Building it is pure computation; submitting it to the CPU with
//! the privileged load instruction is left to the embedding kernel, which
//! must then keep the storage alive and unmoved while interrupts can fire.

use vstd::prelude::*;

use crate::gates::GateDescriptor;
use crate::gates::TypeDescriptor;
use crate::gates::spec_gate;

verus! {

/// Number of interrupt/exception vectors the CPU defines.
pub const IDT_ENTRIES: usize = 256;

/// Vector numbers of the fatal CPU exceptions that must be wired before
/// interrupts can safely be enabled.
pub const VECTOR_DIVISION_ERROR: u8 = 0;

pub const VECTOR_BREAKPOINT: u8 = 3;

pub const VECTOR_DOUBLE_FAULT: u8 = 8;

pub const VECTOR_GENERAL_PROTECTION_FAULT: u8 = 13;

pub const VECTOR_PAGE_FAULT: u8 = 14;

/// Dedicated interrupt-stack-table slot for the double-fault handler, which
/// must not run on a potentially corrupt stack.
pub const DOUBLE_FAULT_IST_INDEX: u8 = 1;

/// Selector of the kernel code segment every handler runs in.
pub const KERNEL_CODE_SELECTOR: u16 = 8;

/// Entry points of the exception handlers the kernel registers, one address
/// per fatal vector that must never be left unhandled.
#[derive(Clone, Copy, Debug)]
pub struct ExceptionHandlers {
    pub division_error: u64,
    pub breakpoint: u64,
    pub double_fault: u64,
    pub general_protection_fault: u64,
    pub page_fault: u64,
}

/// Ordered, fixed-length collection of gate descriptors indexed by vector.
pub struct InterruptsDescriptorTable {
    pub entries: Vec<GateDescriptor>,
}

impl InterruptsDescriptorTable {
    /// Exactly one slot per CPU vector.
    pub open spec fn wf(self) -> bool {
        self.entries@.len() == IDT_ENTRIES
    }

    pub open spec fn spec_entry(self, vector: u8) -> GateDescriptor {
        self.entries@[vector as int]
    }

    /// A table with every vector left unhandled.
    pub fn new() -> (idt: InterruptsDescriptorTable)
        ensures
            idt.wf(),
            forall|k: int| 0 <= k < IDT_ENTRIES
                ==> idt.entries@[k] == GateDescriptor::spec_vacant(),
    {
        let mut entries: Vec<GateDescriptor> = Vec::new();
        let mut i: usize = 0;
        while i < IDT_ENTRIES
            invariant
                i <= IDT_ENTRIES,
                entries@.len() == i,
                forall|k: int| 0 <= k < i ==> entries@[k] == GateDescriptor::spec_vacant(),
            decreases IDT_ENTRIES - i,
        {
            entries.push(GateDescriptor::vacant());
            i = i + 1;
        }
        InterruptsDescriptorTable { entries }
    }

    /// Register `gate` for `vector`, leaving every other slot unchanged.
    pub fn set_handler(&mut self, vector: u8, gate: GateDescriptor)
        requires
            old(self).wf(),
        ensures
            final(self).wf(),
            final(self).entries@ == old(self).entries@.update(vector as int, gate),
            final(self).spec_entry(vector) == gate,
    {
        let slot: &mut GateDescriptor = &mut self.entries[vector as usize];
        *slot = gate;
    }

    pub fn entry(&self, vector: u8) -> (d: GateDescriptor)
        requires
            self.wf(),
        ensures
            d == self.spec_entry(vector),
    {
        self.entries[vector as usize]
    }
}

/// The table the five required handlers produce: each fatal vector carries
/// an interrupt gate for its handler (the double fault on its dedicated
/// stack), and every other vector is left vacant.
pub open spec fn spec_init_idt(h: ExceptionHandlers) -> Seq<GateDescriptor> {
    Seq::new(IDT_ENTRIES as nat, |v: int| GateDescriptor::spec_vacant())
        .update(
        VECTOR_DIVISION_ERROR as int,
        spec_gate(h.division_error, KERNEL_CODE_SELECTOR, 0, 0, TypeDescriptor::InterruptGate),
    )
        .update(
        VECTOR_BREAKPOINT as int,
        spec_gate(h.breakpoint, KERNEL_CODE_SELECTOR, 0, 0, TypeDescriptor::InterruptGate),
    )
        .update(
        VECTOR_DOUBLE_FAULT as int,
        spec_gate(
            h.double_fault,
            KERNEL_CODE_SELECTOR,
            DOUBLE_FAULT_IST_INDEX,
            0,
            TypeDescriptor::InterruptGate,
        ),
    )
        .update(
        VECTOR_GENERAL_PROTECTION_FAULT as int,
        spec_gate(
            h.general_protection_fault,
            KERNEL_CODE_SELECTOR,
            0,
            0,
            TypeDescriptor::InterruptGate,
        ),
    )
        .update(
        VECTOR_PAGE_FAULT as int,
        spec_gate(h.page_fault, KERNEL_CODE_SELECTOR, 0, 0, TypeDescriptor::InterruptGate),
    )
}

/// Build the vector table for boot: wire the fatal CPU exceptions (divide
/// error, breakpoint, double fault, general-protection fault, page fault)
/// to the given handler entry points and leave every other vector vacant,
/// so a fault on one escalates to the double-fault handler rather than
/// running through a stale gate.
pub fn init_idt(handlers: &ExceptionHandlers) -> (idt: InterruptsDescriptorTable)
    ensures
        idt.wf(),
        idt.entries@ == spec_init_idt(*handlers),
{
    let mut idt = InterruptsDescriptorTable::new();
    idt.set_handler(
        VECTOR_DIVISION_ERROR,
        GateDescriptor::new(
            handlers.division_error,
            KERNEL_CODE_SELECTOR,
            0,
            0,
            TypeDescriptor::InterruptGate,
        ),
    );
    idt.set_handler(
        VECTOR_BREAKPOINT,
        GateDescriptor::new(
            handlers.breakpoint,
            KERNEL_CODE_SELECTOR,
            0,
            0,
            TypeDescriptor::InterruptGate,
        ),
    );
    idt.set_handler(
        VECTOR_DOUBLE_FAULT,
        GateDescriptor::new(
            handlers.double_fault,
            KERNEL_CODE_SELECTOR,
            DOUBLE_FAULT_IST_INDEX,
            0,
            TypeDescriptor::InterruptGate,
        ),
    );
    idt.set_handler(
        VECTOR_GENERAL_PROTECTION_FAULT,
        GateDescriptor::new(
            handlers.general_protection_fault,
            KERNEL_CODE_SELECTOR,
            0,
            0,
            TypeDescriptor::InterruptGate,
        ),
    );
    idt.set_handler(
        VECTOR_PAGE_FAULT,
        GateDescriptor::new(
            handlers.page_fault,
            KERNEL_CODE_SELECTOR,
            0,
            0,
            TypeDescriptor::InterruptGate,
        ),
    );
    proof {
        assert(idt.entries@ =~= spec_init_idt(*handlers));
    }
    idt
}

} // verus!
