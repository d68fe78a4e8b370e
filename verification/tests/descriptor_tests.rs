use lzos::BootSequence;
use lzos::BootStage;
use lzos::ExceptionHandlers;
use lzos::GateDescriptor;
use lzos::PortWrite;
use lzos::TypeDescriptor;
use lzos::init_idt;
use lzos::init_serial;
use lzos::remap_sequence;

#[test]
fn gate_splits_address_exactly() {
    let d = GateDescriptor::new(0x1122_3344_5566_7788, 8, 0, 0, TypeDescriptor::InterruptGate);
    assert_eq!(d.offset_low, 0x7788);
    assert_eq!(d.offset_middle, 0x5566);
    assert_eq!(d.offset_hight, 0x1122_3344);
    assert_eq!(d.segment_selector, 8);
    assert_eq!(d.ist, 0);
    assert_eq!(d.reserved, 0);
    assert_eq!(d.handler_address(), 0x1122_3344_5566_7788);
}

#[test]
fn gate_round_trip_at_the_edges() {
    for addr in [0u64, 1, 0xFFFF, 0x1_0000, 0xFFFF_FFFF_FFFF_FFFF, 0x8000_0000_0000_0000] {
        let d = GateDescriptor::new(addr, 8, 0, 0, TypeDescriptor::InterruptGate);
        assert_eq!(d.handler_address(), addr);
    }
}

#[test]
fn attribute_byte_packs_kind_and_privilege() {
    let interrupt = GateDescriptor::new(0, 8, 0, 0, TypeDescriptor::InterruptGate);
    assert_eq!(interrupt.attributes, 0x8E);
    let trap = GateDescriptor::new(0, 8, 0, 0, TypeDescriptor::TrapGate);
    assert_eq!(trap.attributes, 0x8F);
    let user = GateDescriptor::new(0, 8, 0, 3, TypeDescriptor::InterruptGate);
    assert_eq!(user.attributes, 0xEE);
}

#[test]
fn vacant_gate_is_not_present() {
    let d = GateDescriptor::vacant();
    assert_eq!(d.attributes, 0);
    assert_eq!(d.handler_address(), 0);
}

#[test]
fn init_idt_wires_the_fatal_vectors() {
    let handlers = ExceptionHandlers {
        division_error: 0x1000,
        breakpoint: 0x2000,
        double_fault: 0x3000,
        general_protection_fault: 0x4000,
        page_fault: 0x5000,
    };
    let idt = init_idt(&handlers);
    assert_eq!(idt.entries.len(), 256);
    assert_eq!(idt.entry(0).handler_address(), 0x1000);
    assert_eq!(idt.entry(3).handler_address(), 0x2000);
    assert_eq!(idt.entry(8).handler_address(), 0x3000);
    assert_eq!(idt.entry(8).ist, 1);
    assert_eq!(idt.entry(13).handler_address(), 0x4000);
    assert_eq!(idt.entry(14).handler_address(), 0x5000);
    // Every other vector stays vacant, so a fault there escalates.
    assert_eq!(idt.entry(1).attributes, 0);
    assert_eq!(idt.entry(32).attributes, 0);
    assert_eq!(idt.entry(255).attributes, 0);
}

#[test]
fn remap_sequence_is_the_documented_ten_writes() {
    let writes = remap_sequence(32, 40, 0xFD, 0xFF);
    let expected = [
        (0x20u16, 0x11u8),
        (0x21, 32),
        (0x21, 0x04),
        (0x21, 0x01),
        (0x21, 0xFD),
        (0xA0, 0x11),
        (0xA1, 40),
        (0xA1, 0x02),
        (0xA1, 0x01),
        (0xA1, 0xFF),
    ];
    assert_eq!(writes.len(), expected.len());
    for (w, (port, value)) in writes.iter().zip(expected.iter()) {
        assert_eq!(w, &PortWrite { port: *port, value: *value });
    }
}

#[test]
fn serial_plan_matches_the_uart_bring_up() {
    let plan = init_serial();
    let expected = [
        (0x3F9u16, 0x00u8),
        (0x3FB, 0x80),
        (0x3F8, 0x03),
        (0x3F9, 0x00),
        (0x3FB, 0x03),
        (0x3FA, 0xC7),
        (0x3FC, 0x0B),
        (0x3FC, 0x1E),
        (0x3F8, 0xAE),
    ];
    assert_eq!(plan.setup.len(), expected.len());
    for (w, (port, value)) in plan.setup.iter().zip(expected.iter()) {
        assert_eq!(w, &PortWrite { port: *port, value: *value });
    }
    assert_eq!(plan.loopback_port, 0x3F8);
    assert_eq!(plan.loopback_expect, 0xAE);
    assert_eq!(plan.finish.len(), 1);
    assert_eq!(plan.finish[0], PortWrite { port: 0x3FC, value: 0x0F });
}

#[test]
fn boot_stages_advance_in_order() {
    let mut boot = BootSequence::new();
    assert_eq!(boot.current_stage(), BootStage::Uninitialized);
    boot.segments_loaded();
    assert_eq!(boot.current_stage(), BootStage::SegmentsLoaded);
    boot.vectors_loaded();
    assert_eq!(boot.current_stage(), BootStage::VectorsLoaded);
    boot.controller_remapped();
    assert_eq!(boot.current_stage(), BootStage::ControllerRemapped);
    boot.interrupts_enabled();
    assert_eq!(boot.current_stage(), BootStage::InterruptsEnabled);
}
