//! Serial-port initialization plan. The UART is programmed by a fixed
//! sequence of register writes followed by a loopback self-test; this module
//! computes the exact bytes, and the embedding kernel issues the port
//! instructions and treats a wrong loopback byte as a faulty chip.

use vstd::prelude::*;

use crate::pic::PortWrite;

verus! {

/// Base I/O address of the first serial port.
pub const BASE_PORT_ADDR: u16 = 0x3F8;

/// One I/O port, identified by its address.
#[derive(Clone, Copy, Debug, PartialEq, Eq, Structural)]
pub struct Port {
    pub addr: u16,
}

impl Port {
    pub fn new(base_addr: u16) -> (p: Port)
        ensures
            p.addr == base_addr,
    {
        Port { addr: base_addr }
    }

    /// The register `rhs` bytes above this port.
    pub fn offset(self, rhs: u16) -> (p: Port)
        requires
            self.addr + rhs <= u16::MAX,
        ensures
            p.addr == self.addr + rhs,
    {
        Port { addr: self.addr + rhs }
    }
}

/// Everything the kernel must do to bring the UART up: issue the setup
/// writes in order, read one byte back from the loopback port and compare
/// it against the expected value, then issue the finish writes.
pub struct SerialInitPlan {
    pub setup: Vec<PortWrite>,
    pub loopback_port: u16,
    pub loopback_expect: u8,
    pub finish: Vec<PortWrite>,
}

/// The fixed UART programming sequence: interrupts off, divisor latch open,
/// 38400 baud, 8 bits / no parity / one stop bit, FIFOs enabled and
/// cleared, modem lines raised, then loopback mode with a test byte.
pub open spec fn spec_serial_setup_writes() -> Seq<PortWrite> {
    seq![
        PortWrite { port: 0x3F9, value: 0x00 },
        PortWrite { port: 0x3FB, value: 0x80 },
        PortWrite { port: 0x3F8, value: 0x03 },
        PortWrite { port: 0x3F9, value: 0x00 },
        PortWrite { port: 0x3FB, value: 0x03 },
        PortWrite { port: 0x3FA, value: 0xC7 },
        PortWrite { port: 0x3FC, value: 0x0B },
        PortWrite { port: 0x3FC, value: 0x1E },
        PortWrite { port: 0x3F8, value: 0xAE },
    ]
}

/// After the loopback byte checks out, leave loopback mode and run normally.
pub open spec fn spec_serial_finish_writes() -> Seq<PortWrite> {
    seq![PortWrite { port: 0x3FC, value: 0x0F }]
}

/// Compute the UART initialization plan: the setup writes, the loopback
/// self-test (the byte read from the base port must equal the test byte
/// just sent), and the finish write that puts the chip into service.
pub fn init_serial() -> (plan: SerialInitPlan)
    ensures
        plan.setup@ == spec_serial_setup_writes(),
        plan.loopback_port == BASE_PORT_ADDR,
        plan.loopback_expect == 0xAEu8,
        plan.finish@ == spec_serial_finish_writes(),
{
    let port = Port::new(BASE_PORT_ADDR);
    let mut setup: Vec<PortWrite> = Vec::new();
    setup.push(PortWrite { port: port.offset(1).addr, value: 0x00 });
    setup.push(PortWrite { port: port.offset(3).addr, value: 0x80 });
    setup.push(PortWrite { port: port.offset(0).addr, value: 0x03 });
    setup.push(PortWrite { port: port.offset(1).addr, value: 0x00 });
    setup.push(PortWrite { port: port.offset(3).addr, value: 0x03 });
    setup.push(PortWrite { port: port.offset(2).addr, value: 0xC7 });
    setup.push(PortWrite { port: port.offset(4).addr, value: 0x0B });
    setup.push(PortWrite { port: port.offset(4).addr, value: 0x1E });
    setup.push(PortWrite { port: port.offset(0).addr, value: 0xAE });
    let mut finish: Vec<PortWrite> = Vec::new();
    finish.push(PortWrite { port: port.offset(4).addr, value: 0x0F });
    proof {
        assert(setup@ =~= spec_serial_setup_writes());
        assert(finish@ =~= spec_serial_finish_writes());
    }
    SerialInitPlan { setup, loopback_port: port.addr, loopback_expect: 0xAE, finish }
}

} // verus!
