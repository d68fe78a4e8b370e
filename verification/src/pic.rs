//! Remap plan for the two legacy interrupt-controller chips. Each chip is
//! reprogrammed by a strict single-writer sequence — the init command byte,
//! three configuration bytes, then the interrupt mask — so that its lines
//! land outside the CPU-reserved exception range 0–31. The embedding kernel
//! performs the port writes with interrupts globally disabled.

use vstd::prelude::*;

verus! {

/// Command and data ports of the primary and secondary controller chips.
pub const PRIMARY_COMMAND_PORT: u16 = 0x20;

pub const PRIMARY_DATA_PORT: u16 = 0x21;

pub const SECONDARY_COMMAND_PORT: u16 = 0xA0;

pub const SECONDARY_DATA_PORT: u16 = 0xA1;

/// Init command: begin the initialization sequence, expect a fourth
/// configuration byte.
pub const CONTROLLER_INIT_COMMAND: u8 = 0x11;

/// Fourth configuration byte: run the chip in 8086 mode.
pub const CONTROLLER_MODE_8086: u8 = 0x01;

/// Wiring bytes: the secondary chip hangs off line 2 of the primary.
pub const PRIMARY_CHAIN_LINE: u8 = 0x04;

pub const SECONDARY_IDENTITY: u8 = 0x02;

/// First vector number reserved for CPU exceptions; remapped offsets must
/// land at or above the end of that range.
pub const FIRST_FREE_VECTOR: u8 = 32;

/// One byte written to one I/O port.
#[derive(Clone, Copy, Debug, PartialEq, Eq, Structural)]
pub struct PortWrite {
    pub port: u16,
    pub value: u8,
}

/// The exact write sequence that remaps both chips: per chip, the init
/// command on the command port, then the vector offset, the chain wiring
/// byte and the mode byte on the data port, then the interrupt mask.
pub open spec fn spec_remap_sequence(
    offset_primary: u8,
    offset_secondary: u8,
    mask_primary: u8,
    mask_secondary: u8,
) -> Seq<PortWrite> {
    seq![
        PortWrite { port: PRIMARY_COMMAND_PORT, value: CONTROLLER_INIT_COMMAND },
        PortWrite { port: PRIMARY_DATA_PORT, value: offset_primary },
        PortWrite { port: PRIMARY_DATA_PORT, value: PRIMARY_CHAIN_LINE },
        PortWrite { port: PRIMARY_DATA_PORT, value: CONTROLLER_MODE_8086 },
        PortWrite { port: PRIMARY_DATA_PORT, value: mask_primary },
        PortWrite { port: SECONDARY_COMMAND_PORT, value: CONTROLLER_INIT_COMMAND },
        PortWrite { port: SECONDARY_DATA_PORT, value: offset_secondary },
        PortWrite { port: SECONDARY_DATA_PORT, value: SECONDARY_IDENTITY },
        PortWrite { port: SECONDARY_DATA_PORT, value: CONTROLLER_MODE_8086 },
        PortWrite { port: SECONDARY_DATA_PORT, value: mask_secondary },
    ]
}

/// Compute the remap write sequence for the two chips. The offsets must lie
/// outside the CPU-reserved exception range.
pub fn remap_sequence(
    offset_primary: u8,
    offset_secondary: u8,
    mask_primary: u8,
    mask_secondary: u8,
) -> (writes: Vec<PortWrite>)
    requires
        offset_primary >= FIRST_FREE_VECTOR,
        offset_secondary >= FIRST_FREE_VECTOR,
    ensures
        writes@ == spec_remap_sequence(
            offset_primary,
            offset_secondary,
            mask_primary,
            mask_secondary,
        ),
{
    let mut writes: Vec<PortWrite> = Vec::new();
    writes.push(PortWrite { port: PRIMARY_COMMAND_PORT, value: CONTROLLER_INIT_COMMAND });
    writes.push(PortWrite { port: PRIMARY_DATA_PORT, value: offset_primary });
    writes.push(PortWrite { port: PRIMARY_DATA_PORT, value: PRIMARY_CHAIN_LINE });
    writes.push(PortWrite { port: PRIMARY_DATA_PORT, value: CONTROLLER_MODE_8086 });
    writes.push(PortWrite { port: PRIMARY_DATA_PORT, value: mask_primary });
    writes.push(PortWrite { port: SECONDARY_COMMAND_PORT, value: CONTROLLER_INIT_COMMAND });
    writes.push(PortWrite { port: SECONDARY_DATA_PORT, value: offset_secondary });
    writes.push(PortWrite { port: SECONDARY_DATA_PORT, value: SECONDARY_IDENTITY });
    writes.push(PortWrite { port: SECONDARY_DATA_PORT, value: CONTROLLER_MODE_8086 });
    writes.push(PortWrite { port: SECONDARY_DATA_PORT, value: mask_secondary });
    proof {
        assert(writes@ =~= spec_remap_sequence(
            offset_primary,
            offset_secondary,
            mask_primary,
            mask_secondary,
        ));
    }
    writes
}

} // verus!
