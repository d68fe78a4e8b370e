//! Bit-exact interrupt/trap gate descriptors. The hardware defines a fixed
//! 16-byte record with the handler address split across low/mid/high fields;
//! any deviation from that encoding is undefined CPU behaviour, so the field
//! values are pinned down exactly.

use vstd::prelude::*;

verus! {

/// Low 16 bits of a handler address.
pub open spec fn address_low(a: u64) -> u16 {
    (a & 0xFFFF) as u16
}

/// Bits 16..32 of a handler address.
pub open spec fn address_middle(a: u64) -> u16 {
    ((a >> 16) & 0xFFFF) as u16
}

/// Bits 32..64 of a handler address.
pub open spec fn address_high(a: u64) -> u32 {
    ((a >> 32) & 0xFFFF_FFFF) as u32
}

/// The address encoded by the three gate fields.
pub open spec fn reassemble_address(low: u16, middle: u16, high: u32) -> u64 {
    (low as u64) | ((middle as u64) << 16) | ((high as u64) << 32)
}

/// Splitting any 64-bit handler address across the low/mid/high fields and
/// reassembling them yields the address back exactly.
pub proof fn lemma_address_split_round_trip(a: u64)
    ensures
        reassemble_address(address_low(a), address_middle(a), address_high(a)) == a,
{
    assert((((a & 0xFFFF) as u16) as u64) | (((((a >> 16) & 0xFFFF) as u16) as u64) << 16) | ((((
    (a >> 32) & 0xFFFF_FFFF) as u32) as u64) << 32) == a) by (bit_vector);
}

/// Which of the two hardware gate kinds an entry uses: interrupt gates
/// clear the interrupt flag on entry, trap gates leave it set.
#[derive(Clone, Copy, Debug, PartialEq, Eq, Structural)]
pub enum TypeDescriptor {
    InterruptGate,
    TrapGate,
}

/// The 4-bit hardware gate-type code.
pub open spec fn spec_gate_type_bits(t: TypeDescriptor) -> u8 {
    match t {
        TypeDescriptor::InterruptGate => 0x0E,
        TypeDescriptor::TrapGate => 0x0F,
    }
}

impl TypeDescriptor {
    /// The 4-bit hardware gate-type code.
    pub fn gate_type_bits(self) -> (r: u8)
        ensures
            r == spec_gate_type_bits(self),
    {
        match self {
            TypeDescriptor::InterruptGate => 0x0E,
            TypeDescriptor::TrapGate => 0x0F,
        }
    }
}

/// The attribute byte: present flag (bit 7), privilege level (bits 5..7),
/// a zero bit, and the 4-bit gate type.
pub open spec fn spec_attribute_byte(dpl: u8, gate_type: TypeDescriptor) -> u8 {
    (0x80u8 | ((dpl & 0x3) << 5)) | spec_gate_type_bits(gate_type)
}

/// Hardware-defined 16-byte interrupt/trap gate record.
#[derive(Clone, Copy, Debug, PartialEq, Eq, Structural)]
pub struct GateDescriptor {
    pub offset_low: u16,
    pub segment_selector: u16,
    /// Interrupt-stack-table index (3 bits; zero means "no stack switch").
    pub ist: u8,
    /// Present flag (1) + privilege level (2) + 0 + gate type (4).
    pub attributes: u8,
    pub offset_middle: u16,
    pub offset_hight: u32,
    pub reserved: u32,
}

/// The descriptor `GateDescriptor::new` builds.
pub open spec fn spec_gate(
    handler: u64,
    selector: u16,
    ist_index: u8,
    dpl: u8,
    gate_type: TypeDescriptor,
) -> GateDescriptor {
    GateDescriptor {
        offset_low: address_low(handler),
        segment_selector: selector,
        ist: ist_index,
        attributes: spec_attribute_byte(dpl, gate_type),
        offset_middle: address_middle(handler),
        offset_hight: address_high(handler),
        reserved: 0,
    }
}

impl GateDescriptor {
    /// An unused table slot: all bits zero, so the present flag is clear and
    /// a fault on its vector escalates instead of jumping anywhere.
    pub open spec fn spec_vacant() -> GateDescriptor {
        GateDescriptor {
            offset_low: 0,
            segment_selector: 0,
            ist: 0,
            attributes: 0,
            offset_middle: 0,
            offset_hight: 0,
            reserved: 0,
        }
    }

    /// Whether the hardware would treat this entry as registered.
    pub open spec fn is_present(self) -> bool {
        self.attributes & 0x80 != 0
    }

    pub fn vacant() -> (d: GateDescriptor)
        ensures
            d == GateDescriptor::spec_vacant(),
    {
        GateDescriptor {
            offset_low: 0,
            segment_selector: 0,
            ist: 0,
            attributes: 0,
            offset_middle: 0,
            offset_hight: 0,
            reserved: 0,
        }
    }

    /// Build the descriptor for a handler: the address is split bit-exactly
    /// across the three offset fields, and the attribute byte packs the
    /// present flag, privilege level and gate type.
    pub fn new(
        handler: u64,
        selector: u16,
        ist_index: u8,
        dpl: u8,
        gate_type: TypeDescriptor,
    ) -> (d: GateDescriptor)
        requires
            ist_index < 8,
            dpl < 4,
        ensures
            d == spec_gate(handler, selector, ist_index, dpl, gate_type),
            d.is_present(),
            reassemble_address(d.offset_low, d.offset_middle, d.offset_hight) == handler,
    {
        let low: u16 = (handler & 0xFFFF) as u16;
        let middle: u16 = ((handler >> 16) & 0xFFFF) as u16;
        let high: u32 = ((handler >> 32) & 0xFFFF_FFFF) as u32;
        let type_bits: u8 = gate_type.gate_type_bits();
        let attributes: u8 = (0x80u8 | ((dpl & 0x3) << 5)) | type_bits;
        proof {
            lemma_address_split_round_trip(handler);
            assert(((0x80u8 | ((dpl & 0x3) << 5)) | type_bits) & 0x80 != 0) by (bit_vector);
        }
        GateDescriptor {
            offset_low: low,
            segment_selector: selector,
            ist: ist_index,
            attributes,
            offset_middle: middle,
            offset_hight: high,
            reserved: 0,
        }
    }

    /// The handler address this descriptor encodes, reassembled from the
    /// low/mid/high fields.
    pub fn handler_address(&self) -> (a: u64)
        ensures
            a == reassemble_address(self.offset_low, self.offset_middle, self.offset_hight),
    {
        (self.offset_low as u64) | ((self.offset_middle as u64) << 16) | ((self.offset_hight
            as u64) << 32)
    }
}

} // verus!
