//! The per-channel, per-direction register port: one interface over the
//! register layouts of every supported variant, driven by a layout table.
use vstd::prelude::*;
use crate::bits::{bit, with_bit, with_bit_spec, with_field, with_field_spec};
use crate::system::{ChipVariant, has_gdma};

verus! {

/// The direction of a transfer: out of memory (transmit) or into it (receive).
#[derive(Clone, Copy, Debug, PartialEq, Eq, Structural)]
pub enum Direction {
    Out,
    In,
}

/// Mask of the arbitration-priority field of the priority register.
pub const PRIORITY_MASK: u32 = 0xf;

/// Mask of the peripheral-select field.
pub const PERIPHERAL_MASK: u32 = 0x3f;

/// Mask of the descriptor base-address field of the link register.
pub const ADDRESS_MASK: u32 = 0xfffff;

/// Bit positions of one direction's control and status bits.
#[derive(Clone, Copy, Debug, PartialEq, Eq, Structural)]
pub struct RegisterLayout {
    /// Reset bit of the configuration register.
    pub rst: u32,
    /// Descriptor burst-fetch enable bit of the configuration register.
    pub dscr_burst: u32,
    /// Data burst enable bit of the configuration register.
    pub data_burst: u32,
    /// Start-of-traversal bit of the link register.
    pub link_start: u32,
    /// Total-transfer-complete flag of the status register.
    pub done_flag: u32,
    /// Descriptor-error flag of the status register.
    pub dscr_err_flag: u32,
    /// Every status flag of this direction.
    pub clear_mask: u32,
}

/// The layout table of the variants with the general-purpose engine. On the
/// first each direction has its own status register, with the FIFO flags
/// split by level; on the other both directions of a channel share one status
/// register with disjoint flags.
pub open spec fn register_layout(variant: ChipVariant, dir: Direction) -> RegisterLayout {
    match (variant, dir) {
        (ChipVariant::Esp32s3, Direction::Out) => RegisterLayout {
            rst: 0, dscr_burst: 4, data_burst: 5, link_start: 21,
            done_flag: 3, dscr_err_flag: 2, clear_mask: 0xff,
        },
        (ChipVariant::Esp32s3, Direction::In) => RegisterLayout {
            rst: 0, dscr_burst: 2, data_burst: 3, link_start: 22,
            done_flag: 1, dscr_err_flag: 3, clear_mask: 0x1ff,
        },
        (_, Direction::Out) => RegisterLayout {
            rst: 0, dscr_burst: 4, data_burst: 5, link_start: 21,
            done_flag: 8, dscr_err_flag: 6, clear_mask: 0x1958,
        },
        (_, Direction::In) => RegisterLayout {
            rst: 0, dscr_burst: 2, data_burst: 3, link_start: 22,
            done_flag: 1, dscr_err_flag: 5, clear_mask: 0x6a7,
        },
    }
}

impl RegisterLayout {
    /// The properties of a layout that the port relies on.
    pub open spec fn wf(&self) -> bool {
        &&& self.rst < 32 && self.dscr_burst < 32 && self.data_burst < 32
        &&& self.link_start < 32 && self.done_flag < 32 && self.dscr_err_flag < 32
        &&& self.rst != self.dscr_burst && self.rst != self.data_burst
        &&& self.dscr_burst != self.data_burst
        &&& bit(self.clear_mask, self.done_flag) && bit(self.clear_mask, self.dscr_err_flag)
    }

    pub fn of(variant: ChipVariant, dir: Direction) -> (r: RegisterLayout)
        ensures
            r == register_layout(variant, dir),
            r.wf(),
    {
        let r = match (variant, dir) {
            (ChipVariant::Esp32s3, Direction::Out) => RegisterLayout {
                rst: 0, dscr_burst: 4, data_burst: 5, link_start: 21,
                done_flag: 3, dscr_err_flag: 2, clear_mask: 0xff,
            },
            (ChipVariant::Esp32s3, Direction::In) => RegisterLayout {
                rst: 0, dscr_burst: 2, data_burst: 3, link_start: 22,
                done_flag: 1, dscr_err_flag: 3, clear_mask: 0x1ff,
            },
            (_, Direction::Out) => RegisterLayout {
                rst: 0, dscr_burst: 4, data_burst: 5, link_start: 21,
                done_flag: 8, dscr_err_flag: 6, clear_mask: 0x1958,
            },
            (_, Direction::In) => RegisterLayout {
                rst: 0, dscr_burst: 2, data_burst: 3, link_start: 22,
                done_flag: 1, dscr_err_flag: 5, clear_mask: 0x6a7,
            },
        };
        proof {
            assert(bit(0x1958, 8) && bit(0x1958, 6)) by (bit_vector);
            assert(bit(0x6a7, 1) && bit(0x6a7, 5)) by (bit_vector);
            assert(bit(0xff, 3) && bit(0xff, 2)) by (bit_vector);
            assert(bit(0x1ff, 1) && bit(0x1ff, 3)) by (bit_vector);
        }
        r
    }
}

/// The words of one direction of one channel.
#[derive(Clone, Copy, Debug, PartialEq, Eq, Structural)]
pub struct DirectionRegisters {
    /// Configuration: reset and burst enables.
    pub conf0: u32,
    /// Arbitration priority.
    pub pri: u32,
    /// Descriptor base address and the start bit.
    pub link: u32,
    /// Peripheral select.
    pub peri_sel: u32,
    /// Raw status flags.
    pub int_raw: u32,
}

/// Every word at its reset value.
pub open spec fn reset_registers() -> DirectionRegisters {
    DirectionRegisters { conf0: 0, pri: 0, link: 0, peri_sel: 0, int_raw: 0 }
}

impl DirectionRegisters {
    pub fn reset_value() -> (r: DirectionRegisters)
        ensures
            r == reset_registers(),
    {
        DirectionRegisters { conf0: 0, pri: 0, link: 0, peri_sel: 0, int_raw: 0 }
    }
}

// What each register operation does to the words.

pub open spec fn burst_applied(r: DirectionRegisters, l: RegisterLayout, on: bool) -> DirectionRegisters {
    DirectionRegisters {
        conf0: with_bit_spec(with_bit_spec(r.conf0, l.data_burst, on), l.dscr_burst, on),
        ..r
    }
}

pub open spec fn priority_applied(r: DirectionRegisters, priority: u8) -> DirectionRegisters {
    DirectionRegisters { pri: (priority as u32) & PRIORITY_MASK, ..r }
}

pub open spec fn interrupts_cleared(r: DirectionRegisters, l: RegisterLayout) -> DirectionRegisters {
    DirectionRegisters { int_raw: r.int_raw & !l.clear_mask, ..r }
}

pub open spec fn reset_pulsed(r: DirectionRegisters, l: RegisterLayout) -> DirectionRegisters {
    DirectionRegisters {
        conf0: with_bit_spec(with_bit_spec(r.conf0, l.rst, true), l.rst, false),
        ..r
    }
}

pub open spec fn base_applied(r: DirectionRegisters, address: u32) -> DirectionRegisters {
    DirectionRegisters { link: with_field_spec(r.link, ADDRESS_MASK, address), ..r }
}

pub open spec fn peripheral_applied(r: DirectionRegisters, peripheral: u8) -> DirectionRegisters {
    DirectionRegisters { peri_sel: with_field_spec(r.peri_sel, PERIPHERAL_MASK, peripheral as u32), ..r }
}

pub open spec fn started(r: DirectionRegisters, l: RegisterLayout) -> DirectionRegisters {
    DirectionRegisters { link: with_bit_spec(r.link, l.link_start, true), ..r }
}

/// The hardware raising the total-end-of-frame flag.
pub open spec fn total_eof_signalled(r: DirectionRegisters, l: RegisterLayout) -> DirectionRegisters {
    DirectionRegisters { int_raw: with_bit_spec(r.int_raw, l.done_flag, true), ..r }
}

/// The hardware raising the descriptor-error flag.
pub open spec fn descriptor_error_signalled(r: DirectionRegisters, l: RegisterLayout) -> DirectionRegisters {
    DirectionRegisters { int_raw: with_bit_spec(r.int_raw, l.dscr_err_flag, true), ..r }
}

// What the words say.

pub open spec fn done_of(r: DirectionRegisters, l: RegisterLayout) -> bool {
    bit(r.int_raw, l.done_flag)
}

pub open spec fn descriptor_error_of(r: DirectionRegisters, l: RegisterLayout) -> bool {
    bit(r.int_raw, l.dscr_err_flag)
}

/// Burst mode as the configuration register holds it: both enables set.
pub open spec fn burst_of(r: DirectionRegisters, l: RegisterLayout) -> bool {
    bit(r.conf0, l.data_burst) && bit(r.conf0, l.dscr_burst)
}

/// Whether both burst enables agree with `on`.
pub open spec fn burst_is(r: DirectionRegisters, l: RegisterLayout, on: bool) -> bool {
    bit(r.conf0, l.data_burst) == on && bit(r.conf0, l.dscr_burst) == on
}

pub open spec fn priority_of(r: DirectionRegisters) -> u32 {
    r.pri & PRIORITY_MASK
}

pub open spec fn descriptor_base_of(r: DirectionRegisters) -> u32 {
    r.link & ADDRESS_MASK
}

pub open spec fn peripheral_of(r: DirectionRegisters) -> u32 {
    r.peri_sel & PERIPHERAL_MASK
}

/// Register access for one direction of one physical channel.
pub struct RegisterPort {
    variant: ChipVariant,
    index: u8,
    dir: Direction,
    layout: RegisterLayout,
    regs: DirectionRegisters,
}

impl RegisterPort {
    pub closed spec fn variant(&self) -> ChipVariant {
        self.variant
    }

    pub closed spec fn index(&self) -> u8 {
        self.index
    }

    pub closed spec fn dir(&self) -> Direction {
        self.dir
    }

    pub closed spec fn layout(&self) -> RegisterLayout {
        self.layout
    }

    /// The register words.
    pub closed spec fn regs(&self) -> DirectionRegisters {
        self.regs
    }

    pub open spec fn wf(&self) -> bool {
        &&& has_gdma(self.variant())
        &&& self.layout() == register_layout(self.variant(), self.dir())
        &&& self.layout().wf()
    }

    /// The port of direction `dir` of channel `index`, over the given words.
    pub fn new(variant: ChipVariant, index: u8, dir: Direction, regs: DirectionRegisters) -> (r: RegisterPort)
        requires
            has_gdma(variant),
        ensures
            r.wf(),
            r.variant() == variant,
            r.index() == index,
            r.dir() == dir,
            r.regs() == regs,
    {
        RegisterPort { variant, index, dir, layout: RegisterLayout::of(variant, dir), regs }
    }

    pub fn channel_index(&self) -> (r: u8)
        ensures
            r == self.index(),
    {
        self.index
    }

    pub fn direction(&self) -> (r: Direction)
        ensures
            r == self.dir(),
    {
        self.dir
    }

    /// A copy of the register words.
    pub fn registers(&self) -> (r: DirectionRegisters)
        ensures
            r == self.regs(),
    {
        self.regs
    }

    /// Direction-specific bring-up; nothing to do on the supported variants.
    pub fn init(&mut self)
        ensures
            *final(self) == *old(self),
    {
    }

    /// Sets the data-burst and descriptor-burst enables together.
    pub fn set_burst_mode(&mut self, on: bool)
        requires
            old(self).wf(),
        ensures
            final(self).wf(),
            final(self).regs() == burst_applied(old(self).regs(), old(self).layout(), on),
            same_port(*old(self), *final(self)),
    {
        let c = with_bit(self.regs.conf0, self.layout.data_burst, on);
        self.regs.conf0 = with_bit(c, self.layout.dscr_burst, on);
    }

    /// Writes the arbitration-priority register.
    pub fn set_priority(&mut self, priority: u8)
        requires
            old(self).wf(),
        ensures
            final(self).wf(),
            final(self).regs() == priority_applied(old(self).regs(), priority),
            same_port(*old(self), *final(self)),
    {
        self.regs.pri = (priority as u32) & PRIORITY_MASK;
    }

    /// Clears every status flag of this direction (write one to clear).
    pub fn clear_interrupts(&mut self)
        requires
            old(self).wf(),
        ensures
            final(self).wf(),
            final(self).regs() == interrupts_cleared(old(self).regs(), old(self).layout()),
            same_port(*old(self), *final(self)),
    {
        self.regs.int_raw = self.regs.int_raw & !self.layout.clear_mask;
    }

    /// Pulses the reset bit: set, then clear.
    pub fn reset(&mut self)
        requires
            old(self).wf(),
        ensures
            final(self).wf(),
            final(self).regs() == reset_pulsed(old(self).regs(), old(self).layout()),
            same_port(*old(self), *final(self)),
    {
        self.regs.conf0 = with_bit(self.regs.conf0, self.layout.rst, true);
        self.regs.conf0 = with_bit(self.regs.conf0, self.layout.rst, false);
    }

    /// Programs the descriptor base-address field of the link register.
    pub fn set_descriptor_base(&mut self, address: u32)
        requires
            old(self).wf(),
        ensures
            final(self).wf(),
            final(self).regs() == base_applied(old(self).regs(), address),
            same_port(*old(self), *final(self)),
    {
        self.regs.link = with_field(self.regs.link, ADDRESS_MASK, address);
    }

    /// Reads the descriptor-error flag.
    pub fn has_descriptor_error(&self) -> (r: bool)
        requires
            self.wf(),
        ensures
            r == descriptor_error_of(self.regs(), self.layout()),
    {
        (self.regs.int_raw >> self.layout.dscr_err_flag) & 1u32 == 1u32
    }

    /// Binds this direction's stream to a peripheral.
    pub fn set_peripheral_select(&mut self, peripheral: u8)
        requires
            old(self).wf(),
        ensures
            final(self).wf(),
            final(self).regs() == peripheral_applied(old(self).regs(), peripheral),
            same_port(*old(self), *final(self)),
    {
        self.regs.peri_sel = with_field(self.regs.peri_sel, PERIPHERAL_MASK, peripheral as u32);
    }

    /// Sets the bit that starts the traversal of the descriptor chain.
    pub fn start(&mut self)
        requires
            old(self).wf(),
        ensures
            final(self).wf(),
            final(self).regs() == started(old(self).regs(), old(self).layout()),
            same_port(*old(self), *final(self)),
    {
        self.regs.link = with_bit(self.regs.link, self.layout.link_start, true);
    }

    /// Reads the total-transfer-complete flag.
    pub fn is_done(&self) -> (r: bool)
        requires
            self.wf(),
        ensures
            r == done_of(self.regs(), self.layout()),
    {
        (self.regs.int_raw >> self.layout.done_flag) & 1u32 == 1u32
    }

    /// Raises the total-end-of-frame flag, as the hardware does when it has
    /// walked the whole chain.
    pub fn signal_total_eof(&mut self)
        requires
            old(self).wf(),
        ensures
            final(self).wf(),
            final(self).regs() == total_eof_signalled(old(self).regs(), old(self).layout()),
            same_port(*old(self), *final(self)),
    {
        self.regs.int_raw = with_bit(self.regs.int_raw, self.layout.done_flag, true);
    }

    /// Raises the descriptor-error flag, as the hardware does on a bad descriptor.
    pub fn signal_descriptor_error(&mut self)
        requires
            old(self).wf(),
        ensures
            final(self).wf(),
            final(self).regs() == descriptor_error_signalled(old(self).regs(), old(self).layout()),
            same_port(*old(self), *final(self)),
    {
        self.regs.int_raw = with_bit(self.regs.int_raw, self.layout.dscr_err_flag, true);
    }
}

/// Two ports of the same direction of the same channel.
pub open spec fn same_port(a: RegisterPort, b: RegisterPort) -> bool {
    a.variant() == b.variant() && a.index() == b.index() && a.dir() == b.dir() && a.layout() == b.layout()
}

} // verus!
