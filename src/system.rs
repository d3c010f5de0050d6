//! The system block: peripheral clock gating and the split of the block into
//! its logical parts.
use vstd::prelude::*;
use crate::bits::{with_mask, with_mask_spec, lemma_with_mask_idempotent};

verus! {

/// The chip families whose DMA engine this library drives.
#[derive(Clone, Copy, Debug, PartialEq, Eq, Structural)]
pub enum ChipVariant {
    Esp32,
    Esp32s2,
    Esp32c3,
    Esp32s3,
}

/// Whether the variant's DMA engine is the general-purpose one, whose
/// channels serve any peripheral.
pub open spec fn has_gdma(variant: ChipVariant) -> bool {
    variant == ChipVariant::Esp32c3 || variant == ChipVariant::Esp32s3
}

/// Peripherals whose clock domain can be enabled through [`PeripheralClockControl`].
#[derive(Clone, Copy, Debug, PartialEq, Eq, Structural)]
pub enum Peripheral {
    Spi2,
    Spi3,
    I2cExt0,
    I2cExt1,
    Rmt,
    Ledc,
    ApbSarAdc,
    Gdma,
    Dma,
    Usb,
}

/// Where a peripheral's clock-enable and reset bits sit: the register bank
/// (`false` for the first pair of registers, `true` for the second) and the
/// mask of its bits, or `None` where the variant has no such peripheral.
pub open spec fn clock_gate(variant: ChipVariant, p: Peripheral) -> Option<(bool, u32)> {
    match (p, variant) {
        (Peripheral::Spi2, _) => Some((false, 1u32 << 6)),
        (Peripheral::Spi3, _) => Some((false, 1u32 << 16)),
        (Peripheral::I2cExt0, _) => Some((false, 1u32 << 7)),
        (Peripheral::I2cExt1, ChipVariant::Esp32c3) => None,
        (Peripheral::I2cExt1, _) => Some((false, 1u32 << 18)),
        (Peripheral::Rmt, _) => Some((false, 1u32 << 9)),
        (Peripheral::Ledc, _) => Some((false, 1u32 << 11)),
        (Peripheral::ApbSarAdc, ChipVariant::Esp32c3) => Some((false, 1u32 << 28)),
        (Peripheral::ApbSarAdc, _) => None,
        (Peripheral::Gdma, ChipVariant::Esp32c3) => Some((true, 1u32 << 6)),
        (Peripheral::Gdma, ChipVariant::Esp32s3) => Some((true, 1u32 << 6)),
        (Peripheral::Gdma, _) => None,
        (Peripheral::Dma, ChipVariant::Esp32) => Some((false, 1u32 << 22)),
        (Peripheral::Dma, ChipVariant::Esp32s2) => Some((false, (1u32 << 22) | (1u32 << 27))),
        (Peripheral::Dma, _) => None,
        (Peripheral::Usb, ChipVariant::Esp32s2) => Some((false, 1u32 << 23)),
        (Peripheral::Usb, ChipVariant::Esp32s3) => Some((false, 1u32 << 23)),
        (Peripheral::Usb, _) => None,
    }
}

pub open spec fn is_available(variant: ChipVariant, p: Peripheral) -> bool {
    clock_gate(variant, p) is Some
}

fn gate_of(variant: ChipVariant, p: Peripheral) -> (r: Option<(bool, u32)>)
    ensures
        r == clock_gate(variant, p),
{
    match (p, variant) {
        (Peripheral::Spi2, _) => Some((false, 1u32 << 6)),
        (Peripheral::Spi3, _) => Some((false, 1u32 << 16)),
        (Peripheral::I2cExt0, _) => Some((false, 1u32 << 7)),
        (Peripheral::I2cExt1, ChipVariant::Esp32c3) => None,
        (Peripheral::I2cExt1, _) => Some((false, 1u32 << 18)),
        (Peripheral::Rmt, _) => Some((false, 1u32 << 9)),
        (Peripheral::Ledc, _) => Some((false, 1u32 << 11)),
        (Peripheral::ApbSarAdc, ChipVariant::Esp32c3) => Some((false, 1u32 << 28)),
        (Peripheral::ApbSarAdc, _) => None,
        (Peripheral::Gdma, ChipVariant::Esp32c3) => Some((true, 1u32 << 6)),
        (Peripheral::Gdma, ChipVariant::Esp32s3) => Some((true, 1u32 << 6)),
        (Peripheral::Gdma, _) => None,
        (Peripheral::Dma, ChipVariant::Esp32) => Some((false, 1u32 << 22)),
        (Peripheral::Dma, ChipVariant::Esp32s2) => Some((false, (1u32 << 22) | (1u32 << 27))),
        (Peripheral::Dma, _) => None,
        (Peripheral::Usb, ChipVariant::Esp32s2) => Some((false, 1u32 << 23)),
        (Peripheral::Usb, ChipVariant::Esp32s3) => Some((false, 1u32 << 23)),
        (Peripheral::Usb, _) => None,
    }
}

/// The system block's clock-gating registers: two clock-enable words and the
/// two reset words paired with them. A set reset bit holds the peripheral inert.
#[derive(Clone, Copy, Debug, PartialEq, Eq, Structural)]
pub struct SystemRegisters {
    pub variant: ChipVariant,
    pub perip_clk_en0: u32,
    pub perip_rst_en0: u32,
    pub perip_clk_en1: u32,
    pub perip_rst_en1: u32,
}

/// The registers after `enable(p)`: the peripheral's clock bits set and its
/// reset bits cleared, every other bit kept.
pub open spec fn enable_spec(r: SystemRegisters, p: Peripheral) -> SystemRegisters
    recommends
        is_available(r.variant, p),
{
    let (bank1, m) = clock_gate(r.variant, p).unwrap();
    if bank1 {
        SystemRegisters {
            perip_clk_en1: with_mask_spec(r.perip_clk_en1, m, true),
            perip_rst_en1: with_mask_spec(r.perip_rst_en1, m, false),
            ..r
        }
    } else {
        SystemRegisters {
            perip_clk_en0: with_mask_spec(r.perip_clk_en0, m, true),
            perip_rst_en0: with_mask_spec(r.perip_rst_en0, m, false),
            ..r
        }
    }
}

/// Enabling a peripheral twice in a row leaves the clock-enable and reset bits
/// exactly as enabling it once does.
pub proof fn lemma_enable_idempotent(r: SystemRegisters, p: Peripheral)
    requires
        is_available(r.variant, p),
    ensures
        enable_spec(enable_spec(r, p), p) == enable_spec(r, p),
{
    let (bank1, m) = clock_gate(r.variant, p).unwrap();
    if bank1 {
        lemma_with_mask_idempotent(r.perip_clk_en1, m, true);
        lemma_with_mask_idempotent(r.perip_rst_en1, m, false);
    } else {
        lemma_with_mask_idempotent(r.perip_clk_en0, m, true);
        lemma_with_mask_idempotent(r.perip_rst_en0, m, false);
    }
}

/// The system block of one chip. It cannot be copied or built twice from one
/// power-on: splitting consumes it, so one chip has one clock control.
pub struct SystemPeripheral {
    regs: SystemRegisters,
}

impl SystemPeripheral {
    pub closed spec fn registers_view(&self) -> SystemRegisters {
        self.regs
    }

    /// The block of a chip as it comes out of power-on: every clock gated,
    /// every peripheral held in reset. Each call stands for one chip.
    pub fn power_on(variant: ChipVariant) -> (r: SystemPeripheral)
        ensures
            r.registers_view() == (SystemRegisters {
                variant,
                perip_clk_en0: 0,
                perip_rst_en0: 0xffff_ffff,
                perip_clk_en1: 0,
                perip_rst_en1: 0xffff_ffff,
            }),
    {
        SystemPeripheral {
            regs: SystemRegisters {
                variant,
                perip_clk_en0: 0,
                perip_rst_en0: 0xffff_ffff,
                perip_clk_en1: 0,
                perip_rst_en1: 0xffff_ffff,
            },
        }
    }
}

/// Controls the enablement of peripheral clocks, and records whether the DMA
/// engine has been brought up over it.
pub struct PeripheralClockControl {
    regs: SystemRegisters,
    engine_started: bool,
}

impl PeripheralClockControl {
    pub closed spec fn registers_view(&self) -> SystemRegisters {
        self.regs
    }

    /// Whether a DMA engine has already been brought up over this clock control.
    pub closed spec fn engine_started_view(&self) -> bool {
        self.engine_started
    }

    pub fn registers(&self) -> (r: SystemRegisters)
        ensures
            r == self.registers_view(),
    {
        self.regs
    }

    pub fn engine_started(&self) -> (r: bool)
        ensures
            r == self.engine_started_view(),
    {
        self.engine_started
    }

    /// Records that the DMA engine has been brought up.
    pub(crate) fn mark_engine_started(&mut self)
        ensures
            final(self).registers_view() == old(self).registers_view(),
            final(self).engine_started_view(),
    {
        self.engine_started = true;
    }

    pub fn is_available(&self, peripheral: Peripheral) -> (r: bool)
        ensures
            r == is_available(self.registers_view().variant, peripheral),
    {
        gate_of(self.regs.variant, peripheral).is_some()
    }

    /// Enables the given peripheral's clock and releases it from reset.
    pub fn enable(&mut self, peripheral: Peripheral)
        requires
            is_available(old(self).registers_view().variant, peripheral),
        ensures
            final(self).registers_view() == enable_spec(old(self).registers_view(), peripheral),
            final(self).engine_started_view() == old(self).engine_started_view(),
    {
        let (bank1, m) = gate_of(self.regs.variant, peripheral).unwrap();
        if bank1 {
            self.regs.perip_clk_en1 = with_mask(self.regs.perip_clk_en1, m, true);
            self.regs.perip_rst_en1 = with_mask(self.regs.perip_rst_en1, m, false);
        } else {
            self.regs.perip_clk_en0 = with_mask(self.regs.perip_clk_en0, m, true);
            self.regs.perip_rst_en0 = with_mask(self.regs.perip_rst_en0, m, false);
        }
    }
}

/// Controls the configuration of the chip's clocks.
pub struct SystemClockControl {
    _private: (),
}

/// Controls the CPU cores.
pub struct CpuControl {
    _private: (),
}

/// The DMA part of the system block, on variants whose DMA is tied to
/// particular peripherals rather than a general-purpose engine.
pub struct Dma {
    _private: (),
}

/// The system block split into its logical parts.
pub struct SystemParts {
    pub peripheral_clock_control: PeripheralClockControl,
    pub clock_control: SystemClockControl,
    pub cpu_control: CpuControl,
    pub dma: Option<Dma>,
}

/// Splits a system block into independent logical parts.
pub trait SystemExt: Sized {
    type Parts;

    /// Whether `parts` is what splitting `self` yields.
    spec fn split_into(self, parts: Self::Parts) -> bool;

    /// Splits the system block into its parts.
    fn split(self) -> (r: Self::Parts)
        ensures
            self.split_into(r),
    ;
}

impl SystemExt for SystemPeripheral {
    type Parts = SystemParts;

    open spec fn split_into(self, parts: SystemParts) -> bool {
        &&& parts.peripheral_clock_control.registers_view() == self.registers_view()
        &&& !parts.peripheral_clock_control.engine_started_view()
        &&& (parts.dma is Some) == !has_gdma(self.registers_view().variant)
    }

    fn split(self) -> (r: SystemParts) {
        let dma = match self.regs.variant {
            ChipVariant::Esp32 | ChipVariant::Esp32s2 => Some(Dma { _private: () }),
            ChipVariant::Esp32c3 | ChipVariant::Esp32s3 => None,
        };
        SystemParts {
            peripheral_clock_control: PeripheralClockControl { regs: self.regs, engine_started: false },
            clock_control: SystemClockControl { _private: () },
            cpu_control: CpuControl { _private: () },
            dma,
        }
    }
}

} // verus!
