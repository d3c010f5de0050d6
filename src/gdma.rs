//! The engine: clock bring-up, the global reset, and one creator per channel.
use vstd::prelude::*;
use crate::bits::{with_bit, with_bit_spec, lemma_zero_has_no_bits};
use crate::channel::{ChannelCreator, DmaError, DmaPriority};
use crate::port::{
    Direction, register_layout, reset_registers, done_of, descriptor_error_of,
    burst_applied, priority_applied,
};
use crate::system::{ChipVariant, Peripheral, PeripheralClockControl, enable_spec, has_gdma};

verus! {

/// Internal AHB reset bit of the engine's miscellaneous configuration register.
pub const AHBM_RST_INTER: u32 = 0;

/// Register-clock enable bit of the engine's miscellaneous configuration register.
pub const MISC_CLK_EN: u32 = 3;

/// The engine's global register group.
#[derive(Clone, Copy, Debug, PartialEq, Eq, Structural)]
pub struct DmaRegisters {
    pub variant: ChipVariant,
    pub misc_conf: u32,
}

/// The DMA engine of one chip. It cannot be copied or built twice from one
/// power-on: bringing the engine up consumes it.
pub struct DmaPeripheral {
    regs: DmaRegisters,
}

impl DmaPeripheral {
    pub closed spec fn registers_view(&self) -> DmaRegisters {
        self.regs
    }

    /// The engine of a chip as it comes out of power-on. Each call stands for
    /// one chip.
    pub fn power_on(variant: ChipVariant) -> (r: DmaPeripheral)
        ensures
            r.registers_view() == (DmaRegisters { variant, misc_conf: 0 }),
    {
        DmaPeripheral { regs: DmaRegisters { variant, misc_conf: 0 } }
    }
}

/// How many channels the engine of `variant` has.
pub open spec fn channel_count(variant: ChipVariant) -> nat {
    match variant {
        ChipVariant::Esp32s3 => 5,
        _ => 3,
    }
}

/// The miscellaneous configuration word after bring-up: the internal reset
/// pulsed (set, then cleared), then the register clock enabled.
pub open spec fn brought_up(misc_conf: u32) -> u32 {
    with_bit_spec(
        with_bit_spec(with_bit_spec(misc_conf, AHBM_RST_INTER, true), AHBM_RST_INTER, false),
        MISC_CLK_EN,
        true,
    )
}

/// The general-purpose DMA engine, offering its channels.
pub struct Gdma {
    /// The engine's global registers.
    pub registers: DmaRegisters,
    pub channel0: ChannelCreator,
    pub channel1: ChannelCreator,
    pub channel2: ChannelCreator,
    pub channel3: Option<ChannelCreator>,
    pub channel4: Option<ChannelCreator>,
}

impl Gdma {
    /// The creators the engine still holds, by channel index.
    pub open spec fn creators(&self) -> Seq<ChannelCreator> {
        let first = seq![self.channel0, self.channel1, self.channel2];
        match (self.channel3, self.channel4) {
            (Some(c3), Some(c4)) => first.push(c3).push(c4),
            _ => first,
        }
    }

    /// A freshly brought-up engine: one creator per channel of the variant, in
    /// index order, each over registers at their reset values.
    pub open spec fn fresh(&self) -> bool {
        let v = self.registers.variant;
        &&& has_gdma(v)
        &&& (self.channel3 is Some) == (v == ChipVariant::Esp32s3)
        &&& (self.channel4 is Some) == (v == ChipVariant::Esp32s3)
        &&& self.creators().len() == channel_count(v)
        &&& forall|i: int|
            0 <= i < self.creators().len() ==> {
                &&& (#[trigger] self.creators()[i]).index() == i
                &&& self.creators()[i].variant() == v
                &&& self.creators()[i].wf()
                &&& self.creators()[i].regs(Direction::Out) == reset_registers()
                &&& self.creators()[i].regs(Direction::In) == reset_registers()
            }
    }

    /// Creates the engine: enables its clock domain, pulses the global reset
    /// that returns every channel to its reset state, enables the register
    /// clock, and hands out one creator per channel. Refused, with nothing
    /// written, when an engine was already brought up over this clock control.
    pub fn new(dma: DmaPeripheral, peripheral_clock_control: &mut PeripheralClockControl) -> (r:
        Result<Gdma, DmaError>)
        requires
            dma.registers_view().variant == old(peripheral_clock_control).registers_view().variant,
            has_gdma(dma.registers_view().variant),
        ensures
            old(peripheral_clock_control).engine_started_view() ==> {
                &&& r == Err::<Gdma, DmaError>(DmaError::EngineInUse)
                &&& *final(peripheral_clock_control) == *old(peripheral_clock_control)
            },
            !old(peripheral_clock_control).engine_started_view() ==> {
                &&& r is Ok
                &&& final(peripheral_clock_control).engine_started_view()
                &&& final(peripheral_clock_control).registers_view() == enable_spec(
                    old(peripheral_clock_control).registers_view(),
                    Peripheral::Gdma,
                )
                &&& r->Ok_0.registers == (DmaRegisters {
                    variant: dma.registers_view().variant,
                    misc_conf: brought_up(dma.registers_view().misc_conf),
                })
                &&& r->Ok_0.fresh()
            },
    {
        if peripheral_clock_control.engine_started() {
            return Err(DmaError::EngineInUse);
        }
        peripheral_clock_control.enable(Peripheral::Gdma);
        peripheral_clock_control.mark_engine_started();
        let mut regs = dma.regs;
        regs.misc_conf = with_bit(regs.misc_conf, AHBM_RST_INTER, true);
        regs.misc_conf = with_bit(regs.misc_conf, AHBM_RST_INTER, false);
        regs.misc_conf = with_bit(regs.misc_conf, MISC_CLK_EN, true);
        let v = regs.variant;
        let (channel3, channel4) = match v {
            ChipVariant::Esp32s3 => (
                Some(ChannelCreator::after_reset(v, 3)),
                Some(ChannelCreator::after_reset(v, 4)),
            ),
            _ => (None, None),
        };
        let r = Gdma {
            registers: regs,
            channel0: ChannelCreator::after_reset(v, 0),
            channel1: ChannelCreator::after_reset(v, 1),
            channel2: ChannelCreator::after_reset(v, 2),
            channel3,
            channel4,
        };
        assert(r.creators()[0].index() == 0);
        assert(r.creators()[1].index() == 1);
        assert(r.creators()[2].index() == 2);
        Ok(r)
    }

    /// How many channels this engine has.
    pub fn channel_count(&self) -> (r: usize)
        ensures
            r == channel_count(self.registers.variant),
    {
        match self.registers.variant {
            ChipVariant::Esp32s3 => 5,
            _ => 3,
        }
    }
}

/// A fresh engine holds exactly one creator for each channel index of its
/// variant and none beyond: no two creators share an index. Since configuring
/// consumes the creator, and a clock control brings up at most one engine,
/// each channel becomes a live channel at most once.
pub proof fn lemma_one_creator_per_channel(g: &Gdma)
    requires
        g.fresh(),
    ensures
        g.creators().len() == channel_count(g.registers.variant),
        forall|i: int, j: int|
            0 <= i < j < g.creators().len() ==> #[trigger] g.creators()[i].index()
                != #[trigger] g.creators()[j].index(),
        forall|i: int|
            0 <= i < g.creators().len() ==> #[trigger] g.creators()[i].index() < channel_count(
                g.registers.variant,
            ),
{
}

/// Right after bring-up, no direction of any channel reads complete or in
/// error, and bringing a channel up with any burst mode and priority keeps
/// them clean.
pub proof fn lemma_fresh_channels_clean(g: &Gdma, dir: Direction, burst_mode: bool, priority: DmaPriority)
    requires
        g.fresh(),
    ensures
        forall|i: int|
            0 <= i < g.creators().len() ==> {
                let c = #[trigger] g.creators()[i];
                let l = register_layout(c.variant(), dir);
                let up = priority_applied(burst_applied(c.regs(dir), l, burst_mode), priority.spec_value());
                &&& !done_of(c.regs(dir), l)
                &&& !descriptor_error_of(c.regs(dir), l)
                &&& !done_of(up, l)
                &&& !descriptor_error_of(up, l)
            },
{
    assert forall|i: int| 0 <= i < g.creators().len() implies {
        let c = #[trigger] g.creators()[i];
        let l = register_layout(c.variant(), dir);
        let up = priority_applied(burst_applied(c.regs(dir), l, burst_mode), priority.spec_value());
        &&& !done_of(c.regs(dir), l)
        &&& !descriptor_error_of(c.regs(dir), l)
        &&& !done_of(up, l)
        &&& !descriptor_error_of(up, l)
    } by {
        let c = g.creators()[i];
        let l = register_layout(c.variant(), dir);
        assert(c.regs(Direction::Out) == reset_registers());
        assert(c.regs(Direction::In) == reset_registers());
        assert(c.regs(dir) == reset_registers()) by {
            match dir {
                Direction::Out => {},
                Direction::In => {},
            }
        }
        lemma_zero_has_no_bits(l.done_flag);
        lemma_zero_has_no_bits(l.dscr_err_flag);
    }
}

} // verus!
