//! Transfer channels: one direction's bring-up and transfer sequencing over a
//! register port, the transmit/receive pair, and the one-shot creator.
use vstd::prelude::*;
use crate::bits::{lemma_fits_mask, lemma_zero_has_no_bits, with_bit_spec, lemma_with_bit, lemma_priority_fits, lemma_clear_mask, lemma_field_read};
use crate::port::{
    RegisterPort, RegisterLayout, DirectionRegisters, Direction, same_port, burst_is, priority_of,
    burst_applied, priority_applied, reset_pulsed, base_applied, peripheral_applied, started,
    interrupts_cleared, total_eof_signalled, descriptor_error_signalled, done_of,
    descriptor_error_of, PRIORITY_MASK, burst_of, register_layout, descriptor_base_of, peripheral_of, ADDRESS_MASK,
    PERIPHERAL_MASK, reset_registers,
};
use crate::system::{ChipVariant, has_gdma};

verus! {

/// Arbitration priority of a channel: a higher value wins contested bus access.
#[derive(Clone, Copy, Debug, PartialEq, Eq, Structural)]
pub enum DmaPriority {
    Priority0,
    Priority1,
    Priority2,
    Priority3,
    Priority4,
    Priority5,
    Priority6,
    Priority7,
    Priority8,
    Priority9,
}

impl DmaPriority {
    pub open spec fn spec_value(&self) -> u8 {
        match self {
            DmaPriority::Priority0 => 0,
            DmaPriority::Priority1 => 1,
            DmaPriority::Priority2 => 2,
            DmaPriority::Priority3 => 3,
            DmaPriority::Priority4 => 4,
            DmaPriority::Priority5 => 5,
            DmaPriority::Priority6 => 6,
            DmaPriority::Priority7 => 7,
            DmaPriority::Priority8 => 8,
            DmaPriority::Priority9 => 9,
        }
    }

    /// The ordinal that the priority register holds.
    pub fn value(&self) -> (r: u8)
        ensures
            r == self.spec_value(),
            r <= 9,
    {
        match self {
            DmaPriority::Priority0 => 0,
            DmaPriority::Priority1 => 1,
            DmaPriority::Priority2 => 2,
            DmaPriority::Priority3 => 3,
            DmaPriority::Priority4 => 4,
            DmaPriority::Priority5 => 5,
            DmaPriority::Priority6 => 6,
            DmaPriority::Priority7 => 7,
            DmaPriority::Priority8 => 8,
            DmaPriority::Priority9 => 9,
        }
    }
}

/// Why a transfer request was refused.
#[derive(Clone, Copy, Debug, PartialEq, Eq, Structural)]
pub enum DmaError {
    /// The descriptor chain is empty.
    EmptyDescriptors,
    /// The request does not fit the channel's state: `configure` before the
    /// previous transfer was acknowledged, or `start` without `configure`.
    Sequence,
    /// A DMA engine was already brought up over this clock control.
    EngineInUse,
}

/// Where one direction stands in its transfer cycle.
#[derive(Clone, Copy, Debug, PartialEq, Eq, Structural)]
pub enum TransferState {
    /// Ready for `configure`.
    Idle,
    /// Descriptors programmed, ready for `start`.
    Configured,
    /// Started; the hardware walks the chain.
    Running,
    /// A poll saw the transfer complete; waiting for `acknowledge`.
    Complete,
}

/// Whether the hardware may be walking the chain: started and not yet
/// acknowledged.
pub open spec fn in_flight(state: TransferState) -> bool {
    state == TransferState::Running || state == TransferState::Complete
}

/// The words of a direction after bring-up: burst mode and priority written,
/// then, for a non-empty chain, a reset pulse and the chain's base address.
pub open spec fn brought_up(
    r: DirectionRegisters,
    l: RegisterLayout,
    burst_mode: bool,
    priority: DmaPriority,
    chain: Seq<u32>,
) -> DirectionRegisters {
    let set = priority_applied(burst_applied(r, l, burst_mode), priority.spec_value());
    if chain.len() > 0 {
        base_applied(reset_pulsed(set, l), chain[0])
    } else {
        set
    }
}

/// One direction of a channel, bound to the descriptor chain it was created
/// with. The chain is borrowed exclusively for the channel's whole life, so the
/// caller cannot change or free it while a transfer may be in flight.
pub struct TransferChannel<'a> {
    port: RegisterPort,
    descriptors: &'a mut [u32],
    burst_mode: bool,
    priority: DmaPriority,
    state: TransferState,
}

impl<'a> TransferChannel<'a> {
    pub closed spec fn port(&self) -> RegisterPort {
        self.port
    }

    /// The descriptor chain: the addresses of its records, in order.
    pub closed spec fn chain(&self) -> Seq<u32> {
        self.descriptors@
    }

    pub closed spec fn spec_burst_mode(&self) -> bool {
        self.burst_mode
    }

    pub closed spec fn spec_priority(&self) -> DmaPriority {
        self.priority
    }

    pub closed spec fn spec_state(&self) -> TransferState {
        self.state
    }

    /// The register words of this direction.
    pub open spec fn regs(&self) -> DirectionRegisters {
        self.port().regs()
    }

    pub open spec fn layout(&self) -> RegisterLayout {
        self.port().layout()
    }

    /// The registers hold the burst mode and priority the channel was made with.
    pub open spec fn wf(&self) -> bool {
        &&& self.port().wf()
        &&& burst_is(self.regs(), self.layout(), self.spec_burst_mode())
        &&& priority_of(self.regs()) == self.spec_priority().spec_value() as u32
        &&& !in_flight(self.spec_state()) ==> {
            &&& !done_of(self.regs(), self.layout())
            &&& !descriptor_error_of(self.regs(), self.layout())
        }
    }

    /// What every operation keeps: the port, the chain, burst mode and priority.
    pub open spec fn keeps_settings(&self, other: &TransferChannel<'a>) -> bool {
        &&& same_port(self.port(), other.port())
        &&& self.chain() == other.chain()
        &&& self.spec_burst_mode() == other.spec_burst_mode()
        &&& self.spec_priority() == other.spec_priority()
    }

    /// Brings the direction up: port initialisation, burst mode, then priority;
    /// for a non-empty chain, a reset pulse and the chain's base address.
    pub(crate) fn init(
        port: RegisterPort,
        descriptors: &'a mut [u32],
        burst_mode: bool,
        priority: DmaPriority,
    ) -> (r: TransferChannel<'a>)
        requires
            port.wf(),
            !done_of(port.regs(), port.layout()),
            !descriptor_error_of(port.regs(), port.layout()),
        ensures
            r.wf(),
            same_port(r.port(), port),
            r.regs() == brought_up(port.regs(), port.layout(), burst_mode, priority, old(descriptors)@),
            r.chain() == old(descriptors)@,
            r.spec_burst_mode() == burst_mode,
            r.spec_priority() == priority,
            r.spec_state() == TransferState::Idle,
    {
        let ghost c0 = port.regs().conf0;
        let ghost l = port.layout();
        let mut port = port;
        port.init();
        port.set_burst_mode(burst_mode);
        let p = priority.value();
        port.set_priority(p);
        proof {
            let c1 = with_bit_spec(c0, l.data_burst, burst_mode);
            lemma_with_bit(c0, l.data_burst, burst_mode, l.data_burst);
            lemma_with_bit(c1, l.dscr_burst, burst_mode, l.data_burst);
            lemma_with_bit(c1, l.dscr_burst, burst_mode, l.dscr_burst);
            lemma_priority_fits(p as u32);
        }
        if descriptors.len() > 0 {
            proof {
                lemma_reset_keeps_burst(port.regs(), l, burst_mode);
            }
            port.reset();
            port.set_descriptor_base(descriptors[0]);
        }
        TransferChannel { port, descriptors, burst_mode, priority, state: TransferState::Idle }
    }

    /// Programs the descriptor chain for the next transfer: resets the
    /// direction, then writes the chain's base address. Refused, with no
    /// register written, when the chain is empty or the previous transfer was
    /// not acknowledged.
    pub fn configure(&mut self) -> (r: Result<(), DmaError>)
        requires
            old(self).wf(),
        ensures
            final(self).wf(),
            final(self).keeps_settings(old(self)),
            old(self).chain().len() == 0 ==> r == Err::<(), DmaError>(DmaError::EmptyDescriptors),
            old(self).chain().len() > 0 && old(self).spec_state() != TransferState::Idle ==> r
                == Err::<(), DmaError>(DmaError::Sequence),
            r is Err ==> *final(self) == *old(self),
            old(self).chain().len() > 0 && old(self).spec_state() == TransferState::Idle ==> {
                &&& r is Ok
                &&& final(self).spec_state() == TransferState::Configured
                &&& final(self).regs() == base_applied(
                    reset_pulsed(old(self).regs(), old(self).layout()),
                    old(self).chain()[0],
                )
                &&& descriptor_base_of(final(self).regs()) == old(self).chain()[0] & ADDRESS_MASK
                &&& old(self).chain()[0] <= ADDRESS_MASK ==> descriptor_base_of(final(self).regs())
                    == old(self).chain()[0]
            },
    {
        if self.descriptors.len() == 0 {
            return Err(DmaError::EmptyDescriptors);
        }
        match self.state {
            TransferState::Idle => {},
            _ => {
                return Err(DmaError::Sequence);
            },
        }
        proof {
            lemma_reset_keeps_burst(self.regs(), self.layout(), self.burst_mode);
        }
        self.port.reset();
        self.port.set_descriptor_base(self.descriptors[0]);
        self.state = TransferState::Configured;
        proof {
            lemma_field_read(old(self).regs().link, ADDRESS_MASK, self.descriptors[0]);
            if self.descriptors[0] <= ADDRESS_MASK {
                lemma_fits_mask(self.descriptors[0], ADDRESS_MASK);
            }
        }
        Ok(())
    }

    /// Binds the direction to `peripheral` and starts walking the chain.
    /// Refused, with no register written, unless the direction is configured.
    pub fn start(&mut self, peripheral: u8) -> (r: Result<(), DmaError>)
        requires
            old(self).wf(),
        ensures
            final(self).wf(),
            final(self).keeps_settings(old(self)),
            old(self).spec_state() != TransferState::Configured ==> r == Err::<(), DmaError>(
                DmaError::Sequence,
            ),
            r is Err ==> *final(self) == *old(self),
            old(self).spec_state() == TransferState::Configured ==> {
                &&& r is Ok
                &&& final(self).spec_state() == TransferState::Running
                &&& final(self).regs() == started(
                    peripheral_applied(old(self).regs(), peripheral),
                    old(self).layout(),
                )
                &&& peripheral_of(final(self).regs()) == peripheral as u32 & PERIPHERAL_MASK
                &&& peripheral < 64 ==> peripheral_of(final(self).regs()) == peripheral as u32
                &&& !done_of(final(self).regs(), final(self).layout())
                &&& !descriptor_error_of(final(self).regs(), final(self).layout())
            },
    {
        match self.state {
            TransferState::Configured => {},
            _ => {
                return Err(DmaError::Sequence);
            },
        }
        self.port.set_peripheral_select(peripheral);
        self.port.start();
        self.state = TransferState::Running;
        proof {
            lemma_field_read(old(self).regs().peri_sel, PERIPHERAL_MASK, peripheral as u32);
            if peripheral < 64 {
                lemma_fits_mask(peripheral as u32, PERIPHERAL_MASK);
            }
        }
        Ok(())
    }

    /// Reads the completion and descriptor-error flags, in that order. A
    /// running transfer seen complete moves to `Complete`.
    pub fn poll(&mut self) -> (r: (bool, bool))
        requires
            old(self).wf(),
        ensures
            final(self).wf(),
            final(self).keeps_settings(old(self)),
            final(self).regs() == old(self).regs(),
            r == (done_of(old(self).regs(), old(self).layout()), descriptor_error_of(
                old(self).regs(),
                old(self).layout(),
            )),
            final(self).spec_state() == if old(self).spec_state() == TransferState::Running && r.0 {
                TransferState::Complete
            } else {
                old(self).spec_state()
            },
    {
        let done = self.port.is_done();
        let error = self.port.has_descriptor_error();
        if done {
            match self.state {
                TransferState::Running => {
                    self.state = TransferState::Complete;
                },
                _ => {},
            }
        }
        (done, error)
    }

    /// Clears every status flag and returns the direction to `Idle`, ready for
    /// the next `configure`.
    pub fn acknowledge(&mut self)
        requires
            old(self).wf(),
        ensures
            final(self).wf(),
            final(self).keeps_settings(old(self)),
            final(self).regs() == interrupts_cleared(old(self).regs(), old(self).layout()),
            final(self).spec_state() == TransferState::Idle,
            !done_of(final(self).regs(), final(self).layout()),
            !descriptor_error_of(final(self).regs(), final(self).layout()),
    {
        self.port.clear_interrupts();
        self.state = TransferState::Idle;
        proof {
            lemma_cleared_flags(old(self).regs(), self.layout());
        }
    }

    /// Whether the whole chain has been transferred.
    pub fn is_done(&self) -> (r: bool)
        requires
            self.wf(),
        ensures
            r == done_of(self.regs(), self.layout()),
    {
        self.port.is_done()
    }

    /// Whether the hardware met a bad descriptor.
    pub fn has_descriptor_error(&self) -> (r: bool)
        requires
            self.wf(),
        ensures
            r == descriptor_error_of(self.regs(), self.layout()),
    {
        self.port.has_descriptor_error()
    }

    /// Delivers the hardware's total-end-of-frame event to this direction. The
    /// hardware raises it only while it walks a started chain: on an idle or
    /// merely configured direction nothing happens.
    pub fn signal_total_eof(&mut self)
        requires
            old(self).wf(),
        ensures
            final(self).wf(),
            in_flight(old(self).spec_state()) ==> {
                &&& final(self).keeps_settings(old(self))
                &&& final(self).spec_state() == old(self).spec_state()
                &&& final(self).regs() == total_eof_signalled(old(self).regs(), old(self).layout())
            },
            !in_flight(old(self).spec_state()) ==> *final(self) == *old(self),
    {
        if self.is_in_flight() {
            self.port.signal_total_eof();
        }
    }

    /// Delivers the hardware's descriptor-error event to this direction; as
    /// with completion, only while a started chain is being walked.
    pub fn signal_descriptor_error(&mut self)
        requires
            old(self).wf(),
        ensures
            final(self).wf(),
            in_flight(old(self).spec_state()) ==> {
                &&& final(self).keeps_settings(old(self))
                &&& final(self).spec_state() == old(self).spec_state()
                &&& final(self).regs() == descriptor_error_signalled(
                    old(self).regs(),
                    old(self).layout(),
                )
            },
            !in_flight(old(self).spec_state()) ==> *final(self) == *old(self),
    {
        if self.is_in_flight() {
            self.port.signal_descriptor_error();
        }
    }

    fn is_in_flight(&self) -> (r: bool)
        ensures
            r == in_flight(self.spec_state()),
    {
        match self.state {
            TransferState::Running | TransferState::Complete => true,
            TransferState::Idle | TransferState::Configured => false,
        }
    }

    pub fn burst_mode(&self) -> (r: bool)
        ensures
            r == self.spec_burst_mode(),
    {
        self.burst_mode
    }

    pub fn priority(&self) -> (r: DmaPriority)
        ensures
            r == self.spec_priority(),
    {
        self.priority
    }

    pub fn state(&self) -> (r: TransferState)
        ensures
            r == self.spec_state(),
    {
        self.state
    }

    pub fn direction(&self) -> (r: Direction)
        ensures
            r == self.port().dir(),
    {
        self.port.direction()
    }

    pub fn channel_index(&self) -> (r: u8)
        ensures
            r == self.port().index(),
    {
        self.port.channel_index()
    }

    /// A copy of this direction's register words.
    pub fn registers(&self) -> (r: DirectionRegisters)
        ensures
            r == self.regs(),
    {
        self.port.registers()
    }
}

/// A reset pulse leaves the burst enables as they were.
proof fn lemma_reset_keeps_burst(r: DirectionRegisters, l: RegisterLayout, on: bool)
    requires
        l.wf(),
        burst_is(r, l, on),
    ensures
        burst_is(reset_pulsed(r, l), l, on),
{
    let c1 = with_bit_spec(r.conf0, l.rst, true);
    lemma_with_bit(r.conf0, l.rst, true, l.data_burst);
    lemma_with_bit(r.conf0, l.rst, true, l.dscr_burst);
    lemma_with_bit(c1, l.rst, false, l.data_burst);
    lemma_with_bit(c1, l.rst, false, l.dscr_burst);
}

/// After the status flags are cleared neither completion nor error reads set.
pub proof fn lemma_cleared_flags(r: DirectionRegisters, l: RegisterLayout)
    requires
        l.wf(),
    ensures
        !done_of(interrupts_cleared(r, l), l),
        !descriptor_error_of(interrupts_cleared(r, l), l),
{
    lemma_clear_mask(r.int_raw, l.clear_mask, l.done_flag);
    lemma_clear_mask(r.int_raw, l.clear_mask, l.dscr_err_flag);
}

/// Peripheral families that a driver may bind a channel to.
#[derive(Clone, Copy, Debug, PartialEq, Eq, Structural)]
pub enum PeripheralKind {
    Spi,
    Spi2,
}

/// Whether channel `index` of `variant` may drive peripherals of `kind`.
/// Every channel of the general-purpose engine serves every peripheral; the
/// variants without it have no such channels.
pub open spec fn channel_accepts(variant: ChipVariant, index: u8, kind: PeripheralKind) -> bool {
    has_gdma(variant)
}

/// The set of peripherals a channel may be bound to.
#[derive(Clone, Copy, Debug, PartialEq, Eq, Structural)]
pub struct SuitablePeripheral {
    variant: ChipVariant,
    index: u8,
}

impl SuitablePeripheral {
    pub closed spec fn variant(&self) -> ChipVariant {
        self.variant
    }

    pub closed spec fn index(&self) -> u8 {
        self.index
    }

    /// Checked by a driver before it binds the channel to a peripheral of `kind`.
    pub fn accepts(&self, kind: PeripheralKind) -> (r: bool)
        ensures
            r == channel_accepts(self.variant(), self.index(), kind),
    {
        match self.variant {
            ChipVariant::Esp32c3 | ChipVariant::Esp32s3 => true,
            ChipVariant::Esp32 | ChipVariant::Esp32s2 => false,
        }
    }
}

/// A live channel: a transmit and a receive direction sharing burst mode and
/// priority, and the peripherals it may drive.
pub struct Channel<'a> {
    pub tx: TransferChannel<'a>,
    pub rx: TransferChannel<'a>,
    pub peripherals: SuitablePeripheral,
}

/// The one-shot factory for one physical channel. Only the engine makes
/// creators, one per channel, and `configure` consumes it.
pub struct ChannelCreator {
    variant: ChipVariant,
    index: u8,
    out_regs: DirectionRegisters,
    in_regs: DirectionRegisters,
}

impl ChannelCreator {
    pub closed spec fn variant(&self) -> ChipVariant {
        self.variant
    }

    pub closed spec fn index(&self) -> u8 {
        self.index
    }

    /// The register words of direction `dir` of this channel.
    pub closed spec fn regs(&self, dir: Direction) -> DirectionRegisters {
        match dir {
            Direction::Out => self.out_regs,
            Direction::In => self.in_regs,
        }
    }

    /// A creator on a variant with the general-purpose engine, whose
    /// registers show no completion or error.
    pub open spec fn wf(&self) -> bool {
        &&& has_gdma(self.variant())
        &&& forall|dir: Direction| {
            let l = #[trigger] register_layout(self.variant(), dir);
            !done_of(self.regs(dir), l) && !descriptor_error_of(self.regs(dir), l)
        }
    }

    /// The creator of channel `index` over registers at their reset values.
    pub(crate) fn after_reset(variant: ChipVariant, index: u8) -> (r: ChannelCreator)
        requires
            has_gdma(variant),
        ensures
            r.wf(),
            r.variant() == variant,
            r.index() == index,
            r.regs(Direction::Out) == reset_registers(),
            r.regs(Direction::In) == reset_registers(),
    {
        let r = ChannelCreator {
            variant,
            index,
            out_regs: DirectionRegisters::reset_value(),
            in_regs: DirectionRegisters::reset_value(),
        };
        assert forall|dir: Direction| {
            let l = #[trigger] register_layout(variant, dir);
            !done_of(r.regs(dir), l) && !descriptor_error_of(r.regs(dir), l)
        } by {
            let l = register_layout(variant, dir);
            assert(r.regs(dir) == reset_registers()) by {
                match dir {
                    Direction::Out => {},
                    Direction::In => {},
                }
            }
            lemma_zero_has_no_bits(l.done_flag);
            lemma_zero_has_no_bits(l.dscr_err_flag);
        }
        r
    }

    pub fn channel_index(&self) -> (r: u8)
        ensures
            r == self.index(),
    {
        self.index
    }

    /// Whether the transfer-complete flag of direction `dir` reads set.
    pub fn is_done(&self, dir: Direction) -> (r: bool)
        requires
            self.wf(),
        ensures
            r == done_of(self.regs(dir), register_layout(self.variant(), dir)),
    {
        let port = RegisterPort::new(self.variant, self.index, dir, self.registers(dir));
        port.is_done()
    }

    /// Whether the descriptor-error flag of direction `dir` reads set.
    pub fn has_descriptor_error(&self, dir: Direction) -> (r: bool)
        requires
            self.wf(),
        ensures
            r == descriptor_error_of(self.regs(dir), register_layout(self.variant(), dir)),
    {
        let port = RegisterPort::new(self.variant, self.index, dir, self.registers(dir));
        port.has_descriptor_error()
    }

    fn registers(&self, dir: Direction) -> (r: DirectionRegisters)
        ensures
            r == self.regs(dir),
    {
        match dir {
            Direction::Out => self.out_regs,
            Direction::In => self.in_regs,
        }
    }

    /// Turns the creator into a live channel over the given descriptor chains:
    /// both directions are brought up with the same burst mode and priority,
    /// and each with a non-empty chain has its base address programmed.
    pub fn configure<'a>(
        self,
        burst_mode: bool,
        tx_descriptors: &'a mut [u32],
        rx_descriptors: &'a mut [u32],
        priority: DmaPriority,
    ) -> (r: Channel<'a>)
        requires
            self.wf(),
        ensures
            r.tx.wf(),
            r.rx.wf(),
            r.tx.port().variant() == self.variant(),
            r.rx.port().variant() == self.variant(),
            r.tx.port().index() == self.index(),
            r.rx.port().index() == self.index(),
            r.tx.port().dir() == Direction::Out,
            r.rx.port().dir() == Direction::In,
            r.tx.regs() == brought_up(
                self.regs(Direction::Out),
                r.tx.layout(),
                burst_mode,
                priority,
                old(tx_descriptors)@,
            ),
            r.rx.regs() == brought_up(
                self.regs(Direction::In),
                r.rx.layout(),
                burst_mode,
                priority,
                old(rx_descriptors)@,
            ),
            old(tx_descriptors)@.len() > 0 ==> descriptor_base_of(r.tx.regs())
                == old(tx_descriptors)@[0] & ADDRESS_MASK,
            old(rx_descriptors)@.len() > 0 ==> descriptor_base_of(r.rx.regs())
                == old(rx_descriptors)@[0] & ADDRESS_MASK,
            old(tx_descriptors)@.len() > 0 && old(tx_descriptors)@[0] <= ADDRESS_MASK
                ==> descriptor_base_of(r.tx.regs()) == old(tx_descriptors)@[0],
            old(rx_descriptors)@.len() > 0 && old(rx_descriptors)@[0] <= ADDRESS_MASK
                ==> descriptor_base_of(r.rx.regs()) == old(rx_descriptors)@[0],
            r.tx.chain() == old(tx_descriptors)@,
            r.rx.chain() == old(rx_descriptors)@,
            r.tx.spec_burst_mode() == burst_mode,
            r.rx.spec_burst_mode() == burst_mode,
            r.tx.spec_priority() == priority,
            r.rx.spec_priority() == priority,
            r.tx.spec_state() == TransferState::Idle,
            r.rx.spec_state() == TransferState::Idle,
            r.peripherals.index() == self.index(),
    {
        proof {
            let lo = register_layout(self.variant, Direction::Out);
            let li = register_layout(self.variant, Direction::In);
            if tx_descriptors@.len() > 0 {
                lemma_field_read(
                    reset_pulsed(
                        priority_applied(burst_applied(self.out_regs, lo, burst_mode), priority.spec_value()),
                        lo,
                    ).link,
                    ADDRESS_MASK,
                    tx_descriptors@[0],
                );
                if tx_descriptors@[0] <= ADDRESS_MASK {
                    lemma_fits_mask(tx_descriptors@[0], ADDRESS_MASK);
                }
            }
            if rx_descriptors@.len() > 0 {
                lemma_field_read(
                    reset_pulsed(
                        priority_applied(burst_applied(self.in_regs, li, burst_mode), priority.spec_value()),
                        li,
                    ).link,
                    ADDRESS_MASK,
                    rx_descriptors@[0],
                );
                if rx_descriptors@[0] <= ADDRESS_MASK {
                    lemma_fits_mask(rx_descriptors@[0], ADDRESS_MASK);
                }
            }
        }
        let tx_port = RegisterPort::new(self.variant, self.index, Direction::Out, self.out_regs);
        let tx = TransferChannel::init(tx_port, tx_descriptors, burst_mode, priority);
        let rx_port = RegisterPort::new(self.variant, self.index, Direction::In, self.in_regs);
        let rx = TransferChannel::init(rx_port, rx_descriptors, burst_mode, priority);
        Channel { tx, rx, peripherals: SuitablePeripheral { variant: self.variant, index: self.index } }
    }
}

/// Once a direction is configured from a clean state and started, it reads
/// complete only after the total-end-of-frame event arrives, and reads clean
/// again once the transfer is acknowledged.
pub proof fn lemma_completion_follows_total_eof(
    r: DirectionRegisters,
    l: RegisterLayout,
    base: u32,
    peripheral: u8,
)
    requires
        l.wf(),
        !done_of(r, l),
    ensures
        ({
            let running = started(peripheral_applied(base_applied(reset_pulsed(r, l), base), peripheral), l);
            &&& !done_of(running, l)
            &&& done_of(total_eof_signalled(running, l), l)
            &&& !done_of(interrupts_cleared(total_eof_signalled(running, l), l), l)
        }),
{
    let running = started(peripheral_applied(base_applied(reset_pulsed(r, l), base), peripheral), l);
    lemma_with_bit(running.int_raw, l.done_flag, true, l.done_flag);
    lemma_cleared_flags(total_eof_signalled(running, l), l);
}

/// Burst mode and priority given when a direction was made are what its
/// registers show at every later point of its life: every operation keeps
/// them.
pub proof fn lemma_settings_observable(made: &TransferChannel, later: &TransferChannel)
    requires
        made.wf(),
        later.wf(),
        later.keeps_settings(made),
    ensures
        burst_of(later.regs(), later.layout()) == made.spec_burst_mode(),
        priority_of(later.regs()) == made.spec_priority().spec_value() as u32,
{
}

} // verus!
