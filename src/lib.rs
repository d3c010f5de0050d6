//! A hardware abstraction for a multi-channel general-purpose DMA engine.
//!
//! Registers are modelled as in-memory words: every register operation is a
//! read-modify-write whose effect on the word is stated exactly, and the
//! observable facts (a flag is raised, burst mode is on) are read back from
//! those words bit by bit.

mod bits;
pub mod system;
pub mod port;
pub mod channel;
pub mod gdma;

pub use system::{
    ChipVariant, CpuControl, Dma, Peripheral, PeripheralClockControl, SystemClockControl, SystemExt,
    SystemParts, SystemPeripheral, SystemRegisters,
};
pub use port::{Direction, DirectionRegisters, RegisterLayout, RegisterPort};
pub use channel::{
    Channel, ChannelCreator, DmaError, DmaPriority, PeripheralKind, SuitablePeripheral,
    TransferChannel, TransferState,
};
pub use gdma::{DmaPeripheral, DmaRegisters, Gdma};
