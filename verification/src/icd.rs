//! Interface control document: the types that nodes and hosts exchange.
//!
//! All timing data carries assistant-local timestamps; the host never asserts
//! timing from its own wall clock.

use vstd::prelude::*;

verus! {

/// Bumped on any breaking change to paths or schemas.
pub const PROTOCOL_VERSION: u32 = 0;

pub const NODE_IDENTIFY: &'static str = "banc/node/identify";
pub const NODE_RESET: &'static str = "banc/node/reset";
pub const GPIO_CONFIG: &'static str = "banc/assistant/gpio/config";
pub const GPIO_SET: &'static str = "banc/assistant/gpio/set";
pub const GPIO_READ: &'static str = "banc/assistant/gpio/read";
pub const PIN_MONITOR: &'static str = "banc/assistant/pin/monitor";
pub const PIN_EDGE: &'static str = "banc/assistant/pin/edge";
pub const UART_CONFIG: &'static str = "banc/assistant/uart/config";
pub const UART_TX: &'static str = "banc/assistant/uart/tx";
pub const UART_RX: &'static str = "banc/assistant/uart/rx";
pub const SPI_TRANSFER: &'static str = "banc/assistant/spi/transfer";
pub const I2C_TRANSACTION: &'static str = "banc/assistant/i2c/transaction";
pub const CAPTURE_CONTROL: &'static str = "banc/assistant/capture/control";
pub const CAPTURE_READ: &'static str = "banc/assistant/capture/read";

/// Max payload per UART/SPI/I2C transaction chunk.
pub const CHUNK: usize = 64;

/// Max pin events returned per capture-read chunk.
pub const EVENTS_PER_CHUNK: usize = 16;

/// A string of at most `N` bytes, as the wire types carry it.
#[verifier::external_type_specification]
#[verifier::external_body]
pub struct ExHeaplessString<const N: usize>(heapless::String<N>);

/// A vector of at most `N` elements, as the wire types carry it.
#[verifier::external_type_specification]
#[verifier::external_body]
#[verifier::reject_recursive_types(T)]
pub struct ExHeaplessVec<T, const N: usize>(heapless::Vec<T, N>);

/// `heapless`'s `String::clone`, which copying an identity calls. Nothing is
/// claimed of the copy.
pub assume_specification<const N: usize>[ <heapless::String<N> as std::clone::Clone>::clone ](
    s: &heapless::String<N>,
) -> heapless::String<N>
;

/// `heapless`'s `Vec::clone`, which copying a chunk calls. Nothing is claimed
/// of the copy.
pub assume_specification<T, const N: usize>[ <heapless::Vec<T, N> as std::clone::Clone>::clone ](
    v: &heapless::Vec<T, N>,
) -> heapless::Vec<T, N> where T: std::clone::Clone
;

#[derive(Debug, Clone, Copy, PartialEq, Eq, Structural)]
pub enum NodeRole {
    /// The banc reference assistant firmware.
    Assistant,
    /// A consumer-defined node (its ICD describes what it does).
    Custom,
}

/// Who a node says it is.
#[derive(Debug, Clone, PartialEq, Eq)]
pub struct Identity {
    pub role: NodeRole,
    pub protocol_version: u32,
    /// Stable per-device ID. Also surfaced as the USB serial string so hosts
    /// can route before connecting.
    pub unique_id: u64,
    pub fw_name: heapless::String<32>,
    pub fw_version: heapless::String<16>,
}

#[derive(Debug, Clone, Copy, PartialEq, Eq, Structural)]
pub enum Level {
    Low,
    High,
}

#[derive(Debug, Clone, Copy, PartialEq, Eq, Structural)]
pub enum Pull {
    Floating,
    Up,
    Down,
}

#[derive(Debug, Clone, Copy, PartialEq, Eq, Structural)]
pub enum PinMode {
    Input(Pull),
    Output,
}

#[derive(Debug, Clone, Copy, PartialEq, Eq, Structural)]
pub enum Error {
    /// Pin/bus index not wired up on this assistant.
    Unsupported,
    /// Pin/bus is claimed by another function (e.g. capture running).
    Busy,
    /// The peripheral reported a fault (NAK, framing error, overrun...).
    Hardware,
    /// Request out of range (bad length, bad offset).
    Invalid,
}

#[derive(Debug, Clone, Copy, PartialEq, Eq, Structural)]
pub struct GpioConfig {
    pub pin: u8,
    pub mode: PinMode,
}

#[derive(Debug, Clone, Copy, PartialEq, Eq, Structural)]
pub struct GpioSet {
    pub pin: u8,
    pub level: Level,
}

#[derive(Debug, Clone, Copy, PartialEq, Eq, Structural)]
pub struct GpioRead {
    pub pin: u8,
}

/// One observed edge, timestamped by the assistant's own clock (microseconds
/// since assistant boot). Best-effort: good for functional observation ("did
/// the line toggle"), not for rigorous timing.
#[derive(Debug, Clone, Copy, PartialEq, Eq, Structural)]
pub struct PinEvent {
    pub pin: u8,
    pub level: Level,
    pub timestamp_us: u64,
}

#[derive(Debug, Clone, Copy, PartialEq, Eq, Structural)]
pub struct PinMonitor {
    pub pin: u8,
    /// true: publish an event per observed edge; false: stop.
    pub enable: bool,
}

#[derive(Debug, Clone, Copy, PartialEq, Eq, Structural)]
pub struct UartConfig {
    pub baud: u32,
}

#[derive(Debug, Clone, PartialEq, Eq)]
pub struct Chunk {
    pub data: heapless::Vec<u8, CHUNK>,
}

/// UART bytes as received, stamped with the assistant-local time of the first
/// byte in the chunk.
#[derive(Debug, Clone, PartialEq, Eq)]
pub struct UartRxChunk {
    pub timestamp_us: u64,
    pub data: heapless::Vec<u8, CHUNK>,
}

#[derive(Debug, Clone, PartialEq, Eq)]
pub struct SpiTransfer {
    /// Bytes to clock out; the same number of bytes is clocked in.
    pub write: heapless::Vec<u8, CHUNK>,
}

#[derive(Debug, Clone, PartialEq, Eq)]
pub struct I2cTransaction {
    pub addr: u8,
    pub write: heapless::Vec<u8, CHUNK>,
    /// Bytes to read after the write phase (0 = write-only).
    pub read_len: u8,
}

#[derive(Debug, Clone, Copy, PartialEq, Eq, Structural)]
pub enum CaptureAction {
    /// Arm edge capture on a pin; events accumulate assistant-side.
    Start,
    /// Disarm; captured events stay retrievable until the next Start.
    Stop,
}

#[derive(Debug, Clone, Copy, PartialEq, Eq, Structural)]
pub struct CaptureControl {
    pub pin: u8,
    pub action: CaptureAction,
}

#[derive(Debug, Clone, Copy, PartialEq, Eq, Structural)]
pub struct CaptureStatus {
    /// Events currently buffered.
    pub count: u32,
    /// Events dropped because the buffer filled. Nonzero means the capture is
    /// incomplete.
    pub dropped: u32,
}

#[derive(Debug, Clone, Copy, PartialEq, Eq, Structural)]
pub struct CaptureRead {
    /// Event index to read from (chunked retrieval).
    pub offset: u32,
}

#[derive(Debug, Clone, PartialEq, Eq)]
pub struct CaptureChunk {
    pub events: heapless::Vec<PinEvent, EVENTS_PER_CHUNK>,
    /// Events remaining after this chunk.
    pub remaining: u32,
}

pub type AckResult = Result<(), Error>;
pub type LevelResult = Result<Level, Error>;
pub type ChunkResult = Result<Chunk, Error>;
pub type CaptureStatusResult = Result<CaptureStatus, Error>;
pub type CaptureChunkResult = Result<CaptureChunk, Error>;

} // verus!
