//! Core of a small x86_64 kernel bring-up path: descriptor tables,
//! identity paging, PCI enumeration with MSI routing, and the bounded
//! event queue that hands interrupt notifications to the main loop.
//!
//! Everything here is pure logic over plain values; the thin unverified
//! shell that touches the hardware (port I/O, descriptor-table loads,
//! the foreign xHCI engine) lives outside this crate and only feeds
//! values in and out.

use vstd::prelude::*;

pub mod console;
pub mod font;
pub mod frame_buffer;
pub mod graphics;
pub mod interrupt;
pub mod main_loop;
pub mod memory_manager;
pub mod memory_map;
pub mod mouse;
pub mod msi;
pub mod paging;
pub mod pci;
pub mod queue;
pub mod segment;
pub mod usb;
pub mod x86;
pub mod x86_descriptor;

verus! {

/// The error taxonomy of the bring-up path. Each variant carries the
/// fixed reason reported to the caller via [`KernelError::message`].
#[derive(Clone, Copy, Debug, PartialEq, Eq, Structural)]
pub enum KernelError {
    /// `push` on a queue whose `count` already equals its capacity.
    QueueFull,
    /// `pop` on a queue whose `count` is zero.
    QueueEmpty,
    /// The fixed-capacity device registry has no free slot left.
    RegistryFull,
    /// The capability list of the device names neither MSI nor MSI-X.
    NoMsiCapability,
    /// The device offers MSI-X only, which this core does not drive.
    MsixUnimplemented,
    /// A BAR index outside the range the header type provides.
    BarIndexOutOfRange,
    /// A handler registration on a vector whose gate is already present.
    VectorAlreadyClaimed,
    /// An MSI capability whose offset cannot hold the block: unaligned
    /// or running past the end of configuration space.
    MalformedCapabilityList,
    /// A bridge chain deeper than any real bus graph: the scan's depth
    /// budget ran out, so the graph must be malformed.
    ScanDepthExceeded,
    /// A pixel coordinate that falls outside the frame buffer.
    OutOfBuffer,
}

impl KernelError {
    /// The fixed, human-readable reason behind this error.
    pub fn message(&self) -> &'static str {
        match self {
            KernelError::QueueFull => "queue is full.",
            KernelError::QueueEmpty => "queue is empty.",
            KernelError::RegistryFull => "full",
            KernelError::NoMsiCapability => "no pci msi.",
            KernelError::MsixUnimplemented => "not implemented.",
            KernelError::BarIndexOutOfRange => "index is out of range.",
            KernelError::VectorAlreadyClaimed => "vector is already claimed.",
            KernelError::ScanDepthExceeded => "bus tree too deep.",
            KernelError::MalformedCapabilityList => "malformed capability list.",
            KernelError::OutOfBuffer => "out of buffer",
        }
    }
}

/// Result type used throughout the bring-up path.
pub type KernelResult<T> = Result<T, KernelError>;

} // verus!
