//! The messages that travel between two machines.

use vstd::prelude::*;

verus! {

/// UDP port of the input stream.
pub const INPUT_PORT: u16 = 24800;

/// Capacity of the buffer into which the server receives one datagram.
pub const DATAGRAM_CAPACITY: usize = 4096;

/// One input event captured on one machine and replayed on another.
///
/// A scroll carries its two deltas as the bit patterns of the 32-bit floats
/// that were captured, so that an event passes through the library unchanged.
#[derive(Debug, Clone, PartialEq, Eq)]
pub enum InputEvent {
    /// Relative pointer motion.
    MouseMove { x: i32, y: i32 },
    /// Pointer motion to an absolute screen position.
    MouseMoveAbsolute { x: i32, y: i32 },
    /// A mouse button went down or up; 1 is left, 2 is middle, others right.
    MouseButton { button: u8, pressed: bool },
    /// A key, by its numeric code, went down or up.
    KeyPress { key_code: u32, pressed: bool },
    /// Wheel motion; the deltas are bit patterns of 32-bit floats.
    Scroll { delta_x_bits: u32, delta_y_bits: u32 },
    /// The lock state of the controlling machine changed.
    LockState { locked: bool },
    /// A key, by its `xdotool` name, went down or up.
    KeyName { name: String, pressed: bool },
}

/// A control message between the two machines.
#[derive(Debug, Clone, PartialEq, Eq)]
pub enum ControlMessage {
    /// Introduces a machine and its screen.
    Handshake { machine_name: String, screen_width: u32, screen_height: u32 },
    /// Text that was copied on the sending machine.
    ClipboardText(String),
    /// An image that was copied on the sending machine.
    ClipboardImage { width: usize, height: usize, bytes: Vec<u8> },
    /// Opens a file transfer.
    FileStart { file_name: String, total_bytes: u64 },
    /// One piece of a file transfer.
    FileChunk { chunk_index: u64, data: Vec<u8> },
    /// Closes a file transfer.
    FileEnd,
}

/// The event that a dashboard sends to announce itself: a pointer motion by
/// nothing.
pub fn heartbeat_event() -> (e: InputEvent)
    ensures
        e == (InputEvent::MouseMove { x: 0, y: 0 }),
{
    InputEvent::MouseMove { x: 0, y: 0 }
}

} // verus!
