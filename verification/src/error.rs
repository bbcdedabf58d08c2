//! What can go wrong in the device.

use vstd::prelude::*;

verus! {

/// The ways an access or a transfer fails. None of them ends the process.
#[derive(Clone, Copy, Debug, PartialEq, Eq, Structural)]
pub enum VirtioNetError {
    /// A register access outside the register table, of the wrong width,
    /// or one the device state does not admit. The access changes nothing.
    RegisterError,
    /// A chain that is empty or opens with a buffer shorter than the frame
    /// header. The chain is skipped and no used entry is posted.
    MalformedChain,
    /// A received frame longer than its chain; the excess was dropped.
    OversizedFrame,
    /// A ring or buffer access outside mapped guest memory.
    GuestMemoryFault,
    /// The host network interface refused a frame.
    HostIoError,
}

impl VirtioNetError {
    /// A short text for logs.
    pub fn message(&self) -> (text: String)
        ensures
            text@ == "virtio net error"@,
    {
        "virtio net error".to_string()
    }
}

} // verus!
