use vstd::prelude::*;

verus! {

/// The pipeline's error taxonomy.
#[derive(Clone, Copy, PartialEq, Eq, Structural, Debug)]
pub enum PipelineError {
    /// The capture device could not be opened. Fatal at startup: the
    /// pipeline must not proceed with an unopened device.
    DeviceUnavailable,
    /// The persistence sink could not open its container. Fatal at
    /// startup, same tier as an unavailable device.
    SinkOpenFailure,
    /// A read from the device failed mid-session. Fatal to the capture
    /// loop; cleanup runs exactly as on a normal shutdown so the
    /// container is still finalized.
    ReadError,
    /// The presentation consumer is gone. Treated as a signal to begin
    /// shutdown, not as a crash.
    ChannelDisconnected,
}

} // verus!
