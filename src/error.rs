use vstd::prelude::*;

verus! {

/// Failures reported by the capture pipeline.
#[derive(Debug, Clone, Copy, PartialEq, Eq, Structural)]
pub enum Error {
    /// The transport to the compositor could not be established.
    ConnectionError,
    /// A required global object is not advertised by the compositor.
    MissingProtocol,
    /// None of the advertised buffer formats can be normalised.
    NoSupportedBufferFormat,
    /// Creating the shared-memory region failed; carries the OS error code.
    ShmError(i32),
    /// The compositor answered the copy request with a failure.
    CompositorRejected,
    /// The pixel bytes do not cover the declared frame dimensions, or do not
    /// make up whole 4-byte pixels.
    BufferTooSmall,
}

} // verus!
