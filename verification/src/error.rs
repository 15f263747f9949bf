//! The error taxonomy shared by the registry, the decoding context and every
//! decoder implementation.

use vstd::prelude::*;

verus! {

/// Every failure or control signal a call into this core can report.
///
/// `NeedsMoreInput` and `EndOfStream` are control signals of the
/// `receive_frame` protocol rather than hard errors; callers must be able to
/// tell them apart from genuine failures, so they are ordinary variants here.
#[derive(Clone, Copy, Debug, PartialEq, Eq, Structural)]
pub enum Error {
    /// Missing or invalid extradata, or an invalid state transition (for
    /// example `configure` called twice on the same decoder instance).
    ConfigurationError,
    /// `receive_frame` has nothing ready and the decoder is not draining:
    /// the caller should send another packet and try again.
    NeedsMoreInput,
    /// `receive_frame` found the decoder draining with no buffered frame
    /// left; the drain cycle is over.
    EndOfStream,
    /// `send_packet` declined the packet because the decoder's internal
    /// buffering capacity is exhausted; drain output first, then retry.
    BufferFull,
    /// The decoder rejected the bitstream content itself.
    InvalidData,
    /// A registry lookup found no descriptor under the requested name.
    NotFound,
}

} // verus!
