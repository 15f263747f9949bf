//! The boundary data types exchanged with the collaborators of this core: an
//! encoded `Packet` coming in from a demuxer, and a decoded `Frame` going out
//! to a filter graph or renderer.
//!
//! Only what the decoding protocol itself reads is modelled: a packet is a
//! byte payload with timing, a frame is its media kind plus the presentation
//! timestamp that fixes the order in which frames must be emitted.

use vstd::prelude::*;

verus! {

/// Minimal description of a decoded video frame: its dimensions in pixels.
#[derive(Clone, Copy, Debug, PartialEq, Eq, Structural)]
pub struct VideoInfo {
    /// Width in pixels.
    pub width: usize,
    /// Height in pixels.
    pub height: usize,
}

/// Minimal description of a decoded audio frame: its sample layout.
#[derive(Clone, Copy, Debug, PartialEq, Eq, Structural)]
pub struct AudioInfo {
    /// Number of samples per channel.
    pub samples: usize,
    /// Sampling rate in Hz.
    pub sample_rate: usize,
}

/// The media kind of a decoded frame, with the minimal metadata a downstream
/// consumer needs.
#[derive(Clone, Copy, Debug, PartialEq, Eq, Structural)]
pub enum MediaKind {
    /// A video frame.
    Video(VideoInfo),
    /// An audio frame.
    Audio(AudioInfo),
}

/// A decoded media unit, emitted by a decoder in presentation order.
#[derive(Clone, Copy, Debug, PartialEq, Eq, Structural)]
pub struct Frame {
    /// What kind of media this frame carries.
    pub kind: MediaKind,
    /// Presentation timestamp: frames leave a decoder with non-decreasing
    /// values of this field.
    pub pts: i64,
}

/// A decoded frame under shared ownership: once returned by `receive_frame`
/// it may be referenced by several consumers at once and is never mutated.
pub type ArcFrame = std::sync::Arc<Frame>;

/// One unit of encoded data, owned by the caller of `send_packet` and only
/// borrowed by the decoder for the duration of that call.
#[derive(Clone, Debug, PartialEq, Eq)]
pub struct Packet {
    /// The encoded byte payload.
    pub data: Vec<u8>,
    /// Presentation timestamp carried by the container, if any.
    pub pts: Option<i64>,
    /// Whether the packet starts at a point the decoder can start from.
    pub is_key: bool,
}

/// Frames are in non-decreasing presentation-time order.
pub open spec fn frames_sorted(s: Seq<Frame>) -> bool {
    forall|i: int, j: int| #![trigger s[i], s[j]] 0 <= i <= j < s.len() ==> s[i].pts <= s[j].pts
}

} // verus!
