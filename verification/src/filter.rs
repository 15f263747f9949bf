//! The boundary towards the filtering layer that consumes decoded frames.
//!
//! Filtering itself is a collaborator of this core, not part of it: only the
//! types exchanged at the seam are defined here, together with a blank-clip
//! source as the simplest value a filter chain can start from.

use vstd::prelude::*;

use crate::data;
use crate::error::Error;

verus! {

/// Video information for filtering.
pub struct VideoInfo {
    /// All information related to a video.
    vi: data::VideoInfo,
    /// Number of frames of a video.
    num_frames: u32,
}

impl VideoInfo {
    /// The per-frame video description.
    pub closed spec fn spec_video(&self) -> data::VideoInfo {
        self.vi
    }

    /// The number of frames.
    pub closed spec fn spec_num_frames(&self) -> u32 {
        self.num_frames
    }

    /// Bundles a per-frame description with a frame count.
    pub fn new(vi: data::VideoInfo, num_frames: u32) -> (r: Self)
        ensures
            r.spec_video() == vi,
            r.spec_num_frames() == num_frames,
    {
        VideoInfo { vi, num_frames }
    }

    /// The per-frame video description.
    pub fn video(&self) -> (r: data::VideoInfo)
        ensures
            r == self.spec_video(),
    {
        self.vi
    }

    /// The number of frames.
    pub fn num_frames(&self) -> (r: u32)
        ensures
            r == self.spec_num_frames(),
    {
        self.num_frames
    }
}

/// A video node, the unit a filter chain is assembled from.
pub struct VideoNode;

/// A mechanism to create a filter.
///
/// Implemented by the filtering collaborators of this core; what a concrete
/// filter computes is outside this core, so nothing beyond the calling
/// convention is promised here.
pub trait Filter {
    /// Creates a filter from a series of internal parameters.
    ///
    /// It returns a node ready to be assembled into a chain.
    fn create_filter(&self) -> Result<VideoNode, Error>;
}

/// A simple blank clip video.
pub struct BlankClip {
    /// The frame every position of the clip shows.
    pub frame: data::Frame,
    /// The clip's video information.
    pub vi: VideoInfo,
    /// The fill colour, one component per plane.
    pub color: [u32; 3],
    /// Whether the single frame is kept cached between uses.
    pub keep: bool,
}

impl Filter for BlankClip {
    fn create_filter(&self) -> Result<VideoNode, Error> {
        Ok(VideoNode)
    }
}

} // verus!
