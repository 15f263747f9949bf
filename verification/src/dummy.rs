//! A reference decoder: the simplest implementation honouring the full
//! [`Decoder`](crate::decoder::Decoder) contract.
//!
//! It demands extradata before `configure`, turns every non-empty packet
//! into one video frame whose dimensions reflect the extradata that was
//! installed, buffers at most [`DUMMY_CAPACITY`] frames, and stamps frames
//! with strictly increasing presentation timestamps. It exists so that the
//! protocol can be exercised end to end and so that hosts have a template
//! for codec plugins of their own.

use vstd::prelude::*;

use crate::data::{frames_sorted, ArcFrame, Frame, MediaKind, Packet, VideoInfo};
use crate::decoder::{Context, Decoder, DecoderState, Descr, Descriptor, SaveDecoderData};
use crate::error::Error;

verus! {

/// How many decoded frames the reference decoder buffers before
/// `send_packet` reports `BufferFull`.
pub const DUMMY_CAPACITY: usize = 8;

/// Extradata payloads longer than this switch the reference decoder to its
/// extended parameter set.
pub const DUMMY_EXTRADATA_THRESHOLD: usize = 4;

/// Frame dimension used once extradata longer than the threshold arrives.
pub const DUMMY_LEVEL_EXTENDED: usize = 42;

/// Frame dimension used for extradata no longer than the threshold.
pub const DUMMY_LEVEL_BASIC: usize = 12;

/// The reference decoder.
pub struct DummyDecoder {
    state: DecoderState,
    extra: Option<Vec<u8>>,
    level: usize,
    pending: Vec<Frame>,
    next_pts: i64,
}

impl DummyDecoder {
    /// The parameter set selected by the extradata installed so far: the
    /// dimension of every frame decoded from now on.
    pub closed spec fn spec_level(&self) -> usize {
        self.level
    }

    /// The presentation timestamp the next absorbed packet's frame gets.
    pub closed spec fn spec_next_pts(&self) -> i64 {
        self.next_pts
    }

    /// The installed extradata determines the parameter set: a payload
    /// longer than the threshold selects the extended set; any other — and
    /// none installed — leaves the basic one.
    pub proof fn level_determined(&self)
        requires
            self.inv(),
        ensures
            self.extradata() matches Some(e) ==> self.spec_level() == (if e.len()
                > DUMMY_EXTRADATA_THRESHOLD {
                DUMMY_LEVEL_EXTENDED
            } else {
                DUMMY_LEVEL_BASIC
            }),
            self.extradata() is None ==> self.spec_level() == DUMMY_LEVEL_BASIC,
    {
    }

    /// Reports the currently selected parameter set.
    pub fn level(&self) -> (r: usize)
        ensures
            r == self.spec_level(),
    {
        self.level
    }

    /// Creates a fresh reference decoder: unconfigured, without extradata,
    /// with nothing buffered, on its basic parameter set.
    pub fn new() -> (r: Self)
        ensures
            r.inv(),
            r.state() == DecoderState::Fresh,
            r.extradata() is None,
            r.ready() == Seq::<Frame>::empty(),
            r.spec_level() == DUMMY_LEVEL_BASIC,
    {
        let r = DummyDecoder {
            state: DecoderState::Fresh,
            extra: None,
            level: DUMMY_LEVEL_BASIC,
            pending: Vec::new(),
            next_pts: 0,
        };
        proof {
            assert(r.pending@ =~= Seq::<Frame>::empty());
        }
        r
    }
}

impl Decoder for DummyDecoder {
    type Data = VideoInfo;

    closed spec fn state(&self) -> DecoderState {
        self.state
    }

    closed spec fn extradata(&self) -> Option<Seq<u8>> {
        match self.extra {
            Some(v) => Some(v@),
            None => None,
        }
    }

    open spec fn extradata_valid(&self) -> bool {
        self.extradata() is Some
    }

    closed spec fn ready(&self) -> Seq<Frame> {
        self.pending@
    }

    open spec fn full(&self) -> bool {
        self.ready().len() >= DUMMY_CAPACITY
    }

    open spec fn accepts(&self, pkt: Packet) -> bool {
        pkt.data@.len() > 0
    }

    open spec fn decoded(&self, pkt: Packet) -> Seq<Frame> {
        seq![
            (Frame {
                kind: MediaKind::Video(
                    VideoInfo { width: self.spec_level(), height: self.spec_level() },
                ),
                pts: self.spec_next_pts(),
            }),
        ]
    }

    closed spec fn inv(&self) -> bool {
        &&& frames_sorted(self.pending@)
        &&& self.state == DecoderState::Fresh ==> self.pending@.len() == 0
        &&& forall|i: int| 0 <= i < self.pending@.len() ==> #[trigger] self.pending@[i].pts
            <= self.next_pts
        &&& match self.extra {
            Some(e) => self.level == (if e@.len() > DUMMY_EXTRADATA_THRESHOLD {
                DUMMY_LEVEL_EXTENDED
            } else {
                DUMMY_LEVEL_BASIC
            }),
            None => self.level == DUMMY_LEVEL_BASIC,
        }
    }

    proof fn inv_ready(&self) {
        if self.state == DecoderState::Fresh {
            assert(self.pending@ =~= Seq::<Frame>::empty());
        }
    }

    fn set_extradata(&mut self, extra: &[u8]) {
        self.level = if extra.len() > DUMMY_EXTRADATA_THRESHOLD {
            DUMMY_LEVEL_EXTENDED
        } else {
            DUMMY_LEVEL_BASIC
        };
        self.extra = Some(vstd::slice::slice_to_vec(extra));
    }

    fn configure(&mut self) -> (r: Result<(), Error>) {
        match self.state {
            DecoderState::Fresh => {
                if self.extra.is_some() {
                    self.state = DecoderState::Configured;
                    Ok(())
                } else {
                    Err(Error::ConfigurationError)
                }
            },
            _ => Err(Error::ConfigurationError),
        }
    }

    fn send_packet(&mut self, pkt: &Packet) -> (r: Result<(), Error>) {
        if self.pending.len() >= DUMMY_CAPACITY {
            return Err(Error::BufferFull);
        }
        if pkt.data.len() == 0 {
            return Err(Error::InvalidData);
        }
        let frame = Frame {
            kind: MediaKind::Video(VideoInfo { width: self.level, height: self.level }),
            pts: self.next_pts,
        };
        let ghost before = self.pending@;
        self.pending.push(frame);
        if self.next_pts < i64::MAX {
            self.next_pts = self.next_pts + 1;
        }
        proof {
            assert(before.is_prefix_of(self.pending@)) by {
                assert(before =~= self.pending@.subrange(0, before.len() as int));
            }
            assert(self.pending@ =~= before + old(self).decoded(*pkt));
        }
        Ok(())
    }

    fn receive_frame(&mut self) -> (r: Result<ArcFrame, Error>) {
        if self.pending.len() > 0 {
            let f = self.pending.remove(0);
            proof {
                assert(self.pending@ =~= old(self).pending@.drop_first());
            }
            Ok(std::sync::Arc::new(f))
        } else if self.state == DecoderState::Configured {
            Err(Error::NeedsMoreInput)
        } else {
            self.state = DecoderState::Configured;
            Err(Error::EndOfStream)
        }
    }

    fn flush(&mut self) -> (r: Result<(), Error>) {
        self.state = DecoderState::Draining;
        proof {
            assert(self.pending@.is_prefix_of(self.pending@)) by {
                assert(self.pending@ =~= self.pending@.subrange(0, self.pending@.len() as int));
            }
        }
        Ok(())
    }
}

impl SaveDecoderData<VideoInfo> for DummyDecoder {
    open spec fn data(&self) -> VideoInfo {
        VideoInfo { width: self.spec_level(), height: self.spec_level() }
    }

    fn save_decoder_data<D: Decoder<Data = VideoInfo>>(&self, context: &mut Context<D>) {
        let value = self.get_data();
        context.store_data(value);
    }

    fn get_data(&self) -> (r: VideoInfo) {
        VideoInfo { width: self.level, height: self.level }
    }
}

/// A decoder descriptor for the reference decoder.
pub struct DummyDescriptor {
    /// The metadata this descriptor hands out.
    pub descr: Descr,
}

impl Descriptor for DummyDescriptor {
    type Dec = DummyDecoder;

    open spec fn descr_of(&self) -> Descr {
        self.descr
    }

    fn create(&self, context: &mut Context<DummyDecoder>) {
        context.add_decoder(DummyDecoder::new());
    }

    fn describe(&self) -> (r: &Descr) {
        &self.descr
    }
}

} // verus!
