//! The decoder capability contract and the decoding context.
//!
//! Every concrete codec implements [`Decoder`], a strict state machine:
//! `Fresh` (just constructed) moves to `Configured` through `configure`,
//! `flush` moves `Configured` to `Draining`, and the `EndOfStream` signal of
//! `receive_frame` moves `Draining` back to `Configured`, ready for the next
//! segment. A [`Context`] owns exactly one live decoder and forwards every
//! host call to it verbatim, so the host holds one concrete type regardless
//! of which codec is active.

use vstd::prelude::*;

use crate::data::{frames_sorted, ArcFrame, Frame, Packet};
use crate::error::Error;

verus! {

/// The phase of a decoder's lifecycle.
#[derive(Clone, Copy, Debug, PartialEq, Eq, Structural)]
pub enum DecoderState {
    /// Just constructed: extradata may still be installed, `configure` has
    /// not succeeded yet.
    Fresh,
    /// Ready to accept packets and hand out frames.
    Configured,
    /// No more input: buffered frames are being emptied out.
    Draining,
}

/// Codec descriptor.
///
/// Contains information on a codec and its own decoder. A descriptor is a
/// cheap, read-only value created once by the component that defines a codec
/// and never mutated afterwards.
#[derive(Clone, Copy, Debug, PartialEq, Eq)]
pub struct Descr {
    /// The codec name.
    pub codec: &'static str,
    /// The extended codec name.
    pub name: &'static str,
    /// The codec description.
    pub desc: &'static str,
    /// The codec MIME.
    pub mime: &'static str,
}

/// Used to interact with a decoder.
///
/// The spec functions expose the abstract state every implementation must
/// maintain: its lifecycle phase, the extradata it holds, whether that
/// extradata satisfies the codec's own configuration requirement, and the
/// frames that are decoded and ready, in presentation order. `inv` is the
/// implementation's internal invariant; `inv_ready` obliges it to keep the
/// ready frames in non-decreasing presentation-time order and a fresh
/// decoder empty-handed.
pub trait Decoder: Send + Sync + Sized {
    /// The type of the auxiliary value this decoder can publish through
    /// `Context::save_data`.
    type Data;

    /// The lifecycle phase the decoder is in.
    spec fn state(&self) -> DecoderState;

    /// The extradata installed so far, if any.
    spec fn extradata(&self) -> Option<Seq<u8>>;

    /// Whether the installed extradata satisfies this codec's configuration
    /// requirement.
    spec fn extradata_valid(&self) -> bool;

    /// The decoded frames ready to be handed out, in presentation order.
    spec fn ready(&self) -> Seq<Frame>;

    /// Whether the decoder's internal buffering capacity is exhausted, so
    /// that the next packet would be declined with `BufferFull`.
    spec fn full(&self) -> bool;

    /// Whether the packet's content satisfies this codec's bitstream rules;
    /// a packet that does not is declined with `InvalidData`.
    spec fn accepts(&self, pkt: Packet) -> bool;

    /// The frames an absorbed packet makes ready, in the order they are
    /// appended after the frames already buffered.
    spec fn decoded(&self, pkt: Packet) -> Seq<Frame>;

    /// The implementation's internal invariant.
    spec fn inv(&self) -> bool;

    /// The invariant keeps ready frames ordered by presentation time and a
    /// fresh decoder without buffered output.
    proof fn inv_ready(&self)
        requires
            self.inv(),
        ensures
            frames_sorted(self.ready()),
            self.state() == DecoderState::Fresh ==> self.ready() == Seq::<Frame>::empty(),
    ;

    /// Saves the extra data contained in a codec.
    ///
    /// Valid while no drain is in progress; it never disturbs frames that
    /// are already buffered.
    fn set_extradata(&mut self, extra: &[u8])
        requires
            old(self).inv(),
            old(self).state() != DecoderState::Draining,
        ensures
            final(self).inv(),
            final(self).state() == old(self).state(),
            final(self).extradata() == Some(extra@),
            final(self).ready() == old(self).ready(),
    ;

    /// Configures the decoder.
    ///
    /// From `Fresh`, succeeds exactly when the installed extradata satisfies
    /// the codec's requirement, and moves to `Configured`. A second call on
    /// the same instance always reports `ConfigurationError` and changes
    /// nothing: a decoder is configured once per construction.
    fn configure(&mut self) -> (r: Result<(), Error>)
        requires
            old(self).inv(),
        ensures
            final(self).inv(),
            final(self).extradata() == old(self).extradata(),
            final(self).extradata_valid() == old(self).extradata_valid(),
            final(self).ready() == old(self).ready(),
            old(self).state() == DecoderState::Fresh && old(self).extradata_valid() ==> r == Ok::<
                (),
                Error,
            >(()) && final(self).state() == DecoderState::Configured,
            old(self).state() == DecoderState::Fresh && !old(self).extradata_valid() ==> r
                == Err::<(), Error>(Error::ConfigurationError) && final(self).state()
                == DecoderState::Fresh,
            old(self).state() != DecoderState::Fresh ==> r == Err::<(), Error>(
                Error::ConfigurationError,
            ) && final(self).state() == old(self).state(),
    ;

    /// Sends to the decoder a packet to be decoded.
    ///
    /// Valid only in `Configured`. `BufferFull` comes exactly when the
    /// decoder's buffering capacity is exhausted, declining the packet
    /// without consuming it, so that the caller can drain output and retry.
    /// With room, a packet violating the codec's bitstream rules yields
    /// `InvalidData`, and an acceptable one is absorbed: the call returns
    /// `Ok` and appends exactly the frames the packet decodes into after
    /// the frames already buffered. No other outcome exists, and no outcome
    /// disturbs frames already buffered.
    fn send_packet(&mut self, pkt: &Packet) -> (r: Result<(), Error>)
        requires
            old(self).inv(),
            old(self).state() == DecoderState::Configured,
        ensures
            final(self).inv(),
            final(self).state() == DecoderState::Configured,
            final(self).extradata() == old(self).extradata(),
            final(self).extradata_valid() == old(self).extradata_valid(),
            r == Ok::<(), Error>(()) || r == Err::<(), Error>(Error::BufferFull) || r == Err::<
                (),
                Error,
            >(Error::InvalidData),
            r == Err::<(), Error>(Error::BufferFull) <==> old(self).full(),
            !old(self).full() && !old(self).accepts(*pkt) ==> r == Err::<(), Error>(
                Error::InvalidData,
            ),
            !old(self).full() && old(self).accepts(*pkt) ==> r == Ok::<(), Error>(()) && final(self).ready() == old(self).ready() + old(self).decoded(*pkt),
            r == Ok::<(), Error>(()) ==> old(self).ready().is_prefix_of(final(self).ready()),
            r is Err ==> final(self).ready() == old(self).ready(),
    ;

    /// Returns a decoded frame.
    ///
    /// Valid in `Configured` or `Draining`. Hands out the next ready frame
    /// in presentation order if there is one. With nothing ready it reports
    /// `NeedsMoreInput` while configured — never a frame — and, while
    /// draining, `EndOfStream` exactly once, returning to `Configured` for
    /// the next segment.
    fn receive_frame(&mut self) -> (r: Result<ArcFrame, Error>)
        requires
            old(self).inv(),
            old(self).state() == DecoderState::Configured || old(self).state()
                == DecoderState::Draining,
        ensures
            final(self).inv(),
            final(self).extradata() == old(self).extradata(),
            final(self).extradata_valid() == old(self).extradata_valid(),
            old(self).ready().len() > 0 ==> (r matches Ok(f) && *f == old(self).ready()[0]) && final(self).ready() == old(self).ready().drop_first() && final(self).state() == old(self).state(),
            old(self).ready().len() == 0 && old(self).state() == DecoderState::Configured ==> r
                == Err::<ArcFrame, Error>(Error::NeedsMoreInput) && final(self).ready() == old(self).ready() && final(self).state() == DecoderState::Configured,
            old(self).ready().len() == 0 && old(self).state() == DecoderState::Draining ==> r
                == Err::<ArcFrame, Error>(Error::EndOfStream) && final(self).ready() == old(self).ready() && final(self).state() == DecoderState::Configured,
    ;

    /// Tells decoder to clear its internal state.
    ///
    /// Marks no-more-input for the current segment: the decoder enters
    /// `Draining`, finalizes whatever it still held back (appending it, in
    /// order, after the frames already ready) and keeps its extradata and
    /// configuration, so that after the drain it can accept the next
    /// sequence of packets.
    fn flush(&mut self) -> (r: Result<(), Error>)
        requires
            old(self).inv(),
            old(self).state() == DecoderState::Configured,
        ensures
            final(self).inv(),
            r == Ok::<(), Error>(()),
            final(self).state() == DecoderState::Draining,
            final(self).extradata() == old(self).extradata(),
            final(self).extradata_valid() == old(self).extradata_valid(),
            old(self).ready().is_prefix_of(final(self).ready()),
    ;
}

/// Auxiliary structure to encapsulate a decoder object and
/// its additional data.
///
/// A context owns at most one live decoder and mediates every call between
/// the host and it, adding no failure of its own: a forwarded call demands a
/// decoder installed, which is the caller's obligation, and reports exactly
/// what the decoder reported.
pub struct Context<D: Decoder> {
    dec: Option<D>,
    dec_data: Option<std::sync::Arc<D::Data>>,
}

impl<D: Decoder> Context<D> {
    /// Whether a decoder is currently installed.
    pub closed spec fn decoder_installed(&self) -> bool {
        self.dec is Some
    }

    /// The installed decoder.
    pub closed spec fn decoder_view(&self) -> D
        recommends
            self.decoder_installed(),
    {
        self.dec->Some_0
    }

    /// The auxiliary decoder-produced value currently retained, if any.
    pub closed spec fn data(&self) -> Option<D::Data> {
        match self.dec_data {
            Some(a) => Some(*a),
            None => None,
        }
    }

    /// Creates a context with no decoder installed and no auxiliary data.
    pub fn new() -> (r: Self)
        ensures
            !r.decoder_installed(),
            r.data() is None,
    {
        Context { dec: None, dec_data: None }
    }

    /// Adds a decoder, replacing and tearing down whatever decoder was
    /// installed before; the retained auxiliary data is kept.
    pub fn add_decoder(&mut self, dec: D)
        ensures
            final(self).decoder_installed(),
            final(self).decoder_view() == dec,
            final(self).data() == old(self).data(),
    {
        self.dec = Some(dec);
    }

    /// Saves the extra data contained in a codec, forwarding to the
    /// installed decoder.
    pub fn set_extradata(&mut self, extra: &[u8])
        requires
            old(self).decoder_installed(),
            old(self).decoder_view().inv(),
            old(self).decoder_view().state() != DecoderState::Draining,
        ensures
            final(self).decoder_installed(),
            final(self).decoder_view().inv(),
            final(self).decoder_view().state() == old(self).decoder_view().state(),
            final(self).decoder_view().extradata() == Some(extra@),
            final(self).decoder_view().ready() == old(self).decoder_view().ready(),
            final(self).data() == old(self).data(),
    {
        match &mut self.dec {
            Some(d) => d.set_extradata(extra),
            None => {
                proof {
                    assert(false);
                }
            },
        }
    }

    /// Sends to the decoder a packet to be decoded, forwarding to the
    /// installed decoder; the outcome is exactly the decoder's: `BufferFull`
    /// exactly when its capacity is exhausted, `InvalidData` for a packet it
    /// does not accept, and otherwise `Ok` with exactly the packet's frames
    /// appended to what was buffered.
    pub fn send_packet(&mut self, pkt: &Packet) -> (r: Result<(), Error>)
        requires
            old(self).decoder_installed(),
            old(self).decoder_view().inv(),
            old(self).decoder_view().state() == DecoderState::Configured,
        ensures
            final(self).decoder_installed(),
            final(self).decoder_view().inv(),
            final(self).decoder_view().state() == DecoderState::Configured,
            final(self).decoder_view().extradata() == old(self).decoder_view().extradata(),
            final(self).decoder_view().extradata_valid() == old(self).decoder_view().extradata_valid(),
            r == Ok::<(), Error>(()) || r == Err::<(), Error>(Error::BufferFull) || r == Err::<
                (),
                Error,
            >(Error::InvalidData),
            r == Err::<(), Error>(Error::BufferFull) <==> old(self).decoder_view().full(),
            !old(self).decoder_view().full() && !old(self).decoder_view().accepts(*pkt) ==> r
                == Err::<(), Error>(Error::InvalidData),
            !old(self).decoder_view().full() && old(self).decoder_view().accepts(*pkt) ==> r
                == Ok::<(), Error>(()) && final(self).decoder_view().ready() == old(self).decoder_view().ready() + old(self).decoder_view().decoded(*pkt),
            r == Ok::<(), Error>(()) ==> old(self).decoder_view().ready().is_prefix_of(
                final(self).decoder_view().ready(),
            ),
            r is Err ==> final(self).decoder_view().ready() == old(self).decoder_view().ready(),
            final(self).data() == old(self).data(),
    {
        match &mut self.dec {
            Some(d) => d.send_packet(pkt),
            None => {
                proof {
                    assert(false);
                }
                Err(Error::ConfigurationError)
            },
        }
    }

    /// Returns a decoded frame, forwarding to the installed decoder; the
    /// outcome is exactly the decoder's.
    pub fn receive_frame(&mut self) -> (r: Result<ArcFrame, Error>)
        requires
            old(self).decoder_installed(),
            old(self).decoder_view().inv(),
            old(self).decoder_view().state() == DecoderState::Configured || old(self).decoder_view().state() == DecoderState::Draining,
        ensures
            final(self).decoder_installed(),
            final(self).decoder_view().inv(),
            final(self).decoder_view().extradata() == old(self).decoder_view().extradata(),
            final(self).decoder_view().extradata_valid() == old(self).decoder_view().extradata_valid(),
            old(self).decoder_view().ready().len() > 0 ==> (r matches Ok(f) && *f == old(self).decoder_view().ready()[0]) && final(self).decoder_view().ready() == old(self).decoder_view().ready().drop_first() && final(self).decoder_view().state() == old(self).decoder_view().state(),
            old(self).decoder_view().ready().len() == 0 && old(self).decoder_view().state()
                == DecoderState::Configured ==> r == Err::<ArcFrame, Error>(Error::NeedsMoreInput)
                && final(self).decoder_view().ready() == old(self).decoder_view().ready() && final(self).decoder_view().state() == DecoderState::Configured,
            old(self).decoder_view().ready().len() == 0 && old(self).decoder_view().state()
                == DecoderState::Draining ==> r == Err::<ArcFrame, Error>(Error::EndOfStream)
                && final(self).decoder_view().ready() == old(self).decoder_view().ready() && final(self).decoder_view().state() == DecoderState::Configured,
            final(self).data() == old(self).data(),
    {
        match &mut self.dec {
            Some(d) => d.receive_frame(),
            None => {
                proof {
                    assert(false);
                }
                Err(Error::ConfigurationError)
            },
        }
    }

    /// Configures the decoder, forwarding to the installed decoder; the
    /// outcome is exactly the decoder's.
    pub fn configure(&mut self) -> (r: Result<(), Error>)
        requires
            old(self).decoder_installed(),
            old(self).decoder_view().inv(),
        ensures
            final(self).decoder_installed(),
            final(self).decoder_view().inv(),
            final(self).decoder_view().extradata() == old(self).decoder_view().extradata(),
            final(self).decoder_view().extradata_valid() == old(self).decoder_view().extradata_valid(),
            final(self).decoder_view().ready() == old(self).decoder_view().ready(),
            old(self).decoder_view().state() == DecoderState::Fresh && old(self).decoder_view().extradata_valid() ==> r == Ok::<(), Error>(()) && final(self).decoder_view().state() == DecoderState::Configured,
            old(self).decoder_view().state() == DecoderState::Fresh && !old(self).decoder_view().extradata_valid() ==> r == Err::<(), Error>(Error::ConfigurationError)
                && final(self).decoder_view().state() == DecoderState::Fresh,
            old(self).decoder_view().state() != DecoderState::Fresh ==> r == Err::<(), Error>(
                Error::ConfigurationError,
            ) && final(self).decoder_view().state() == old(self).decoder_view().state(),
            final(self).data() == old(self).data(),
    {
        match &mut self.dec {
            Some(d) => d.configure(),
            None => {
                proof {
                    assert(false);
                }
                Err(Error::ConfigurationError)
            },
        }
    }

    /// Tells decoder to clear its internal state, forwarding to the
    /// installed decoder; the outcome is exactly the decoder's.
    pub fn flush(&mut self) -> (r: Result<(), Error>)
        requires
            old(self).decoder_installed(),
            old(self).decoder_view().inv(),
            old(self).decoder_view().state() == DecoderState::Configured,
        ensures
            final(self).decoder_installed(),
            final(self).decoder_view().inv(),
            r == Ok::<(), Error>(()),
            final(self).decoder_view().state() == DecoderState::Draining,
            final(self).decoder_view().extradata() == old(self).decoder_view().extradata(),
            final(self).decoder_view().extradata_valid() == old(self).decoder_view().extradata_valid(),
            old(self).decoder_view().ready().is_prefix_of(final(self).decoder_view().ready()),
            final(self).data() == old(self).data(),
    {
        match &mut self.dec {
            Some(d) => d.flush(),
            None => {
                proof {
                    assert(false);
                }
                Err(Error::ConfigurationError)
            },
        }
    }

    /// Stores a decoder-produced auxiliary value under shared ownership,
    /// replacing the value retained before, if any.
    pub fn save_data<S: SaveDecoderData<D::Data>>(&mut self, data: &S)
        ensures
            final(self).data() == Some(data.data()),
            final(self).decoder_installed() == old(self).decoder_installed(),
            old(self).decoder_installed() ==> final(self).decoder_view() == old(self).decoder_view(),
    {
        let value = data.get_data();
        self.store_data(value);
    }

    /// Stores an auxiliary value handed over directly, replacing the value
    /// retained before, if any; the installed decoder is untouched.
    pub fn store_data(&mut self, data: D::Data)
        ensures
            final(self).data() == Some(data),
            final(self).decoder_installed() == old(self).decoder_installed(),
            old(self).decoder_installed() ==> final(self).decoder_view() == old(self).decoder_view(),
    {
        self.dec_data = Some(std::sync::Arc::new(data));
    }

    /// Drains a flushed decoder to the end of its stream.
    ///
    /// After `flush`, repeated `receive_frame` calls yield every frame the
    /// decoder had buffered — no frame dropped, none duplicated, all in
    /// non-decreasing presentation-time order — and then `EndOfStream`
    /// exactly once. This driver loops until that signal and collects the
    /// frames; it leaves the decoder back in `Configured` with nothing
    /// pending and its extradata intact, ready for the next segment.
    pub fn drain(&mut self) -> (frames: Vec<ArcFrame>)
        requires
            old(self).decoder_installed(),
            old(self).decoder_view().inv(),
            old(self).decoder_view().state() == DecoderState::Draining,
        ensures
            final(self).decoder_installed(),
            final(self).decoder_view().inv(),
            final(self).decoder_view().state() == DecoderState::Configured,
            final(self).decoder_view().ready().len() == 0,
            final(self).decoder_view().extradata() == old(self).decoder_view().extradata(),
            final(self).data() == old(self).data(),
            frames@.len() == old(self).decoder_view().ready().len(),
            forall|k: int|
                0 <= k < frames@.len() ==> *(#[trigger] frames@[k]) == old(self).decoder_view().ready()[k],
            forall|i: int, j: int|
                #![trigger frames@[i], frames@[j]]
                0 <= i <= j < frames@.len() ==> (*frames@[i]).pts <= (*frames@[j]).pts,
    {
        let ghost orig = self.decoder_view().ready();
        let ghost orig_extra = self.decoder_view().extradata();
        let ghost orig_data = self.data();
        let mut frames: Vec<ArcFrame> = Vec::new();
        let mut done = false;
        while !done
            invariant
                self.decoder_installed(),
                self.decoder_view().inv(),
                self.decoder_view().extradata() == orig_extra,
                self.data() == orig_data,
                frames@.len() <= orig.len(),
                forall|k: int| 0 <= k < frames@.len() ==> *(#[trigger] frames@[k]) == orig[k],
                !done ==> self.decoder_view().state() == DecoderState::Draining,
                !done ==> self.decoder_view().ready() == orig.skip(frames@.len() as int),
                done ==> self.decoder_view().state() == DecoderState::Configured,
                done ==> frames@.len() == orig.len(),
                done ==> self.decoder_view().ready().len() == 0,
            decreases self.decoder_view().ready().len() + (if done {
                0int
            } else {
                1int
            }),
        {
            let ghost n = frames@.len() as int;
            match self.receive_frame() {
                Ok(f) => {
                    proof {
                        assert(orig.skip(n)[0] == orig[n]);
                        assert(orig.skip(n).drop_first() =~= orig.skip(n + 1));
                    }
                    frames.push(f);
                },
                Err(_) => {
                    proof {
                        assert(orig.skip(n).len() == 0);
                        assert(n == orig.len());
                    }
                    done = true;
                },
            }
        }
        proof {
            let d0 = old(self).decoder_view();
            d0.inv_ready();
        }
        frames
    }

    /// The auxiliary value stored by the last `save_data` call, if any,
    /// under shared ownership.
    pub fn saved_data(&self) -> (r: Option<std::sync::Arc<D::Data>>)
        ensures
            match r {
                Some(a) => self.data() == Some(*a),
                None => self.data() is None,
            },
    {
        match &self.dec_data {
            Some(a) => Some(std::sync::Arc::clone(a)),
            None => None,
        }
    }
}

/// Used to save some data contained in a decoder.
pub trait SaveDecoderData<T> {
    /// The value this source would publish.
    spec fn data(&self) -> T;

    /// Saves some data contained in a decoder into the given context.
    fn save_decoder_data<D: Decoder<Data = T>>(&self, context: &mut Context<D>)
        ensures
            final(context).data() == Some(self.data()),
            final(context).decoder_installed() == old(context).decoder_installed(),
            old(context).decoder_installed() ==> final(context).decoder_view() == old(context).decoder_view(),
    ;

    /// Hands the value out.
    fn get_data(&self) -> (r: T)
        ensures
            r == self.data(),
    ;
}

/// Used to get the descriptor of a codec and create its own decoder.
pub trait Descriptor {
    /// The concrete decoder type this descriptor can construct.
    type Dec: Decoder;

    /// The metadata this descriptor hands out.
    spec fn descr_of(&self) -> Descr;

    /// Creates a new decoder for the requested codec and installs it into
    /// the given context, replacing whatever decoder was installed before.
    ///
    /// Never fails: the context is always left holding a fresh, unconfigured
    /// decoder with no extradata and nothing buffered; configuration errors
    /// are deferred to `configure`.
    fn create(&self, context: &mut Context<Self::Dec>)
        ensures
            final(context).decoder_installed(),
            final(context).decoder_view().inv(),
            final(context).decoder_view().state() == DecoderState::Fresh,
            final(context).decoder_view().extradata() is None,
            final(context).decoder_view().ready() == Seq::<Frame>::empty(),
            final(context).data() == old(context).data(),
    ;

    /// Returns the codec descriptor.
    fn describe(&self) -> (r: &Descr)
        ensures
            *r == self.descr_of(),
    ;
}

} // verus!
