use av_codec::common::{CodecList, Codecs};
use av_codec::data::{MediaKind, Packet, VideoInfo};
use av_codec::decoder::{Context, Decoder, Descr, Descriptor, SaveDecoderData};
use av_codec::dummy::{DummyDecoder, DummyDescriptor};
use av_codec::error::Error;

fn descr(codec: &'static str, name: &'static str) -> Descr {
    Descr {
        codec,
        name,
        desc: "a test decoder",
        mime: "x-application/test",
    }
}

fn packet(bytes: Vec<u8>) -> Packet {
    Packet {
        data: bytes,
        pts: None,
        is_key: false,
    }
}

fn ready_context(extradata: &[u8]) -> Context<DummyDecoder> {
    let descriptor = DummyDescriptor {
        descr: descr("dummy", "dummy"),
    };
    let mut context: Context<DummyDecoder> = Context::new();
    descriptor.create(&mut context);
    context.set_extradata(extradata);
    assert_eq!(context.configure(), Ok(()));
    context
}

#[test]
fn data_handling() {
    let mut context: Context<DummyDecoder> = Context::new();
    assert_eq!(context.saved_data(), None);

    let decoder = DummyDecoder::new();
    decoder.save_decoder_data(&mut context);
    let saved = context.saved_data().expect("a value was saved");
    assert_eq!(
        *saved,
        VideoInfo {
            width: 12,
            height: 12
        }
    );

    context.store_data(VideoInfo {
        width: 7,
        height: 9,
    });
    let replaced = context.saved_data().expect("a value was saved");
    assert_eq!(
        *replaced,
        VideoInfo {
            width: 7,
            height: 9
        }
    );
}

#[test]
fn registry_round_trip() {
    let mut codecs = Codecs::new();
    let list = [
        descr("alpha", "first alpha"),
        descr("beta", "only beta"),
        descr("alpha", "second alpha"),
    ];
    codecs.add_list(&list);

    for d in list.iter() {
        let found = codecs.by_name(d.codec).expect("an appended name is found");
        assert_eq!(found.codec, d.codec);
    }
    // Duplicates keep registration order: the first entry under a name wins.
    assert_eq!(codecs.by_name("alpha").unwrap().name, "first alpha");
}

#[test]
fn by_name_empty_and_missing() {
    let codecs = Codecs::new();
    assert!(codecs.by_name("anything").is_none());

    let mut codecs = Codecs::new();
    codecs.append(descr("alpha", "alpha"));
    assert!(codecs.by_name("beta").is_none());
    assert_eq!(codecs.lookup("beta").err(), Some(Error::NotFound));
    assert_eq!(codecs.lookup("alpha").unwrap().codec, "alpha");
}

#[test]
fn lookup_append() {
    let mut codecs = Codecs::new();
    codecs.append(descr("dummy", "dummy"));
    codecs.append(descr("dummy1", "dummy1"));

    codecs.by_name("dummy").unwrap();
    codecs.by_name("dummy1").unwrap();
    assert!(codecs.by_name("dummy2").is_none());
    assert_eq!(codecs.lookup("dummy2").err(), Some(Error::NotFound));
}

#[test]
fn descriptor_data() {
    let descriptor = DummyDescriptor {
        descr: Descr {
            codec: "dummy",
            name: "dummy",
            desc: "dummy decoder",
            mime: "x-application/dummy",
        },
    };
    assert_eq!(
        descriptor.describe(),
        &Descr {
            codec: "dummy",
            name: "dummy",
            desc: "dummy decoder",
            mime: "x-application/dummy",
        }
    );
}

#[test]
fn receive_before_send_needs_more_input() {
    let mut context = ready_context(&[1, 2, 3]);
    assert_eq!(context.receive_frame().err(), Some(Error::NeedsMoreInput));
    // Still nothing was sent: the signal repeats and never becomes a frame.
    assert_eq!(context.receive_frame().err(), Some(Error::NeedsMoreInput));
}

#[test]
fn configure_twice_is_rejected() {
    let mut context = ready_context(&[1, 2, 3]);
    assert_eq!(context.configure(), Err(Error::ConfigurationError));
    // The decoder stays configured: packets are still accepted.
    assert_eq!(context.send_packet(&packet(vec![1])), Ok(()));
}

#[test]
fn configure_without_extradata_fails() {
    let descriptor = DummyDescriptor {
        descr: descr("dummy", "dummy"),
    };
    let mut context: Context<DummyDecoder> = Context::new();
    descriptor.create(&mut context);
    assert_eq!(context.configure(), Err(Error::ConfigurationError));
}

#[test]
fn extradata_reaches_the_decoder() {
    // Longer than the threshold of four bytes: the extended parameter set.
    let mut decoder = DummyDecoder::new();
    decoder.set_extradata(&[0, 1, 2, 3, 4]);
    assert_eq!(decoder.level(), 42);

    // At most four bytes: the basic parameter set.
    let mut decoder = DummyDecoder::new();
    decoder.set_extradata(&[0, 1, 2]);
    assert_eq!(decoder.level(), 12);

    // The same payload forwarded through a context shows in the frames.
    let mut context = ready_context(&[0, 1, 2, 3, 4]);
    assert_eq!(context.send_packet(&packet(vec![9])), Ok(()));
    let frame = context.receive_frame().unwrap();
    assert_eq!(
        frame.kind,
        MediaKind::Video(VideoInfo {
            width: 42,
            height: 42
        })
    );
}

#[test]
fn drain_cycle_emits_everything_in_order_then_eos_once() {
    let mut context = ready_context(&[1, 2, 3]);
    for _ in 0..3 {
        assert_eq!(context.send_packet(&packet(vec![1, 2])), Ok(()));
    }
    assert_eq!(context.flush(), Ok(()));

    let mut seen = 0usize;
    let mut last_pts = i64::MIN;
    loop {
        match context.receive_frame() {
            Ok(frame) => {
                assert!(frame.pts >= last_pts, "presentation order violated");
                last_pts = frame.pts;
                seen += 1;
            }
            Err(Error::EndOfStream) => break,
            Err(other) => panic!("unexpected signal while draining: {:?}", other),
        }
    }
    // One frame per packet sent: none dropped, none duplicated.
    assert_eq!(seen, 3);
    // End of stream came exactly once: the next call asks for input again.
    assert_eq!(context.receive_frame().err(), Some(Error::NeedsMoreInput));
    // The cycle ended back in the configured state: new input is accepted.
    assert_eq!(context.send_packet(&packet(vec![7])), Ok(()));
}

#[test]
fn drain_driver_collects_the_buffer() {
    let mut context = ready_context(&[1, 2, 3]);
    for _ in 0..4 {
        assert_eq!(context.send_packet(&packet(vec![5])), Ok(()));
    }
    assert_eq!(context.flush(), Ok(()));
    let frames = context.drain();
    assert_eq!(frames.len(), 4);
    for (i, frame) in frames.iter().enumerate() {
        // The reference decoder stamps consecutive timestamps from zero.
        assert_eq!(frame.pts, i as i64);
    }
    for pair in frames.windows(2) {
        assert!(pair[0].pts <= pair[1].pts);
    }
    assert_eq!(context.receive_frame().err(), Some(Error::NeedsMoreInput));
}

#[test]
fn drain_of_an_empty_buffer_is_a_bare_eos() {
    let mut context = ready_context(&[1]);
    assert_eq!(context.flush(), Ok(()));
    assert_eq!(context.receive_frame().err(), Some(Error::EndOfStream));
    assert_eq!(context.receive_frame().err(), Some(Error::NeedsMoreInput));
}

#[test]
fn send_packet_reports_buffer_full_and_recovers() {
    let mut context = ready_context(&[1, 2, 3]);
    for _ in 0..8 {
        assert_eq!(context.send_packet(&packet(vec![1])), Ok(()));
    }
    let overflow = packet(vec![1]);
    assert_eq!(context.send_packet(&overflow), Err(Error::BufferFull));
    // Draining one frame makes room for the retried packet.
    context.receive_frame().unwrap();
    assert_eq!(context.send_packet(&overflow), Ok(()));
}

#[test]
fn empty_payload_is_invalid_data() {
    let mut context = ready_context(&[1, 2, 3]);
    assert_eq!(context.send_packet(&packet(vec![])), Err(Error::InvalidData));
    // The rejected packet left no trace: nothing became ready.
    assert_eq!(context.receive_frame().err(), Some(Error::NeedsMoreInput));
}
