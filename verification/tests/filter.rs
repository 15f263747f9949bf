use av_codec::data;
use av_codec::filter::{BlankClip, Filter, VideoInfo, VideoNode};

#[test]
fn simple_video_filter() {
    let clip = BlankClip {
        frame: data::Frame {
            kind: data::MediaKind::Video(data::VideoInfo {
                width: 1280,
                height: 720,
            }),
            pts: 0,
        },
        vi: VideoInfo::new(
            data::VideoInfo {
                width: 1280,
                height: 720,
            },
            25,
        ),
        color: [16, 128, 128],
        keep: true,
    };
    assert_eq!(clip.vi.num_frames(), 25);
    assert_eq!(clip.vi.video().width, 1280);
    let node = clip.create_filter();
    assert!(matches!(node, Ok(VideoNode)));
}
