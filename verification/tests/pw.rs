use dingtalk_wayland_screenshare::pw::{
    build_buffers_param, format_offer, on_param, stream_target, Chunk, LatestFrame, MediaKind,
    ParamAction, ParamBuffers, ParamEvent, PipewireCapture, PodValue, VideoFormat, MAX_SIDE,
};

#[test]
fn a_picture_is_read_back_as_it_came() {
    let mut latest = LatestFrame::new();
    assert!(latest.get_latest_frame().is_none());
    assert!(latest.frame().is_none());

    let buffer: Vec<u8> = (0..32).collect();
    let chunk = Chunk { offset: 8, size: 16, stride: 8 };
    assert!(latest.process(Some(&buffer), chunk, 2, 2));
    let frame = latest.get_latest_frame().unwrap();
    assert_eq!((frame.width, frame.height, frame.stride), (2, 2, 8));
    assert_eq!(frame.data, (8..24).collect::<Vec<u8>>());

    // The next one replaces it, and a buffer that cannot be read does not.
    let chunk = Chunk { offset: 0, size: 4, stride: 0 };
    assert!(latest.process(Some(&buffer), chunk, 1, 1));
    assert!(!latest.process(None, chunk, 7, 7));
    let frame = latest.frame().unwrap();
    assert_eq!((frame.width, frame.height, frame.stride), (1, 1, 4));
    assert_eq!(frame.data, vec![0, 1, 2, 3]);
}

#[test]
fn a_chunk_is_cut_at_the_end_of_its_buffer() {
    let mut latest = LatestFrame::new();
    let buffer = vec![9u8; 10];
    latest.process(Some(&buffer), Chunk { offset: 6, size: 100, stride: 4 }, 1, 1);
    assert_eq!(latest.frame().unwrap().data.len(), 4);
    latest.process(Some(&buffer), Chunk { offset: 50, size: 100, stride: 4 }, 1, 1);
    assert_eq!(latest.frame().unwrap().data.len(), 0);
    latest.process(Some(&buffer), Chunk { offset: 0, size: u32::MAX, stride: -1 }, 1, 1);
    assert_eq!(latest.frame().unwrap().data.len(), 10);
    assert_eq!(latest.frame().unwrap().stride, u32::MAX);
}

fn size_and_stride(width: u32, height: u32) -> (i32, i32) {
    let properties = build_buffers_param(width, height);
    let number = |key: ParamBuffers| {
        let property = properties.iter().find(|p| p.key == key).unwrap();
        match property.value {
            PodValue::Int(n) => n,
            _ => panic!("not a number"),
        }
    };
    (number(ParamBuffers::Size), number(ParamBuffers::Stride))
}

#[test]
fn buffers_that_are_asked_for() {
    let properties = build_buffers_param(1280, 720);
    let keys: Vec<u32> = properties.iter().map(|p| p.key.as_raw()).collect();
    assert_eq!(keys, vec![1, 2, 3, 4, 6]);
    assert!(matches!(properties[0].value, PodValue::Range { default: 4, min: 2, max: 16 }));
    assert!(matches!(properties[1].value, PodValue::Int(1)));
    match &properties[4].value {
        PodValue::Flags { default, flags } => {
            assert_eq!(*default, 6);
            assert_eq!(flags, &vec![2, 4]);
        }
        other => panic!("not flags: {:?}", other),
    }
    assert_eq!(size_and_stride(1280, 720), (3_686_400, 5120));
    assert_eq!(size_and_stride(MAX_SIDE, MAX_SIDE), (67_108_864, 16384));
}

#[test]
fn buffer_sizes_saturate() {
    assert_eq!(size_and_stride(0x7fff_ffff, 1), (i32::MAX, i32::MAX));
    assert_eq!(size_and_stride(100_000, 100_000), (i32::MAX, 400_000));
    assert_eq!(size_and_stride(u32::MAX, 5), (-20, -4));
    assert_eq!(size_and_stride(0x8000_0000, 2), (i32::MIN, i32::MIN));
}

#[test]
fn video_that_is_asked_for() {
    let offer = format_offer();
    assert_eq!(offer.preferred, VideoFormat::Bgrx);
    assert_eq!(
        offer.formats,
        vec![VideoFormat::Bgrx, VideoFormat::Rgbx, VideoFormat::Bgra, VideoFormat::Rgba]
    );
    assert_eq!(offer.size.default, (1280, 720));
    assert_eq!(offer.size.min, (1, 1));
    assert_eq!(offer.size.max, (4096, 4096));
    assert_eq!(offer.rate.default, (30, 1));
    assert_eq!(offer.rate.min, (0, 1));
    assert_eq!(offer.rate.max, (1000, 1));
}

#[test]
fn only_raw_video_formats_are_followed_up() {
    let changed = |present, format| on_param(ParamEvent::Changed { present, format });
    assert!(matches!(changed(true, true), ParamAction::ReadMedia));
    assert!(matches!(changed(true, false), ParamAction::Ignore));
    assert!(matches!(changed(false, true), ParamAction::Ignore));
    let media = |video, raw| on_param(ParamEvent::MediaRead(Some(MediaKind { video, raw })));
    assert!(matches!(media(true, true), ParamAction::ReadSize));
    assert!(matches!(media(true, false), ParamAction::Ignore));
    assert!(matches!(media(false, true), ParamAction::Ignore));
    assert!(matches!(on_param(ParamEvent::MediaRead(None)), ParamAction::Ignore));
    assert!(matches!(on_param(ParamEvent::SizeRead(None)), ParamAction::Ignore));
    match on_param(ParamEvent::SizeRead(Some((2, 3)))) {
        ParamAction::AskForBuffers(properties) => {
            assert!(matches!(properties[2].value, PodValue::Int(24)));
        }
        other => panic!("nothing asked for: {:?}", other),
    }
}

#[test]
fn a_named_object_goes_before_the_node() {
    let target = stream_target(5, None);
    assert_eq!((target.object, target.node), (None, Some(5)));
    let target = stream_target(5, Some("77".to_string()));
    assert_eq!((target.object, target.node), (Some("77".to_string()), None));
}

#[test]
fn a_capture_is_stopped_once() {
    let mut capture = PipewireCapture::from_report(Some(Ok(0x1000)), "slot", "thread").unwrap();
    assert_eq!(*capture.latest_frame_handle(), "slot");
    let work = capture.stop();
    assert_eq!((work.quit, work.join), (Some(0x1000), Some("thread")));
    let work = capture.stop();
    assert_eq!((work.quit, work.join), (None, None));
}

#[test]
fn a_capture_that_does_not_start() {
    let failed = PipewireCapture::from_report(Some(Err("no core".to_string())), (), ());
    assert_eq!(failed.unwrap_err(), "no core");
    let silent = PipewireCapture::from_report(None, (), ());
    assert_eq!(
        silent.unwrap_err(),
        "PipeWire background thread failed during initialization"
    );
}
