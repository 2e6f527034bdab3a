use ndi::bindings::AudioFrameV3;
use ndi::bindings::MetadataFrame;
use ndi::bindings::RecvCreateV3T;
use ndi::bindings::RecvPerformanceT;
use ndi::bindings::RecvQueueT;
use ndi::bindings::SourceT;
use ndi::bindings::VideoFrameV2;
use ndi::FrameType;
use ndi::HandleKind;
use ndi::Media;
use ndi::MetaData;
use ndi::NDIError;
use ndi::NativeCall;
use ndi::Owner;
use ndi::Recv;
use ndi::RecvBandwidth;
use ndi::RecvBuilder;
use ndi::RecvColorFormat;
use ndi::RecvPerformance;
use ndi::RecvQueueSize;
use ndi::Registry;
use ndi::Source;
use ndi::Tally;
use ndi::Ticket;
use ndi::VideoData;

fn video_at(p_data: usize) -> VideoFrameV2 {
    VideoFrameV2 {
        xres: 640,
        yres: 480,
        four_cc: 0x5956_5955,
        frame_rate_n: 30,
        frame_rate_d: 1,
        picture_aspect_ratio: 0,
        frame_format_type: 1,
        timecode: 0,
        p_data,
        line_stride_in_bytes: 1280,
        p_metadata: None,
        timestamp: 0,
    }
}

fn audio_at(p_data: usize) -> AudioFrameV3 {
    AudioFrameV3 {
        sample_rate: 48000,
        no_channels: 2,
        no_samples: 800,
        timecode: 0,
        four_cc: 0x7054_4c46,
        p_data,
        channel_stride_in_bytes: 3200,
        p_metadata: None,
        timestamp: 0,
    }
}

fn metadata_at(p_data: usize) -> MetadataFrame {
    MetadataFrame { length: 5, timecode: 0, p_data, data: b"<m/>".to_vec() }
}

#[test]
fn recv_settings_defaults() {
    assert_eq!(
        RecvBuilder::new().settings(),
        Ok(RecvCreateV3T {
            source_to_connect_to: SourceT { p_ndi_name: None, p_url_address: None },
            color_format: 1,
            bandwidth: 100,
            allow_video_fields: true,
            p_ndi_recv_name: None,
        })
    );
}

#[test]
fn recv_settings_as_chosen() {
    let b = RecvBuilder::new()
        .source_to_connect_to(Source::with_name(&"STUDIO (Main)".to_string()))
        .color_format(RecvColorFormat::RGBX_RGBA)
        .bandwidth(RecvBandwidth::Lowest)
        .allow_video_fields(false)
        .ndi_recv_name("viewer".to_string());
    assert_eq!(
        b.settings(),
        Ok(RecvCreateV3T {
            source_to_connect_to: SourceT {
                p_ndi_name: Some(b"STUDIO (Main)".to_vec()),
                p_url_address: None
            },
            color_format: 2,
            bandwidth: 0,
            allow_video_fields: false,
            p_ndi_recv_name: Some("viewer".to_string()),
        })
    );
    let b = b.bandwidth(RecvBandwidth::MetadataOnly).color_format(RecvColorFormat::Best);
    let s = b.settings().unwrap();
    assert_eq!(s.bandwidth, -10);
    assert_eq!(s.color_format, 101);
    assert_eq!(s.p_ndi_recv_name, Some("viewer".to_string()));
    assert_eq!(s.allow_video_fields, false);
}

#[test]
fn recv_settings_refuse_a_zero_byte() {
    assert_eq!(
        RecvBuilder::new().ndi_recv_name("view\u{0}er".to_string()).settings(),
        Err(NDIError::InteriorNul)
    );
}

#[test]
fn recv_settings_refuse_a_source_with_a_zero_byte() {
    let named = Source::with_name(&"STU\u{0}DIO".to_string());
    assert_eq!(
        RecvBuilder::new().source_to_connect_to(named).settings(),
        Err(NDIError::InteriorNul)
    );
    let addressed = Source::from_binding(SourceT {
        p_ndi_name: Some(b"STUDIO".to_vec()),
        p_url_address: Some(vec![b'1', 0, b'2']),
    });
    assert_eq!(
        RecvBuilder::new().source_to_connect_to(addressed).settings(),
        Err(NDIError::InteriorNul)
    );
}

#[test]
fn recv_build_refuses_what_settings_refuse() {
    let mut r = Registry::new();
    let name = String::from_utf8(vec![97, 0, 98]).unwrap();
    assert_eq!(
        RecvBuilder::new().ndi_recv_name(name).build(&mut r, 0x200).err(),
        Some(NDIError::InteriorNul)
    );
    assert!(r.is_idle());
    assert!(!r.is_live(0x200));
    let named = Source::with_name(&"\u{0}".to_string());
    assert_eq!(
        RecvBuilder::new().source_to_connect_to(named).build(&mut r, 0x200).err(),
        Some(NDIError::InteriorNul)
    );
    assert_eq!(
        RecvBuilder::new().ndi_recv_name("a\u{0}".to_string()).build(&mut r, 0).err(),
        Some(NDIError::InteriorNul)
    );
    assert!(r.is_idle());
    assert!(RecvBuilder::new().ndi_recv_name("ab".to_string()).build(&mut r, 0x200).is_ok());
    assert!(r.is_held(0x200));
}

#[test]
fn recv_build_fails_on_a_null_handle() {
    let mut r = Registry::new();
    assert_eq!(RecvBuilder::new().build(&mut r, 0).err(), Some(NDIError::RecvCreateError));
    assert_eq!(Recv::new(&mut r, 0).err(), Some(NDIError::RecvCreateError));
    assert!(r.is_idle());
}

#[test]
fn recv_starts_disconnected() {
    let mut r = Registry::new();
    let recv = RecvBuilder::new()
        .source_to_connect_to(Source::with_name(&"STUDIO (Main)".to_string()))
        .build(&mut r, 0x200)
        .unwrap();
    assert_eq!(recv.instance(), 0x200);
    assert!(!recv.connected());
    assert_eq!(recv.tally(), Tally::new());
    assert_eq!(r.kind_of(0x200), Some(HandleKind::Recv));
    assert!(r.is_held(0x200));
    assert_eq!(Recv::new(&mut r, 0x200).err(), Some(NDIError::RecvCreateError));
}

#[test]
fn recv_connection_state_machine() {
    let mut r = Registry::new();
    let mut recv = Recv::new(&mut r, 0x200).unwrap();
    let a = Source::with_name(&"A".to_string());
    let b = Source::with_name(&"B".to_string());

    assert_eq!(recv.connection(), &None);
    assert_eq!(recv.disconnect(), NativeCall::RecvDisconnect { instance: 0x200 });
    assert!(!recv.connected());
    assert_eq!(recv.connect(&a), NativeCall::RecvConnect { instance: 0x200 });
    assert!(recv.connected());
    assert_eq!(recv.connection(), &Some(Source::with_name(&"A".to_string())));
    assert_eq!(recv.connect(&b), NativeCall::RecvConnect { instance: 0x200 });
    assert!(recv.connected());
    assert_eq!(recv.connection(), &Some(b));
    assert_eq!(recv.disconnect(), NativeCall::RecvDisconnect { instance: 0x200 });
    assert!(!recv.connected());
    assert_eq!(recv.connection(), &None);
    assert_eq!(recv.instance(), 0x200);
}

#[test]
fn recv_capture_requests() {
    let mut r = Registry::new();
    let recv = Recv::new(&mut r, 0x200).unwrap();
    assert_eq!(
        recv.request_all(1000),
        NativeCall::RecvCapture {
            instance: 0x200,
            video: true,
            audio: true,
            metadata: true,
            timeout_in_ms: 1000
        }
    );
    assert_eq!(
        recv.request(Media::Video, 100),
        NativeCall::RecvCapture {
            instance: 0x200,
            video: true,
            audio: false,
            metadata: false,
            timeout_in_ms: 100
        }
    );
    assert_eq!(
        recv.request(Media::Audio, 0),
        NativeCall::RecvCapture {
            instance: 0x200,
            video: false,
            audio: true,
            metadata: false,
            timeout_in_ms: 0
        }
    );
    assert_eq!(
        recv.request(Media::Metadata, 5),
        NativeCall::RecvCapture {
            instance: 0x200,
            video: false,
            audio: false,
            metadata: true,
            timeout_in_ms: 5
        }
    );
}

#[test]
fn capture_none() {
    let mut r = Registry::new();
    let recv = RecvBuilder::new().build(&mut r, 0x200).unwrap();
    assert_eq!(
        recv.request(Media::Video, 100),
        NativeCall::RecvCapture {
            instance: 0x200,
            video: true,
            audio: false,
            metadata: false,
            timeout_in_ms: 100
        }
    );
    let (frame_type, video) = recv.capture_video(&mut r, 0, video_at(0)).unwrap();
    assert_eq!(frame_type, FrameType::Nothing);
    assert!(video.is_none());
    assert_eq!(r.frames_of(0x200), 0);
}

#[test]
fn capture_all_hands_out_the_frame_that_arrived() {
    let mut r = Registry::new();
    let recv = Recv::new(&mut r, 0x200).unwrap();

    let c = recv.capture_all(&mut r, 1, video_at(0x5000), audio_at(0), metadata_at(0)).unwrap();
    assert_eq!(c.frame_type, FrameType::Video);
    assert!(c.audio.is_none() && c.metadata.is_none());
    let v = c.video.unwrap();
    assert_eq!(v.owner(), Owner::OwnedByReceiver(Ticket { owner: 0x200, serial: 0 }));
    assert_eq!(v.as_binding(), &video_at(0x5000));

    let c = recv.capture_all(&mut r, 2, video_at(0), audio_at(0x6000), metadata_at(0)).unwrap();
    assert_eq!(c.frame_type, FrameType::Audio);
    assert!(c.video.is_none() && c.metadata.is_none());
    let a = c.audio.unwrap();
    assert_eq!(a.owner(), Owner::OwnedByReceiver(Ticket { owner: 0x200, serial: 1 }));
    assert_eq!(a.as_binding(), &audio_at(0x6000));

    let c = recv.capture_all(&mut r, 3, video_at(0), audio_at(0), metadata_at(0x7000)).unwrap();
    assert_eq!(c.frame_type, FrameType::Metadata);
    assert!(c.video.is_none() && c.audio.is_none());
    let m = c.metadata.unwrap();
    assert_eq!(m.owner(), Owner::OwnedByReceiver(Ticket { owner: 0x200, serial: 2 }));
    assert_eq!(m.data(), Ok("<m/>".to_string()));

    assert_eq!(r.frames_of(0x200), 3);
    assert!(recv.free_video_data(&mut r, v).is_ok());
    assert!(recv.free_audio_data(&mut r, a).is_ok());
    assert!(recv.free_metadata(&mut r, m).is_ok());
    assert_eq!(r.frames_of(0x200), 0);
}

#[test]
fn capture_all_without_a_frame() {
    let mut r = Registry::new();
    let recv = Recv::new(&mut r, 0x200).unwrap();
    for (tag, expected) in [
        (0, FrameType::Nothing),
        (4, FrameType::ErrorFrame),
        (100, FrameType::StatusChange),
    ] {
        let c = recv
            .capture_all(&mut r, tag, video_at(0x5000), audio_at(0x6000), metadata_at(0x7000))
            .unwrap();
        assert_eq!(c.frame_type, expected);
        assert!(c.video.is_none() && c.audio.is_none() && c.metadata.is_none());
    }
    assert_eq!(r.frames_of(0x200), 0);
}

#[test]
fn capture_reports_an_unknown_tag() {
    let mut r = Registry::new();
    let recv = Recv::new(&mut r, 0x200).unwrap();
    assert_eq!(
        recv.capture_all(&mut r, 42, video_at(0), audio_at(0), metadata_at(0)).err(),
        Some(NDIError::InvalidEnum(42, "FrameType"))
    );
    assert_eq!(
        recv.capture_video(&mut r, -3, video_at(0)).err(),
        Some(NDIError::InvalidEnum(-3, "FrameType"))
    );
    assert_eq!(
        recv.capture_audio(&mut r, 5, audio_at(0)).err(),
        Some(NDIError::InvalidEnum(5, "FrameType"))
    );
    assert_eq!(
        recv.capture_metadata(&mut r, 101, metadata_at(0)).err(),
        Some(NDIError::InvalidEnum(101, "FrameType"))
    );
    assert_eq!(r.frames_of(0x200), 0);
}

#[test]
fn capture_of_one_kind_ignores_the_others() {
    let mut r = Registry::new();
    let recv = Recv::new(&mut r, 0x200).unwrap();

    let (t, v) = recv.capture_video(&mut r, 1, video_at(0x5000)).unwrap();
    assert_eq!(t, FrameType::Video);
    assert_eq!(v.unwrap().owner(), Owner::OwnedByReceiver(Ticket { owner: 0x200, serial: 0 }));
    let (t, v) = recv.capture_video(&mut r, 2, video_at(0x5000)).unwrap();
    assert_eq!(t, FrameType::Audio);
    assert!(v.is_none());

    let (t, a) = recv.capture_audio(&mut r, 2, audio_at(0x6000)).unwrap();
    assert_eq!(t, FrameType::Audio);
    assert_eq!(a.unwrap().owner(), Owner::OwnedByReceiver(Ticket { owner: 0x200, serial: 1 }));
    let (t, a) = recv.capture_audio(&mut r, 1, audio_at(0x6000)).unwrap();
    assert_eq!(t, FrameType::Video);
    assert!(a.is_none());

    let (t, m) = recv.capture_metadata(&mut r, 3, metadata_at(0x7000)).unwrap();
    assert_eq!(t, FrameType::Metadata);
    assert_eq!(m.unwrap().owner(), Owner::OwnedByReceiver(Ticket { owner: 0x200, serial: 2 }));
    let (t, m) = recv.capture_metadata(&mut r, 4, metadata_at(0x7000)).unwrap();
    assert_eq!(t, FrameType::ErrorFrame);
    assert!(m.is_none());

    assert_eq!(r.frames_of(0x200), 3);
}

#[test]
fn capture_on_a_receiver_that_the_registry_does_not_know() {
    let mut r = Registry::new();
    let recv = Recv::new(&mut r, 0x200).unwrap();
    let mut other = Registry::new();
    assert_eq!(
        recv.capture_all(&mut other, 1, video_at(0x5000), audio_at(0), metadata_at(0)).err(),
        Some(NDIError::AlreadyReleased)
    );
    assert_eq!(
        recv.capture_video(&mut other, 1, video_at(0x5000)).err(),
        Some(NDIError::AlreadyReleased)
    );
    assert_eq!(
        recv.capture_audio(&mut other, 99, audio_at(0)).err(),
        Some(NDIError::AlreadyReleased)
    );
    assert_eq!(
        recv.capture_metadata(&mut other, 3, metadata_at(0)).err(),
        Some(NDIError::AlreadyReleased)
    );
    assert!(other.is_idle());
}

#[test]
fn frame_keeps_the_receiver_handle_alive() {
    let mut r = Registry::new();
    let recv = Recv::new(&mut r, 0x200).unwrap();
    let (_, v) = recv.capture_video(&mut r, 1, video_at(0x5000)).unwrap();
    let frame = v.unwrap();

    assert_eq!(recv.close(&mut r), Ok(Vec::new()));
    assert!(r.is_live(0x200));
    assert_eq!(frame.xres(), 640);

    assert_eq!(
        frame.release(&mut r),
        Ok(vec![
            NativeCall::Free {
                kind: HandleKind::Recv,
                instance: 0x200,
                media: Media::Video,
                p_data: 0x5000
            },
            NativeCall::Destroy { kind: HandleKind::Recv, instance: 0x200 },
        ])
    );
    assert!(!r.is_live(0x200));
}

#[test]
fn receiver_without_frames_is_destroyed_when_closed() {
    let mut r = Registry::new();
    let recv = Recv::new(&mut r, 0x200).unwrap();
    let (_, v) = recv.capture_video(&mut r, 1, video_at(0x5000)).unwrap();
    assert_eq!(
        recv.free_video_data(&mut r, v.unwrap()),
        Ok(vec![NativeCall::Free {
            kind: HandleKind::Recv,
            instance: 0x200,
            media: Media::Video,
            p_data: 0x5000
        }])
    );
    assert_eq!(
        recv.close(&mut r),
        Ok(vec![NativeCall::Destroy { kind: HandleKind::Recv, instance: 0x200 }])
    );
    assert!(r.is_idle());
}

#[test]
fn freeing_a_frame_without_owner_is_a_no_op() {
    let mut r = Registry::new();
    let recv = Recv::new(&mut r, 0x200).unwrap();
    assert_eq!(recv.free_video_data(&mut r, VideoData::new()), Ok(Vec::new()));
    assert_eq!(
        recv.free_metadata(&mut r, MetaData::new(0, 0, "x".to_string()).unwrap()),
        Ok(Vec::new())
    );
    assert!(r.is_held(0x200));
}

#[test]
fn freeing_a_frame_twice_is_refused() {
    let mut r = Registry::new();
    let recv = Recv::new(&mut r, 0x200).unwrap();
    let (_, v) = recv.capture_video(&mut r, 1, video_at(0x5000)).unwrap();
    let frame = v.unwrap();
    let ticket = match frame.owner() {
        Owner::OwnedByReceiver(t) => t,
        _ => unreachable!(),
    };
    assert!(recv.free_video_data(&mut r, frame).is_ok());
    let forged = VideoData::from_binding_recv(ticket, video_at(0x5000));
    assert_eq!(recv.free_video_data(&mut r, forged), Err(NDIError::AlreadyReleased));
}

#[test]
fn recv_performance_and_queue() {
    let mut r = Registry::new();
    let recv = Recv::new(&mut r, 0x200).unwrap();
    let total = RecvPerformanceT { video_frames: 900, audio_frames: 1800, metadata_frames: 3 };
    let dropped = RecvPerformanceT { video_frames: 2, audio_frames: 0, metadata_frames: 0 };
    assert_eq!(
        recv.get_performance(total, dropped),
        (
            RecvPerformance { video_frames: 900, audio_frames: 1800, metadata_frames: 3 },
            RecvPerformance { video_frames: 2, audio_frames: 0, metadata_frames: 0 },
        )
    );
    assert_eq!(
        RecvPerformance::default(),
        RecvPerformance { video_frames: 0, audio_frames: 0, metadata_frames: 0 }
    );
    assert_eq!(
        recv.get_queue(RecvQueueT { video_frames: 4, audio_frames: 5, metadata_frames: 6 }),
        RecvQueueSize { video_frames: 4, audio_frames: 5, metadata_frames: 6 }
    );
    assert_eq!(
        RecvQueueSize::from_binding(RecvQueueT {
            video_frames: -1,
            audio_frames: 0,
            metadata_frames: i32::MAX
        }),
        RecvQueueSize { video_frames: u32::MAX, audio_frames: 0, metadata_frames: 0x7fff_ffff }
    );
    assert_eq!(
        RecvQueueSize::new(),
        RecvQueueSize { video_frames: 0, audio_frames: 0, metadata_frames: 0 }
    );
    assert_eq!(recv.get_no_connections(0), 0);
    assert_eq!(recv.get_no_connections(3), 3);
}

#[test]
fn recv_tally_and_metadata_calls() {
    let mut r = Registry::new();
    let mut recv = Recv::new(&mut r, 0x200).unwrap();
    let tally = Tally { on_program: true, on_preview: false };
    assert_eq!(
        recv.set_tally(tally),
        NativeCall::RecvSetTally { instance: 0x200, on_program: true, on_preview: false }
    );
    assert_eq!(recv.tally(), tally);
    assert!(!recv.connected());

    let m = MetaData::new(0, 0, "<hello/>".to_string()).unwrap();
    assert_eq!(
        recv.add_connection_metadata(&m),
        NativeCall::RecvAddConnectionMetadata { instance: 0x200 }
    );
    assert_eq!(recv.send_metadata(&m), NativeCall::RecvSendMetadata { instance: 0x200 });
    assert_eq!(
        recv.recv_clear_connection_metadata(),
        NativeCall::RecvClearConnectionMetadata { instance: 0x200 }
    );
}
