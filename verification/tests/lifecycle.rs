use camera_manager::stream_backend::{create_stream, StreamBackend, StreamType};
use camera_manager::stream_types::{
    CaptureConfiguration, StreamEndpoint, StreamInformation, VideoAndStreamInformation,
    VideoCaptureConfiguration,
};
use camera_manager::video_source_local::{VideoSourceLocal, VideoSourceLocalType};
use camera_manager::video_stream_redirect::VideoStreamRedirect;
use camera_manager::video_types::{FrameInterval, VideoEncodeType, VideoSourceType};

fn udp_stream() -> StreamType {
    let info = VideoAndStreamInformation {
        name: "Test".into(),
        stream_information: StreamInformation {
            endpoints: vec![StreamEndpoint {
                scheme: "udp".into(),
                host: Some("192.168.0.1".into()),
                port: Some(42),
                path: "".into(),
            }],
            configuration: CaptureConfiguration::VIDEO(VideoCaptureConfiguration {
                encode: VideoEncodeType::H264,
                height: 720,
                width: 1280,
                frame_interval: FrameInterval {
                    numerator: 1,
                    denominator: 30,
                },
            }),
        },
        video_source: VideoSourceType::Local(VideoSourceLocal {
            name: "Cam".into(),
            device_path: "/dev/video42".into(),
            typ: VideoSourceLocalType::Usb("usb-0000:08:00.3-1".into()),
        }),
    };
    create_stream(&info).unwrap()
}

#[test]
fn start_is_idempotent() {
    let mut stream = match udp_stream() {
        StreamType::UDP(u) => u,
        other => panic!("expected a UDP stream, got {other:?}"),
    };
    assert!(!stream.is_running());
    let pipeline_before = stream.pipeline();
    assert!(stream.start());
    assert!(stream.is_running());
    // A second start reports the running status and changes nothing.
    assert!(stream.start());
    assert!(stream.is_running());
    assert_eq!(stream.pipeline(), pipeline_before);
}

#[test]
fn stop_is_idempotent() {
    let mut stream = match udp_stream() {
        StreamType::UDP(u) => u,
        other => panic!("expected a UDP stream, got {other:?}"),
    };
    // Stopping a stream that never ran reports false and has no effect.
    assert!(!stream.stop());
    assert!(!stream.is_running());
    assert!(stream.start());
    assert!(stream.stop());
    assert!(!stream.is_running());
    assert!(!stream.stop());
}

#[test]
fn restart_leaves_the_stream_running() {
    let mut stream = match udp_stream() {
        StreamType::UDP(u) => u,
        other => panic!("expected a UDP stream, got {other:?}"),
    };
    let pipeline_before = stream.pipeline();
    stream.restart();
    assert!(stream.is_running());
    stream.restart();
    assert!(stream.is_running());
    assert_eq!(stream.pipeline(), pipeline_before);
}

#[test]
fn same_endpoints_not_allowed_by_default() {
    let stream = match udp_stream() {
        StreamType::UDP(u) => u,
        other => panic!("expected a UDP stream, got {other:?}"),
    };
    assert!(!stream.allow_same_endpoints());
    let redirect = VideoStreamRedirect::new("rtsp".into()).unwrap();
    assert!(!redirect.allow_same_endpoints());
}

#[test]
fn redirect_stream_lifecycle() {
    let mut redirect = VideoStreamRedirect::new("udp265".into()).unwrap();
    assert_eq!(redirect.scheme, "udp265");
    assert_eq!(redirect.pipeline(), "");
    assert!(!redirect.is_running());
    assert!(redirect.start());
    assert!(redirect.is_running());
    assert!(redirect.stop());
    assert!(!redirect.is_running());
}
