use camera_manager::pipeline_builder::Pipeline;
use camera_manager::stream_backend::{new, StreamType};
use camera_manager::stream_types::{
    CaptureConfiguration, PipelineError, StreamEndpoint, StreamError, StreamInformation,
    VideoAndStreamInformation, VideoCaptureConfiguration,
};
use camera_manager::video_source_local::{VideoSourceLocal, VideoSourceLocalType};
use camera_manager::video_types::{
    FrameInterval, VideoEncodeType, VideoSourceGst, VideoSourceGstType, VideoSourceType,
};

fn udp_endpoint() -> StreamEndpoint {
    StreamEndpoint {
        scheme: "udp".into(),
        host: Some("192.168.0.1".into()),
        port: Some(42),
        path: "".into(),
    }
}

fn synthetic_info(encode: VideoEncodeType) -> VideoAndStreamInformation {
    VideoAndStreamInformation {
        name: "Synthetic".into(),
        stream_information: StreamInformation {
            endpoints: vec![udp_endpoint()],
            configuration: CaptureConfiguration::VIDEO(VideoCaptureConfiguration {
                encode,
                height: 720,
                width: 1280,
                frame_interval: FrameInterval {
                    numerator: 1,
                    denominator: 30,
                },
            }),
        },
        video_source: VideoSourceType::Gst(VideoSourceGst {
            name: "Fake".into(),
            source: VideoSourceGstType::Fake("ball".into()),
        }),
    }
}

#[test]
fn synthetic_source_h264_gets_software_encode() {
    let pipeline = Pipeline::new(&synthetic_info(VideoEncodeType::H264)).unwrap();
    assert_eq!(
        pipeline.description,
        "videotestsrc pattern=ball ! video/x-raw,format=UYVY,width=1280,height=720,framerate=30/1 ! videoconvert ! x264enc bitrate=5000 ! video/x-h264,profile=baseline ! h264parse ! queue ! rtph264pay name=pay0 config-interval=10 pt=96 ! multiudpsink clients=192.168.0.1:42"
    );
}

#[test]
fn synthetic_source_mjpg_gets_jpeg_encode() {
    let pipeline = Pipeline::new(&synthetic_info(VideoEncodeType::MJPG)).unwrap();
    assert_eq!(
        pipeline.description,
        "videotestsrc pattern=ball ! video/x-raw,format=UYVY,width=1280,height=720,framerate=30/1 ! jpegenc ! rtpjpegpay name=pay0 pt=96 ! multiudpsink clients=192.168.0.1:42"
    );
}

#[test]
fn multiple_udp_clients_are_comma_joined() {
    let mut info = synthetic_info(VideoEncodeType::H264);
    info.stream_information.endpoints.push(StreamEndpoint {
        scheme: "udp".into(),
        host: Some("10.0.0.2".into()),
        port: Some(5600),
        path: "".into(),
    });
    let pipeline = Pipeline::new(&info).unwrap();
    assert!(pipeline
        .description
        .ends_with(" ! multiudpsink clients=192.168.0.1:42,10.0.0.2:5600"));
}

#[test]
fn redirect_configuration_on_capture_source_is_internal_fault() {
    // This input passes the validator (a redirect configuration imposes no
    // encode constraint and the udp endpoints are complete) but no pipeline
    // can be synthesized from it: the fault is surfaced distinctly from the
    // validation rejects.
    let mut info = synthetic_info(VideoEncodeType::H264);
    info.stream_information.configuration = CaptureConfiguration::REDIRECT;
    info.video_source = VideoSourceType::Local(VideoSourceLocal {
        name: "Cam".into(),
        device_path: "/dev/video0".into(),
        typ: VideoSourceLocalType::Usb("usb-0000:08:00.3-1".into()),
    });
    match new(&info) {
        Err(StreamError::Pipeline(PipelineError::RedirectConfiguration)) => {}
        other => panic!("expected an internal-consistency fault, got {other:?}"),
    }
}

#[test]
fn unclassified_local_source_is_internal_fault() {
    // An unclassified connection type also passes the validator but has no
    // capture element.
    let mut info = synthetic_info(VideoEncodeType::H264);
    info.video_source = VideoSourceType::Local(VideoSourceLocal {
        name: "Cam".into(),
        device_path: "/dev/video0".into(),
        typ: VideoSourceLocalType::Unknown("potato".into()),
    });
    match new(&info) {
        Err(StreamError::Pipeline(PipelineError::UnsupportedLocalSourceType)) => {}
        other => panic!("expected an internal-consistency fault, got {other:?}"),
    }
    assert_eq!(
        PipelineError::UnsupportedLocalSourceType.message(),
        "Unsupported VideoSourceLocal type"
    );
}

#[test]
fn redirect_stream_creation_is_not_synthesis() {
    let stream = match new(&{
        let mut info = synthetic_info(VideoEncodeType::H264);
        info.stream_information.configuration = CaptureConfiguration::REDIRECT;
        info.video_source = VideoSourceType::Redirect(
            camera_manager::video_types::VideoSourceRedirect {
                name: "Redirect".into(),
                source: camera_manager::video_types::VideoSourceRedirectType::Redirect(
                    "udp://192.168.0.1:42".into(),
                ),
            },
        );
        info
    }) {
        Ok(stream) => stream,
        Err(error) => panic!("expected a redirect stream, got {error:?}"),
    };
    assert!(matches!(stream, StreamType::REDIRECT(_)));
}

#[test]
fn unsupported_encode_is_internal_fault_at_synthesis() {
    // Called directly (outside the validator), synthesis refuses H265 with
    // its own fault kind.
    let info = synthetic_info(VideoEncodeType::H265);
    match Pipeline::new(&info) {
        Err(PipelineError::UnsupportedEncode(VideoEncodeType::H265)) => {}
        other => panic!("expected an unsupported-encode fault, got {other:?}"),
    }
}

#[test]
fn media_engine_source_must_be_the_pattern_generator() {
    let mut info = synthetic_info(VideoEncodeType::H264);
    info.video_source = VideoSourceType::Gst(VideoSourceGst {
        name: "Wrapped".into(),
        source: VideoSourceGstType::Local(VideoSourceLocal {
            name: "Cam".into(),
            device_path: "/dev/video0".into(),
            typ: VideoSourceLocalType::Usb("usb-0000:08:00.3-1".into()),
        }),
    });
    match Pipeline::new(&info) {
        Err(PipelineError::UnsupportedGstSource) => {}
        other => panic!("expected an unsupported-source fault, got {other:?}"),
    }
}
