use camera_manager::stream_backend::{create_stream, new, StreamBackend, StreamType};
use camera_manager::stream_types::{
    CaptureConfiguration, StreamEndpoint, StreamError, StreamInformation, ValidationError,
    VideoAndStreamInformation, VideoCaptureConfiguration,
};
use camera_manager::video_source_local::{VideoSourceLocal, VideoSourceLocalType};
use camera_manager::video_types::{
    FrameInterval, VideoEncodeType, VideoSourceRedirect, VideoSourceRedirectType, VideoSourceType,
};

use url::Url;

fn endpoint_from_url(url: &Url) -> StreamEndpoint {
    StreamEndpoint {
        scheme: url.scheme().to_string(),
        host: url.host_str().map(|h| h.to_string()),
        port: url.port(),
        path: url.path().to_string(),
    }
}

fn video_and_stream_information(
    stream_endpoints: &Vec<Url>,
    video_encode_type: &VideoEncodeType,
) -> VideoAndStreamInformation {
    VideoAndStreamInformation {
        name: "Test".into(),
        stream_information: StreamInformation {
            endpoints: stream_endpoints.iter().map(endpoint_from_url).collect(),
            configuration: CaptureConfiguration::VIDEO(VideoCaptureConfiguration {
                encode: video_encode_type.clone(),
                height: 720,
                width: 1280,
                frame_interval: FrameInterval {
                    numerator: 1,
                    denominator: 30,
                },
            }),
        },
        video_source: VideoSourceType::Local(VideoSourceLocal {
            name: "PotatoCam".into(),
            device_path: "/dev/video42".into(),
            typ: VideoSourceLocalType::Usb("TestPotatoCam".into()),
        }),
    }
}

fn stream_type_fabricator(
    stream_endpoints: &Vec<Url>,
    video_encode_type: &VideoEncodeType,
) -> StreamType {
    let stream = create_stream(&video_and_stream_information(
        stream_endpoints,
        video_encode_type,
    ));

    assert!(stream.is_ok());
    stream.unwrap()
}

#[test]
fn test_udp() {
    let pipeline_testing = vec![
        (VideoEncodeType::H264, "v4l2src device=/dev/video42 ! video/x-h264,width=1280,height=720,framerate=30/1 ! h264parse ! queue ! rtph264pay name=pay0 config-interval=10 pt=96 ! multiudpsink clients=192.168.0.1:42"),
        (VideoEncodeType::YUYV, "v4l2src device=/dev/video42 ! video/x-raw,format=YUY2,width=1280,height=720,framerate=30/1 ! videoconvert ! video/x-raw,format=UYVY ! rtpvrawpay name=pay0 ! application/x-rtp,payload=96,sampling=YCbCr-4:2:2 ! multiudpsink clients=192.168.0.1:42"),
        (VideoEncodeType::MJPG, "v4l2src device=/dev/video42 ! image/jpeg,width=1280,height=720,framerate=30/1 ! rtpjpegpay name=pay0 pt=96 ! multiudpsink clients=192.168.0.1:42"),
    ];

    for (encode_type, expected_pipeline) in pipeline_testing.iter() {
        let stream = stream_type_fabricator(
            &vec![Url::parse("udp://192.168.0.1:42").unwrap()],
            encode_type,
        );
        let pipeline = match &stream {
            StreamType::UDP(video_stream_udp) => video_stream_udp.pipeline(),
            _any_other_stream_type => panic!("Failed to create UDP stream: {stream:?}."),
        };
        assert_eq!(&pipeline, expected_pipeline);
    }
}

#[test]
fn test_rtsp() {
    let pipeline_testing = vec![
        (VideoEncodeType::H264, "v4l2src device=/dev/video42 ! video/x-h264,width=1280,height=720,framerate=30/1 ! h264parse ! queue ! rtph264pay name=pay0 config-interval=10 pt=96"),
        (VideoEncodeType::YUYV, "v4l2src device=/dev/video42 ! video/x-raw,format=YUY2,width=1280,height=720,framerate=30/1 ! videoconvert ! video/x-raw,format=UYVY ! rtpvrawpay name=pay0 ! application/x-rtp,payload=96,sampling=YCbCr-4:2:2"),
        (VideoEncodeType::MJPG, "v4l2src device=/dev/video42 ! image/jpeg,width=1280,height=720,framerate=30/1 ! rtpjpegpay name=pay0 pt=96"),
    ];

    for (encode_type, expected_pipeline) in pipeline_testing.iter() {
        let stream = stream_type_fabricator(
            &vec![Url::parse("rtsp://0.0.0.0:8554/test").unwrap()],
            encode_type,
        );
        let pipeline = match &stream {
            StreamType::RTSP(video_stream_rtsp) => video_stream_rtsp.pipeline(),
            _any_other_stream_type => panic!("Failed to create RTSP stream: {stream:?}."),
        };
        assert_eq!(&pipeline, expected_pipeline);
    }
}

#[test]
fn empty_endpoints_rejected() {
    let mut info = video_and_stream_information(
        &vec![Url::parse("udp://192.168.0.1:42").unwrap()],
        &VideoEncodeType::H264,
    );
    info.stream_information.endpoints.clear();
    match new(&info) {
        Err(StreamError::Validation(ValidationError::EmptyEndpoints)) => {}
        other => panic!("expected an empty-endpoints reject, got {other:?}"),
    }
}

#[test]
fn mixed_schemes_rejected() {
    let info = video_and_stream_information(
        &vec![
            Url::parse("udp://192.168.0.1:42").unwrap(),
            Url::parse("rtsp://0.0.0.0:8554/test").unwrap(),
        ],
        &VideoEncodeType::H264,
    );
    match new(&info) {
        Err(StreamError::Validation(ValidationError::MixedSchemes)) => {}
        other => panic!("expected a mixed-schemes reject, got {other:?}"),
    }
}

#[test]
fn unknown_encode_rejected() {
    let info = video_and_stream_information(
        &vec![Url::parse("udp://192.168.0.1:42").unwrap()],
        &VideoEncodeType::UNKNOWN("POTATO".into()),
    );
    match new(&info) {
        Err(StreamError::Validation(ValidationError::UnknownEncode(name))) => {
            assert_eq!(name, "POTATO");
        }
        other => panic!("expected an unknown-encode reject, got {other:?}"),
    }
}

#[test]
fn h265_over_udp_rejected() {
    let info = video_and_stream_information(
        &vec![Url::parse("udp://192.168.0.1:42").unwrap()],
        &VideoEncodeType::H265,
    );
    match new(&info) {
        Err(StreamError::Validation(ValidationError::UnsupportedEncode(VideoEncodeType::H265))) => {
        }
        other => panic!("expected an unsupported-encode reject, got {other:?}"),
    }
    assert_eq!(
        ValidationError::UnsupportedEncode(VideoEncodeType::H265).message(),
        "Only H264, YUYV and MJPG encodes are supported now, used: H265"
    );
}

#[test]
fn h265_under_udp265_passes_scheme_stage() {
    let info = video_and_stream_information(
        &vec![Url::parse("udp265://192.168.0.1:42").unwrap()],
        &VideoEncodeType::H265,
    );
    assert!(camera_manager::stream_backend::check_scheme(&info).is_ok());
    // The same pairing under the udp scheme is refused at the scheme stage.
    let udp = video_and_stream_information(
        &vec![Url::parse("udp://192.168.0.1:42").unwrap()],
        &VideoEncodeType::H265,
    );
    assert_eq!(
        camera_manager::stream_backend::check_scheme(&udp),
        Err(ValidationError::UdpWithH265)
    );
}

#[test]
fn multiple_rtsp_endpoints_rejected() {
    let info = video_and_stream_information(
        &vec![
            Url::parse("rtsp://0.0.0.0:8554/one").unwrap(),
            Url::parse("rtsp://0.0.0.0:8554/two").unwrap(),
        ],
        &VideoEncodeType::H264,
    );
    match new(&info) {
        Err(StreamError::Validation(ValidationError::MultipleRtspEndpoints)) => {}
        other => panic!("expected a multiple-rtsp reject, got {other:?}"),
    }
}

#[test]
fn rtsp_path_needs_one_segment() {
    let info = video_and_stream_information(
        &vec![Url::parse("rtsp://0.0.0.0:8554/seg_a/seg_b").unwrap()],
        &VideoEncodeType::H264,
    );
    match new(&info) {
        Err(StreamError::Validation(ValidationError::RtspPathSegments(path))) => {
            assert_eq!(path, "/seg_a/seg_b");
        }
        other => panic!("expected a path-segments reject, got {other:?}"),
    }
}

#[test]
fn rtsp_port_is_fixed() {
    let info = video_and_stream_information(
        &vec![Url::parse("rtsp://0.0.0.0:554/test").unwrap()],
        &VideoEncodeType::H264,
    );
    match new(&info) {
        Err(StreamError::Validation(ValidationError::RtspPortMismatch)) => {}
        other => panic!("expected a port reject, got {other:?}"),
    }
}

#[test]
fn unsupported_capture_scheme_rejected() {
    let info = video_and_stream_information(
        &vec![Url::parse("mpegts://192.168.0.1:42").unwrap()],
        &VideoEncodeType::H264,
    );
    match new(&info) {
        Err(StreamError::Validation(ValidationError::UnsupportedScheme(scheme))) => {
            assert_eq!(scheme, "mpegts");
        }
        other => panic!("expected an unsupported-scheme reject, got {other:?}"),
    }
}

#[test]
fn redirect_source_accepts_redirect_schemes() {
    for raw in [
        "udp://192.168.0.1:42",
        "udp265://192.168.0.1:42",
        "rtsp://0.0.0.0:8554/test",
        "mpegts://192.168.0.1:42",
        "tcp://192.168.0.1:42",
    ] {
        let mut info = video_and_stream_information(
            &vec![Url::parse(raw).unwrap()],
            &VideoEncodeType::H264,
        );
        info.stream_information.configuration = CaptureConfiguration::REDIRECT;
        info.video_source = VideoSourceType::Redirect(VideoSourceRedirect {
            name: "Redirect".into(),
            source: VideoSourceRedirectType::Redirect(raw.into()),
        });
        let stream = new(&info).unwrap();
        match stream {
            StreamType::REDIRECT(redirect) => {
                assert_eq!(redirect.scheme, Url::parse(raw).unwrap().scheme());
            }
            other => panic!("expected a redirect stream, got {other:?}"),
        }
    }
}

#[test]
fn redirect_source_rejects_other_schemes() {
    let mut info = video_and_stream_information(
        &vec![Url::parse("http://192.168.0.1:42").unwrap()],
        &VideoEncodeType::H264,
    );
    info.stream_information.configuration = CaptureConfiguration::REDIRECT;
    info.video_source = VideoSourceType::Redirect(VideoSourceRedirect {
        name: "Redirect".into(),
        source: VideoSourceRedirectType::Redirect("http://192.168.0.1:42".into()),
    });
    match new(&info) {
        Err(StreamError::Validation(ValidationError::UnsupportedRedirectScheme(scheme))) => {
            assert_eq!(scheme, "http");
        }
        other => panic!("expected a redirect-scheme reject, got {other:?}"),
    }
}

#[test]
fn udp_endpoints_need_host_and_port() {
    let mut info = video_and_stream_information(
        &vec![Url::parse("udp://192.168.0.1:42").unwrap()],
        &VideoEncodeType::H264,
    );
    info.stream_information.endpoints[0].port = None;
    match new(&info) {
        Err(StreamError::Validation(ValidationError::UdpEndpointMissingHostOrPort)) => {}
        other => panic!("expected a missing-host-or-port reject, got {other:?}"),
    }
}

#[test]
fn udp265_requires_h265() {
    let info = video_and_stream_information(
        &vec![Url::parse("udp265://192.168.0.1:42").unwrap()],
        &VideoEncodeType::H264,
    );
    match camera_manager::stream_backend::check_scheme(&info) {
        Err(ValidationError::Udp265WithoutH265(VideoEncodeType::H264)) => {}
        other => panic!("expected a udp265-encode reject, got {other:?}"),
    }
}

#[test]
fn rtsp_creation_rejects_other_schemes() {
    let info = video_and_stream_information(
        &vec![Url::parse("udp://192.168.0.1:42").unwrap()],
        &VideoEncodeType::H264,
    );
    match camera_manager::stream_backend::create_rtsp_stream(&info) {
        Err(StreamError::Validation(ValidationError::RtspSchemeMismatch(scheme))) => {
            assert_eq!(scheme, "udp");
        }
        other => panic!("expected an rtsp-scheme reject, got {other:?}"),
    }
}
