use camera_manager::video_source_local::{VideoSourceLocal, VideoSourceLocalType};
use camera_manager::video_types::VideoSourceType;

#[test]
fn bus_decode() {
    let descriptions = vec![
        (
            // Normal desktop
            VideoSourceLocalType::Usb("usb-0000:08:00.3-1".into()),
            "usb-0000:08:00.3-1",
        ),
        (
            // Normal desktop with additional hubs
            VideoSourceLocalType::Usb("usb-0000:08:00.3-2.1".into()),
            "usb-0000:08:00.3-2.1",
        ),
        (
            // Provided by the raspberry pi with a USB camera
            VideoSourceLocalType::Usb("usb-3f980000.usb-1.4".into()),
            "usb-3f980000.usb-1.4",
        ),
        (
            // Provided by the raspberry pi with a Raspberry Pi camera when in to use legacy camera mode
            VideoSourceLocalType::LegacyRpiCam("platform:bcm2835-v4l2-0".into()),
            "platform:bcm2835-v4l2-0",
        ),
        (
            // Sanity test
            VideoSourceLocalType::Unknown("potato".into()),
            "potato",
        ),
    ];

    for description in descriptions {
        assert_eq!(description.0, VideoSourceLocalType::from_str(description.1));
    }
}

#[test]
fn benign_unknown_descriptor() {
    // The internal ISP node stays unclassified but is known and harmless.
    assert!(matches!(
        VideoSourceLocalType::from_str("platform:bcm2835-isp"),
        VideoSourceLocalType::Unknown(_)
    ));
    assert!(VideoSourceLocalType::is_benign_unknown("platform:bcm2835-isp"));
    assert!(!VideoSourceLocalType::is_benign_unknown("potato"));
}

#[test]
fn platform_descriptor_needs_digit() {
    assert!(matches!(
        VideoSourceLocalType::from_str("platform:bcm2835-v4l2-x"),
        VideoSourceLocalType::Unknown(_)
    ));
    assert!(matches!(
        VideoSourceLocalType::from_str("platform: bcm2835-v4l2-0"),
        VideoSourceLocalType::Unknown(_)
    ));
}

fn usb_camera(name: &str, path: &str, bus: &str) -> VideoSourceType {
    VideoSourceType::Local(VideoSourceLocal {
        name: name.into(),
        device_path: path.into(),
        typ: VideoSourceLocalType::Usb(bus.into()),
    })
}

#[test]
fn update_device_replaces_renumbered_path() {
    let mut source = VideoSourceLocal {
        name: "Cam".into(),
        device_path: "/dev/video0".into(),
        typ: VideoSourceLocalType::Usb("usb-0000:08:00.3-1".into()),
    };
    let cameras = vec![
        usb_camera("Other", "/dev/video1", "usb-0000:08:00.3-2.1"),
        usb_camera("Cam", "/dev/video2", "usb-0000:08:00.3-1"),
    ];
    assert!(source.update_device(&cameras));
    assert_eq!(source.device_path, "/dev/video2");
}

#[test]
fn update_device_keeps_identical_path() {
    let mut source = VideoSourceLocal {
        name: "Cam".into(),
        device_path: "/dev/video0".into(),
        typ: VideoSourceLocalType::Usb("usb-0000:08:00.3-1".into()),
    };
    let cameras = vec![usb_camera("Renamed", "/dev/video0", "usb-0000:08:00.3-1")];
    assert!(source.update_device(&cameras));
    // Same path: the source is left untouched, even the name.
    assert_eq!(source.name, "Cam");
    assert_eq!(source.device_path, "/dev/video0");
}

#[test]
fn update_device_invalidates_missing_camera() {
    let mut source = VideoSourceLocal {
        name: "Cam".into(),
        device_path: "/dev/video0".into(),
        typ: VideoSourceLocalType::Usb("usb-0000:08:00.3-1".into()),
    };
    let cameras = vec![usb_camera("Other", "/dev/video1", "usb-0000:08:00.3-2.1")];
    assert!(!source.update_device(&cameras));
    assert_eq!(source.device_path, "");
    assert!(!source.is_valid());
}

#[test]
fn update_device_ignores_non_usb_sources() {
    let mut source = VideoSourceLocal {
        name: "Cam".into(),
        device_path: "/dev/video0".into(),
        typ: VideoSourceLocalType::LegacyRpiCam("platform:bcm2835-v4l2-0".into()),
    };
    let cameras: Vec<VideoSourceType> = vec![];
    assert!(source.update_device(&cameras));
    assert_eq!(source.device_path, "/dev/video0");
}

#[test]
fn source_accessors() {
    let source = VideoSourceLocal {
        name: "Cam".into(),
        device_path: "/dev/video0".into(),
        typ: VideoSourceLocalType::Usb("usb-0000:08:00.3-1".into()),
    };
    assert_eq!(source.name(), "Cam");
    assert_eq!(source.source_string(), "/dev/video0");
    assert!(source.is_valid());
    assert!(!source.is_shareable());
}
