use camera_manager::capabilities::{
    convert_v4l_intervals, formats_from_probes, sizes_to_probe, FormatProbe, Fraction,
    IntervalProbe, ReportedInterval, SizeProbe, StepwiseInterval,
};
use camera_manager::video_source_local::VideoSourceLocalType;
use camera_manager::video_types::{FrameInterval, VideoEncodeType};

fn fi(numerator: u32, denominator: u32) -> FrameInterval {
    FrameInterval {
        numerator,
        denominator,
    }
}

#[test]
fn discrete_intervals_fastest_rate_first() {
    let reported = vec![
        ReportedInterval::Discrete(Fraction {
            numerator: 1,
            denominator: 15,
        }),
        ReportedInterval::Discrete(Fraction {
            numerator: 1,
            denominator: 60,
        }),
        ReportedInterval::Discrete(Fraction {
            numerator: 1,
            denominator: 30,
        }),
    ];
    let intervals = convert_v4l_intervals(&reported);
    assert_eq!(intervals, vec![fi(1, 60), fi(1, 30), fi(1, 15)]);
}

#[test]
fn discrete_intervals_deduplicated() {
    let reported = vec![
        ReportedInterval::Discrete(Fraction {
            numerator: 1,
            denominator: 30,
        }),
        ReportedInterval::Discrete(Fraction {
            numerator: 1,
            denominator: 30,
        }),
    ];
    let intervals = convert_v4l_intervals(&reported);
    assert_eq!(intervals, vec![fi(1, 30)]);
}

#[test]
fn stepwise_intervals_sampled_and_clamped() {
    // Sampling steps below 5 are raised to 5; zeros are clamped to 1; the
    // range maxima are always included.
    let reported = vec![ReportedInterval::Stepwise(StepwiseInterval {
        min: Fraction {
            numerator: 1,
            denominator: 5,
        },
        max: Fraction {
            numerator: 2,
            denominator: 10,
        },
        step: Fraction {
            numerator: 1,
            denominator: 1,
        },
    })];
    // Sampled numerators: multiples of 5 up to 1, plus the maximum: {0, 2}.
    // Sampled denominators: multiples of 5 up to 5, plus the maximum:
    // {0, 5, 10}. Zeros clamp to 1.
    let intervals = convert_v4l_intervals(&reported);
    assert_eq!(
        intervals,
        vec![
            fi(2, 10),
            fi(2, 5),
            fi(2, 1),
            fi(1, 10),
            fi(1, 5),
            fi(1, 1)
        ]
    );
}

#[test]
fn probe_sizes_end_with_range_maximum() {
    let sizes = sizes_to_probe(4056, 3040);
    assert_eq!(sizes.last(), Some(&(4056, 3040)));
    assert!(sizes.contains(&(1920, 1080)));
    assert!(sizes.contains(&(320, 240)));
}

fn discrete_size_probe(width: u32, height: u32, denominators: &[u32]) -> SizeProbe {
    SizeProbe {
        width,
        height,
        outcome: IntervalProbe::Reported(
            denominators
                .iter()
                .map(|d| {
                    ReportedInterval::Discrete(Fraction {
                        numerator: 1,
                        denominator: *d,
                    })
                })
                .collect(),
        ),
    }
}

#[test]
fn formats_assembled_sorted_and_deduplicated() {
    let probes = vec![
        FormatProbe {
            fourcc: "YUYV".into(),
            size_probes: vec![discrete_size_probe(640, 480, &[30])],
        },
        FormatProbe {
            fourcc: "H264".into(),
            size_probes: vec![
                discrete_size_probe(640, 480, &[30]),
                discrete_size_probe(1280, 720, &[30, 60]),
            ],
        },
        FormatProbe {
            fourcc: "YUYV".into(),
            size_probes: vec![discrete_size_probe(640, 480, &[30])],
        },
    ];
    let (formats, warnings) =
        formats_from_probes(&VideoSourceLocalType::Usb("usb-0000:08:00.3-1".into()), &probes);
    assert!(warnings.is_empty());
    assert_eq!(formats.len(), 2);
    assert_eq!(formats[0].encode, VideoEncodeType::H264);
    assert_eq!(formats[1].encode, VideoEncodeType::YUYV);
    // Sizes come largest first, each with its intervals fastest first.
    assert_eq!(formats[0].sizes[0].width, 1280);
    assert_eq!(formats[0].sizes[0].intervals, vec![fi(1, 60), fi(1, 30)]);
    assert_eq!(formats[0].sizes[1].width, 640);
}

#[test]
fn failed_interval_probe_is_skipped_with_warning() {
    let probes = vec![FormatProbe {
        fourcc: "MJPG".into(),
        size_probes: vec![
            discrete_size_probe(640, 480, &[30]),
            SizeProbe {
                width: 1280,
                height: 720,
                outcome: IntervalProbe::Failed("hardware fault".into()),
            },
        ],
    }];
    let (formats, warnings) =
        formats_from_probes(&VideoSourceLocalType::Usb("usb-0000:08:00.3-1".into()), &probes);
    assert_eq!(warnings.len(), 1);
    assert!(warnings[0].contains("hardware fault"));
    assert_eq!(formats.len(), 1);
    assert_eq!(formats[0].sizes.len(), 1);
    assert_eq!(formats[0].sizes[0].width, 640);
}

#[test]
fn legacy_camera_constrained_to_1080p_and_low_product() {
    // The legacy workaround drops any interval whose numerator times
    // denominator exceeds 30 (the product, not the rate) and clamps sizes.
    let probes = vec![FormatProbe {
        fourcc: "YUYV".into(),
        size_probes: vec![
            discrete_size_probe(3840, 2160, &[30, 40]),
            discrete_size_probe(1920, 1080, &[30, 40]),
        ],
    }];
    let (formats, _) = formats_from_probes(
        &VideoSourceLocalType::LegacyRpiCam("platform:bcm2835-v4l2-0".into()),
        &probes,
    );
    assert_eq!(formats.len(), 1);
    // Both probed sizes clamp to 1920x1080 with the same surviving interval,
    // so they merge into one.
    assert_eq!(formats[0].sizes.len(), 1);
    assert_eq!(formats[0].sizes[0].width, 1920);
    assert_eq!(formats[0].sizes[0].height, 1080);
    assert_eq!(formats[0].sizes[0].intervals, vec![fi(1, 30)]);
}

#[test]
fn non_legacy_sources_keep_large_sizes() {
    let probes = vec![FormatProbe {
        fourcc: "YUYV".into(),
        size_probes: vec![discrete_size_probe(3840, 2160, &[40])],
    }];
    let (formats, _) =
        formats_from_probes(&VideoSourceLocalType::Usb("usb-0000:08:00.3-1".into()), &probes);
    assert_eq!(formats[0].sizes[0].width, 3840);
    assert_eq!(formats[0].sizes[0].intervals, vec![fi(1, 40)]);
}

#[test]
fn decimal_formatting() {
    assert_eq!(camera_manager::strutil::dec_u32_string(0), "0");
    assert_eq!(camera_manager::strutil::dec_u32_string(30), "30");
    assert_eq!(camera_manager::strutil::dec_u32_string(4294967295), "4294967295");
}
