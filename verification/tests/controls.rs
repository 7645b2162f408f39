use camera_manager::controls::{
    control_from_descriptor, controls_from_probes, validate_control_id, widen_control_value,
    ControlDescriptor, ControlError, ControlKindReport, ControlProbe, ControlValueReport,
    MenuEntryName,
};
use camera_manager::video_types::{Control, ControlType};

fn descriptor(id: u64, name: &str, kind: ControlKindReport) -> ControlDescriptor {
    ControlDescriptor {
        id,
        name: name.into(),
        kind,
        is_disabled: false,
        is_inactive: false,
        minimum: 0,
        maximum: 100,
        step: 1,
        default: 50,
        items: None,
    }
}

#[test]
fn boolean_control_maps_to_bool() {
    let c = control_from_descriptor(&descriptor(1, "AWB", ControlKindReport::Boolean), 1).unwrap();
    assert_eq!(c.cpp_type, "bool");
    assert_eq!(c.id, 1);
    match c.configuration {
        ControlType::Bool(b) => {
            assert_eq!(b.default, 50);
            assert_eq!(b.value, 1);
        }
        other => panic!("expected a bool control, got {other:?}"),
    }
}

#[test]
fn integer_control_maps_to_slider() {
    let c =
        control_from_descriptor(&descriptor(2, "Brightness", ControlKindReport::Integer), 7)
            .unwrap();
    assert_eq!(c.cpp_type, "int64");
    match c.configuration {
        ControlType::Slider(s) => {
            assert_eq!(s.min, 0);
            assert_eq!(s.max, 100);
            assert_eq!(s.step, 1);
            assert_eq!(s.default, 50);
            assert_eq!(s.value, 7);
        }
        other => panic!("expected a slider control, got {other:?}"),
    }
}

#[test]
fn menu_control_needs_options() {
    let mut desc = descriptor(3, "Exposure", ControlKindReport::Menu);
    assert!(control_from_descriptor(&desc, 0).is_none());

    desc.items = Some(vec![
        (0, MenuEntryName::Label("Auto".into())),
        (1, MenuEntryName::Numeric(50)),
    ]);
    let c = control_from_descriptor(&desc, 0).unwrap();
    assert_eq!(c.cpp_type, "int32");
    match c.configuration {
        ControlType::Menu(m) => {
            assert_eq!(m.options.len(), 2);
            assert_eq!(m.options[0].name, "Auto");
            assert_eq!(m.options[0].value, 0);
            assert_eq!(m.options[1].name, "50");
            assert_eq!(m.options[1].value, 1);
        }
        other => panic!("expected a menu control, got {other:?}"),
    }
}

#[test]
fn bookkeeping_and_failed_controls_skipped() {
    let probes = vec![
        ControlProbe {
            descriptor: descriptor(1, "Class", ControlKindReport::CtrlClass),
            value: None,
        },
        ControlProbe {
            descriptor: descriptor(2, "Unreadable", ControlKindReport::Integer),
            value: None,
        },
        ControlProbe {
            descriptor: descriptor(3, "Gain", ControlKindReport::Integer),
            value: Some(4),
        },
    ];
    let controls = controls_from_probes(&probes);
    assert_eq!(controls.len(), 1);
    assert_eq!(controls[0].name, "Gain");
    assert_eq!(controls[0].id, 3);
}

#[test]
fn widening_control_values() {
    assert_eq!(widen_control_value(&ControlValueReport::Value(-5)), Ok(-5));
    assert_eq!(
        widen_control_value(&ControlValueReport::Value64(1 << 40)),
        Ok(1 << 40)
    );
    let err = widen_control_value(&ControlValueReport::Text("x".into())).unwrap_err();
    assert_eq!(err, ControlError::Unsupported);
    assert_eq!(err.message(), "String control type is not supported.");
}

#[test]
fn unknown_control_id_rejected_with_options() {
    let controls: Vec<Control> = controls_from_probes(&vec![
        ControlProbe {
            descriptor: descriptor(1, "A", ControlKindReport::Integer),
            value: Some(0),
        },
        ControlProbe {
            descriptor: descriptor(2, "B", ControlKindReport::Boolean),
            value: Some(0),
        },
    ]);
    assert!(validate_control_id(&controls, 2).is_ok());
    match validate_control_id(&controls, 9) {
        Err(e @ ControlError::NotFound { .. }) => {
            assert_eq!(
                e.message(),
                "Control ID '9' is not valid, options are: [1, 2]"
            );
        }
        other => panic!("expected a not-found reject, got {other:?}"),
    }
}
