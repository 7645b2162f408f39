//! The control registry: mapping hardware-reported control descriptors into
//! the generic control model, widening read values, and validating control
//! ids before a write.
use vstd::prelude::*;

use crate::strutil::{append_dec_i64, append_dec_u64, spec_dec, spec_dec_int};
use crate::video_types::{
    Control, ControlBool, ControlMenu, ControlModel, ControlOption, ControlOptionModel,
    ControlSlider, ControlState, ControlType, ControlTypeModel,
};

verus! {

/// The hardware-reported category of a control.
#[derive(Clone, Copy, Debug, PartialEq, Eq, Structural)]
pub enum ControlKindReport {
    /// A bookkeeping-only category: not a control, never surfaced.
    CtrlClass,
    Boolean,
    Integer,
    Integer64,
    Menu,
    IntegerMenu,
    Other,
}

/// The name of one menu entry, as the hardware reports it.
#[derive(Clone, Debug, PartialEq)]
pub enum MenuEntryName {
    Label(String),
    Numeric(i64),
}

/// One hardware-reported control descriptor.
#[derive(Clone, Debug, PartialEq)]
pub struct ControlDescriptor {
    pub id: u64,
    pub name: String,
    pub kind: ControlKindReport,
    pub is_disabled: bool,
    pub is_inactive: bool,
    pub minimum: i64,
    pub maximum: i64,
    pub step: u64,
    pub default: i64,
    pub items: Option<Vec<(u32, MenuEntryName)>>,
}

/// One control as probed: its descriptor and its current value, where the
/// value could be read (a bookkeeping category is never read; a failed read
/// is reported and the control skipped).
#[derive(Clone, Debug, PartialEq)]
pub struct ControlProbe {
    pub descriptor: ControlDescriptor,
    pub value: Option<i64>,
}

/// What reading a control returned: a plain value, a wide value, or text.
#[derive(Clone, Debug, PartialEq)]
pub enum ControlValueReport {
    Value(i32),
    Value64(i64),
    Text(String),
}

/// How a control operation fails: an unknown id (with the valid ids for
/// diagnostics), or a control whose type cannot be read.
#[derive(Clone, Debug, PartialEq)]
pub enum ControlError {
    NotFound { id: u64, valid_ids: Vec<u64> },
    Unsupported,
}

/// The display name of one menu entry.
pub open spec fn spec_menu_entry_name(e: MenuEntryName) -> Seq<char> {
    match e {
        MenuEntryName::Label(s) => s@,
        MenuEntryName::Numeric(x) => spec_dec_int(x as int),
    }
}

/// The option list built from hardware-reported menu items.
pub open spec fn spec_menu_options(items: Seq<(u32, MenuEntryName)>) -> Seq<ControlOptionModel> {
    items.map_values(
        |it: (u32, MenuEntryName)|
            ControlOptionModel { name: spec_menu_entry_name(it.1), value: it.0 as i64 },
    )
}

/// The control a descriptor and current value map to: boolean categories to
/// a two-state control, integer categories to a slider, menu categories to a
/// menu when the hardware provided options; everything else is dropped.
pub open spec fn spec_control_from(desc: ControlDescriptor, value: i64) -> Option<ControlModel> {
    let state = ControlState { is_disabled: desc.is_disabled, is_inactive: desc.is_inactive };
    match desc.kind {
        ControlKindReport::Boolean => Some(
            ControlModel {
                name: desc.name@,
                cpp_type: "bool"@,
                id: desc.id,
                state,
                configuration: ControlTypeModel::Bool(
                    ControlBool { default: desc.default, value },
                ),
            },
        ),
        ControlKindReport::Integer | ControlKindReport::Integer64 => Some(
            ControlModel {
                name: desc.name@,
                cpp_type: "int64"@,
                id: desc.id,
                state,
                configuration: ControlTypeModel::Slider(
                    ControlSlider {
                        default: desc.default,
                        value,
                        step: desc.step,
                        max: desc.maximum,
                        min: desc.minimum,
                    },
                ),
            },
        ),
        ControlKindReport::Menu | ControlKindReport::IntegerMenu => match desc.items {
            Some(items) => Some(
                ControlModel {
                    name: desc.name@,
                    cpp_type: "int32"@,
                    id: desc.id,
                    state,
                    configuration: ControlTypeModel::Menu {
                        default: desc.default,
                        value,
                        options: spec_menu_options(items@),
                    },
                },
            ),
            None => None,
        },
        _ => None,
    }
}

/// Widens a read control value to a 64-bit integer; text-valued controls are
/// not supported.
pub fn widen_control_value(v: &ControlValueReport) -> (r: Result<i64, ControlError>)
    ensures
        v matches ControlValueReport::Value(x) ==> r == Ok::<i64, ControlError>(x as i64),
        v matches ControlValueReport::Value64(x) ==> r == Ok::<i64, ControlError>(*x),
        v matches ControlValueReport::Text(_) ==> r == Err::<i64, ControlError>(
            ControlError::Unsupported,
        ),
{
    match v {
        ControlValueReport::Value(x) => Ok(*x as i64),
        ControlValueReport::Value64(x) => Ok(*x),
        ControlValueReport::Text(_) => Err(ControlError::Unsupported),
    }
}

/// Maps one probed control into the generic model.
pub fn control_from_descriptor(desc: &ControlDescriptor, value: i64) -> (r: Option<Control>)
    ensures
        r is Some <==> spec_control_from(*desc, value) is Some,
        r matches Some(c) ==> spec_control_from(*desc, value) == Some(c@),
{
    let state = ControlState { is_disabled: desc.is_disabled, is_inactive: desc.is_inactive };
    match desc.kind {
        ControlKindReport::Boolean => Some(
            Control {
                name: desc.name.clone(),
                cpp_type: String::from_str("bool"),
                id: desc.id,
                state,
                configuration: ControlType::Bool(ControlBool { default: desc.default, value }),
            },
        ),
        ControlKindReport::Integer | ControlKindReport::Integer64 => Some(
            Control {
                name: desc.name.clone(),
                cpp_type: String::from_str("int64"),
                id: desc.id,
                state,
                configuration: ControlType::Slider(
                    ControlSlider {
                        default: desc.default,
                        value,
                        step: desc.step,
                        max: desc.maximum,
                        min: desc.minimum,
                    },
                ),
            },
        ),
        ControlKindReport::Menu | ControlKindReport::IntegerMenu => match &desc.items {
            Some(items) => {
                let mut options: Vec<ControlOption> = Vec::new();
                let n = items.len();
                let mut i: usize = 0;
                while i < n
                    invariant
                        n == items@.len(),
                        i <= n,
                        options@.len() == i,
                        forall|k: int| 0 <= k < i ==> (#[trigger] options@[k])@
                            == spec_menu_options(items@)[k],
                    decreases n - i,
                {
                    let name: String = match &items[i].1 {
                        MenuEntryName::Label(s) => s.clone(),
                        MenuEntryName::Numeric(x) => {
                            let mut t = String::new();
                            append_dec_i64(&mut t, *x);
                            proof {
                                assert(t@ =~= spec_dec_int(*x as int));
                            }
                            t
                        },
                    };
                    let value64: i64 = items[i].0 as i64;
                    options.push(ControlOption { name, value: value64 });
                    i += 1;
                }
                let c = Control {
                    name: desc.name.clone(),
                    cpp_type: String::from_str("int32"),
                    id: desc.id,
                    state,
                    configuration: ControlType::Menu(
                        ControlMenu { default: desc.default, value, options },
                    ),
                };
                proof {
                    assert(c@.configuration->Menu_options =~= spec_menu_options(items@));
                    assert(c@ =~= spec_control_from(*desc, value)->Some_0);
                }
                Some(c)
            },
            None => None,
        },
        _ => None,
    }
}

/// The controls built from a probe sequence, in probe order.
pub open spec fn spec_controls_from(ps: Seq<ControlProbe>) -> Seq<ControlModel>
    decreases ps.len(),
{
    if ps.len() == 0 {
        Seq::empty()
    } else {
        spec_controls_from(ps.drop_last()) + (match ps.last().value {
            Some(v) => match spec_control_from(ps.last().descriptor, v) {
                Some(c) => seq![c],
                None => Seq::empty(),
            },
            None => Seq::<ControlModel>::empty(),
        })
    }
}

/// The views of a control list.
pub open spec fn spec_control_views(s: Seq<Control>) -> Seq<ControlModel> {
    s.map_values(|c: Control| c@)
}

/// Maps the probed controls into the generic model: a control whose value
/// could not be read, a bookkeeping category, a menu without options, and
/// any unrecognized category are all skipped; the rest keep probe order.
pub fn controls_from_probes(probes: &Vec<ControlProbe>) -> (r: Vec<Control>)
    ensures
        spec_control_views(r@) == spec_controls_from(probes@),
{
    let mut out: Vec<Control> = Vec::new();
    let n = probes.len();
    proof {
        assert(spec_control_views(out@) =~= spec_controls_from(probes@.subrange(0, 0)));
    }
    let mut t: usize = 0;
    while t < n
        invariant
            n == probes@.len(),
            t <= n,
            spec_control_views(out@) == spec_controls_from(probes@.subrange(0, t as int)),
        decreases n - t,
    {
        proof {
            assert(probes@.subrange(0, t as int + 1).drop_last() =~= probes@.subrange(0, t as int));
            assert(probes@.subrange(0, t as int + 1).last() == probes@[t as int]);
        }
        let ghost out_before = out@;
        match &probes[t].value {
            Some(v) => {
                match control_from_descriptor(&probes[t].descriptor, *v) {
                    Some(c) => {
                        out.push(c);
                        proof {
                            assert(spec_control_views(out@) =~= spec_control_views(
                                out_before,
                            ).push(out@.last()@));
                            assert(spec_control_views(out@) =~= spec_controls_from(
                                probes@.subrange(0, t as int + 1),
                            ));
                        }
                    },
                    None => {
                        proof {
                            assert(spec_control_views(out@) =~= spec_controls_from(
                                probes@.subrange(0, t as int + 1),
                            ));
                        }
                    },
                }
            },
            None => {
                proof {
                    assert(spec_control_views(out@) =~= spec_controls_from(
                        probes@.subrange(0, t as int + 1),
                    ));
                }
            },
        }
        t += 1;
    }
    proof {
        assert(probes@.subrange(0, n as int) =~= probes@);
    }
    out
}

/// The ids of the known controls.
pub open spec fn spec_control_ids(s: Seq<Control>) -> Seq<u64> {
    s.map_values(|c: Control| c.id)
}

/// Validates a control id against the enumerated controls before a write:
/// an unknown id is rejected with the list of valid ids for diagnostics.
pub fn validate_control_id(controls: &Vec<Control>, control_id: u64) -> (r: Result<
    (),
    ControlError,
>)
    ensures
        r is Ok <==> spec_control_ids(controls@).contains(control_id),
        r matches Err(e) ==> (e matches ControlError::NotFound { id, valid_ids } && id
            == control_id && valid_ids@ == spec_control_ids(controls@)),
{
    let n = controls.len();
    let mut i: usize = 0;
    while i < n
        invariant
            n == controls@.len(),
            i <= n,
            forall|k: int| 0 <= k < i ==> (#[trigger] controls@[k]).id != control_id,
        decreases n - i,
    {
        if controls[i].id == control_id {
            proof {
                assert(spec_control_ids(controls@)[i as int] == control_id);
            }
            return Ok(());
        }
        i += 1;
    }
    let mut valid_ids: Vec<u64> = Vec::new();
    let mut k: usize = 0;
    while k < n
        invariant
            n == controls@.len(),
            k <= n,
            valid_ids@.len() == k,
            forall|j: int| 0 <= j < k ==> valid_ids@[j] == (#[trigger] controls@[j]).id,
        decreases n - k,
    {
        valid_ids.push(controls[k].id);
        k += 1;
    }
    proof {
        assert(valid_ids@ =~= spec_control_ids(controls@));
        assert forall|j: int|
            0 <= j < spec_control_ids(controls@).len() implies #[trigger] spec_control_ids(
            controls@,
        )[j] != control_id by {
            assert(controls@[j].id != control_id);
        }
        assert(!spec_control_ids(controls@).contains(control_id));
    }
    Err(ControlError::NotFound { id: control_id, valid_ids })
}

/// The message carried by each control error.
pub open spec fn spec_ids_text(ids: Seq<u64>, n: int) -> Seq<char>
    recommends
        0 <= n <= ids.len(),
    decreases n,
{
    if n <= 0 {
        Seq::empty()
    } else if n == 1 {
        spec_dec(ids[0] as nat)
    } else {
        spec_ids_text(ids, n - 1) + ", "@ + spec_dec(ids[n - 1] as nat)
    }
}

/// The human-readable cause carried by each control error.
pub open spec fn spec_control_error_message(e: &ControlError) -> Seq<char> {
    match e {
        ControlError::NotFound { id, valid_ids } => "Control ID '"@ + spec_dec(*id as nat)
            + "' is not valid, options are: ["@ + spec_ids_text(
            valid_ids@,
            valid_ids@.len() as int,
        ) + "]"@,
        ControlError::Unsupported => "String control type is not supported."@,
    }
}

impl ControlError {
    /// The human-readable cause of the failure.
    pub fn message(&self) -> (r: String)
        ensures
            r@ == spec_control_error_message(self),
    {
        match self {
            ControlError::NotFound { id, valid_ids } => {
                let mut s = String::from_str("Control ID '");
                append_dec_u64(&mut s, *id);
                s.append("' is not valid, options are: [");
                let n = valid_ids.len();
                let mut i: usize = 0;
                while i < n
                    invariant
                        n == valid_ids@.len(),
                        i <= n,
                        s@ == "Control ID '"@ + spec_dec(*id as nat)
                            + "' is not valid, options are: ["@ + spec_ids_text(
                            valid_ids@,
                            i as int,
                        ),
                    decreases n - i,
                {
                    if i > 0 {
                        s.append(", ");
                    }
                    append_dec_u64(&mut s, valid_ids[i]);
                    proof {
                        assert(s@ =~= "Control ID '"@ + spec_dec(*id as nat)
                            + "' is not valid, options are: ["@ + spec_ids_text(
                            valid_ids@,
                            i as int + 1,
                        ));
                    }
                    i += 1;
                }
                s.append("]");
                proof {
                    assert(s@ =~= spec_control_error_message(self));
                }
                s
            },
            ControlError::Unsupported => String::from_str(
                "String control type is not supported.",
            ),
        }
    }
}

} // verus!
