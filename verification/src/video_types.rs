//! Data model for capture sources: encodings, frame intervals, sizes, formats,
//! and hardware controls, with their mathematical views.
use vstd::prelude::*;

use crate::video_source_local::VideoSourceLocal;

verus! {

/// The compression or pixel format of frames leaving a source.
#[derive(Clone, Debug, PartialEq)]
pub enum VideoEncodeType {
    H264,
    H265,
    YUYV,
    MJPG,
    UNKNOWN(String),
}

/// Mathematical view of [`VideoEncodeType`].
pub enum EncodeModel {
    H264,
    H265,
    YUYV,
    MJPG,
    UNKNOWN(Seq<char>),
}

impl View for VideoEncodeType {
    type V = EncodeModel;

    open spec fn view(&self) -> EncodeModel {
        match self {
            VideoEncodeType::H264 => EncodeModel::H264,
            VideoEncodeType::H265 => EncodeModel::H265,
            VideoEncodeType::YUYV => EncodeModel::YUYV,
            VideoEncodeType::MJPG => EncodeModel::MJPG,
            VideoEncodeType::UNKNOWN(name) => EncodeModel::UNKNOWN(name@),
        }
    }
}

/// The encoding a four-character pixel-format code stands for.
pub open spec fn spec_encode_of_fourcc(s: Seq<char>) -> EncodeModel {
    if s == "H264"@ {
        EncodeModel::H264
    } else if s == "H265"@ {
        EncodeModel::H265
    } else if s == "YUYV"@ {
        EncodeModel::YUYV
    } else if s == "MJPG"@ {
        EncodeModel::MJPG
    } else {
        EncodeModel::UNKNOWN(s)
    }
}

impl VideoEncodeType {
    /// Classifies a hardware-reported four-character pixel-format code.
    pub fn from_str(fourcc: &str) -> (r: VideoEncodeType)
        ensures
            r@ == spec_encode_of_fourcc(fourcc@),
    {
        if crate::strutil::str_eq(fourcc, "H264") {
            VideoEncodeType::H264
        } else if crate::strutil::str_eq(fourcc, "H265") {
            VideoEncodeType::H265
        } else if crate::strutil::str_eq(fourcc, "YUYV") {
            VideoEncodeType::YUYV
        } else if crate::strutil::str_eq(fourcc, "MJPG") {
            VideoEncodeType::MJPG
        } else {
            VideoEncodeType::UNKNOWN(String::from_str(fourcc))
        }
    }

    /// A copy of the encoding that contracts can see through.
    pub fn duplicate(&self) -> (r: VideoEncodeType)
        ensures
            r@ == self@,
    {
        match self {
            VideoEncodeType::H264 => VideoEncodeType::H264,
            VideoEncodeType::H265 => VideoEncodeType::H265,
            VideoEncodeType::YUYV => VideoEncodeType::YUYV,
            VideoEncodeType::MJPG => VideoEncodeType::MJPG,
            VideoEncodeType::UNKNOWN(name) => VideoEncodeType::UNKNOWN(name.clone()),
        }
    }

    /// A human-readable name for the encoding, used in error messages.
    pub fn description(&self) -> (r: String)
        ensures
            r@ == spec_encode_name(self@),
    {
        match self {
            VideoEncodeType::H264 => String::from_str("H264"),
            VideoEncodeType::H265 => String::from_str("H265"),
            VideoEncodeType::YUYV => String::from_str("YUYV"),
            VideoEncodeType::MJPG => String::from_str("MJPG"),
            VideoEncodeType::UNKNOWN(name) => name.clone(),
        }
    }
}

/// The name [`VideoEncodeType::description`] returns.
pub open spec fn spec_encode_name(e: EncodeModel) -> Seq<char> {
    match e {
        EncodeModel::H264 => "H264"@,
        EncodeModel::H265 => "H265"@,
        EncodeModel::YUYV => "YUYV"@,
        EncodeModel::MJPG => "MJPG"@,
        EncodeModel::UNKNOWN(name) => name,
    }
}

/// A rational frame interval (time between frames), `numerator/denominator`
/// seconds. The frame rate is the inverse, `denominator/numerator`.
#[derive(Clone, Copy, Debug, PartialEq, Eq, Structural)]
pub struct FrameInterval {
    pub numerator: u32,
    pub denominator: u32,
}

/// A frame size together with the frame intervals available at that size,
/// fastest frame rate first.
#[derive(Clone, Debug, PartialEq)]
pub struct Size {
    pub width: u32,
    pub height: u32,
    pub intervals: Vec<FrameInterval>,
}

/// Mathematical view of [`Size`].
#[verifier::ext_equal]
pub struct SizeModel {
    pub width: u32,
    pub height: u32,
    pub intervals: Seq<FrameInterval>,
}

impl View for Size {
    type V = SizeModel;

    open spec fn view(&self) -> SizeModel {
        SizeModel { width: self.width, height: self.height, intervals: self.intervals@ }
    }
}

/// A pixel format and the sizes it is available at.
#[derive(Clone, Debug, PartialEq)]
pub struct Format {
    pub encode: VideoEncodeType,
    pub sizes: Vec<Size>,
}

/// Mathematical view of [`Format`].
#[verifier::ext_equal]
pub struct FormatModel {
    pub encode: EncodeModel,
    pub sizes: Seq<SizeModel>,
}

impl View for Format {
    type V = FormatModel;

    open spec fn view(&self) -> FormatModel {
        FormatModel { encode: self.encode@, sizes: self.sizes@.map_values(|s: Size| s@) }
    }
}

/// Compares two sizes for full structural equality.
pub fn size_eq(a: &Size, b: &Size) -> (r: bool)
    ensures
        r == (a@ == b@),
{
    if a.width != b.width || a.height != b.height {
        return false;
    }
    if a.intervals.len() != b.intervals.len() {
        return false;
    }
    let n = a.intervals.len();
    let mut i: usize = 0;
    while i < n
        invariant
            n == a.intervals.len() == b.intervals.len(),
            i <= n,
            a.width == b.width,
            a.height == b.height,
            forall|k: int| 0 <= k < i ==> a.intervals@[k] == b.intervals@[k],
        decreases n - i,
    {
        if a.intervals[i] != b.intervals[i] {
            return false;
        }
        i += 1;
    }
    proof {
        assert(a.intervals@ =~= b.intervals@);
    }
    true
}

/// Compares two formats for full structural equality.
pub fn format_eq(a: &Format, b: &Format) -> (r: bool)
    ensures
        r == (a@ == b@),
{
    let encodes_equal = match (&a.encode, &b.encode) {
        (VideoEncodeType::H264, VideoEncodeType::H264) => true,
        (VideoEncodeType::H265, VideoEncodeType::H265) => true,
        (VideoEncodeType::YUYV, VideoEncodeType::YUYV) => true,
        (VideoEncodeType::MJPG, VideoEncodeType::MJPG) => true,
        (VideoEncodeType::UNKNOWN(x), VideoEncodeType::UNKNOWN(y)) => crate::strutil::str_eq(
            x.as_str(),
            y.as_str(),
        ),
        _ => false,
    };
    if !encodes_equal {
        return false;
    }
    if a.sizes.len() != b.sizes.len() {
        proof {
            assert(a@.sizes.len() != b@.sizes.len());
        }
        return false;
    }
    let n = a.sizes.len();
    let mut i: usize = 0;
    while i < n
        invariant
            n == a.sizes.len() == b.sizes.len(),
            i <= n,
            a.encode@ == b.encode@,
            forall|k: int| 0 <= k < i ==> a.sizes@[k]@ == b.sizes@[k]@,
        decreases n - i,
    {
        if !size_eq(&a.sizes[i], &b.sizes[i]) {
            proof {
                assert(a@.sizes[i as int] != b@.sizes[i as int]);
            }
            return false;
        }
        i += 1;
    }
    proof {
        assert(a@.sizes =~= b@.sizes);
    }
    true
}

/// Hardware-reported availability flags of a control.
#[derive(Clone, Copy, Debug, PartialEq, Eq, Structural)]
pub struct ControlState {
    pub is_disabled: bool,
    pub is_inactive: bool,
}

/// A two-state control.
#[derive(Clone, Copy, Debug, PartialEq, Eq, Structural)]
pub struct ControlBool {
    pub default: i64,
    pub value: i64,
}

/// An integer control over an inclusive range with a step.
#[derive(Clone, Copy, Debug, PartialEq, Eq, Structural)]
pub struct ControlSlider {
    pub default: i64,
    pub value: i64,
    pub step: u64,
    pub max: i64,
    pub min: i64,
}

/// One selectable entry of a menu control.
#[derive(Clone, Debug, PartialEq)]
pub struct ControlOption {
    pub name: String,
    pub value: i64,
}

/// Mathematical view of [`ControlOption`].
pub struct ControlOptionModel {
    pub name: Seq<char>,
    pub value: i64,
}

impl View for ControlOption {
    type V = ControlOptionModel;

    open spec fn view(&self) -> ControlOptionModel {
        ControlOptionModel { name: self.name@, value: self.value }
    }
}

/// A control selected from an ordered list of options.
#[derive(Clone, Debug, PartialEq)]
pub struct ControlMenu {
    pub default: i64,
    pub value: i64,
    pub options: Vec<ControlOption>,
}

/// The kind-specific configuration of a control.
#[derive(Clone, Debug, PartialEq)]
pub enum ControlType {
    Bool(ControlBool),
    Slider(ControlSlider),
    Menu(ControlMenu),
}

/// Mathematical view of [`ControlType`].
pub enum ControlTypeModel {
    Bool(ControlBool),
    Slider(ControlSlider),
    Menu { default: i64, value: i64, options: Seq<ControlOptionModel> },
}

impl View for ControlType {
    type V = ControlTypeModel;

    open spec fn view(&self) -> ControlTypeModel {
        match self {
            ControlType::Bool(b) => ControlTypeModel::Bool(*b),
            ControlType::Slider(s) => ControlTypeModel::Slider(*s),
            ControlType::Menu(m) => ControlTypeModel::Menu {
                default: m.default,
                value: m.value,
                options: m.options@.map(|i: int, o: ControlOption| o@),
            },
        }
    }
}

/// A hardware control mapped into the generic control model.
#[derive(Clone, Debug, PartialEq)]
pub struct Control {
    pub name: String,
    pub cpp_type: String,
    pub id: u64,
    pub state: ControlState,
    pub configuration: ControlType,
}

/// Mathematical view of [`Control`].
pub struct ControlModel {
    pub name: Seq<char>,
    pub cpp_type: Seq<char>,
    pub id: u64,
    pub state: ControlState,
    pub configuration: ControlTypeModel,
}

impl View for Control {
    type V = ControlModel;

    open spec fn view(&self) -> ControlModel {
        ControlModel {
            name: self.name@,
            cpp_type: self.cpp_type@,
            id: self.id,
            state: self.state,
            configuration: self.configuration@,
        }
    }
}

/// A fake (test-pattern) or local source handed to the media engine.
#[derive(Clone, Debug, PartialEq)]
pub enum VideoSourceGstType {
    Local(VideoSourceLocal),
    Fake(String),
}

/// A synthetic source backed by the media engine's pattern generator.
#[derive(Clone, Debug, PartialEq)]
pub struct VideoSourceGst {
    pub name: String,
    pub source: VideoSourceGstType,
}

/// The scheme a redirect source forwards to.
#[derive(Clone, Debug, PartialEq)]
pub enum VideoSourceRedirectType {
    Redirect(String),
}

/// A source whose media path is produced externally and only forwarded.
#[derive(Clone, Debug, PartialEq)]
pub struct VideoSourceRedirect {
    pub name: String,
    pub source: VideoSourceRedirectType,
}

/// Where frames originate.
#[derive(Clone, Debug, PartialEq)]
pub enum VideoSourceType {
    Gst(VideoSourceGst),
    Local(VideoSourceLocal),
    Redirect(VideoSourceRedirect),
}

} // verus!
