//! Local capture devices: classification of the hardware-reported connection
//! descriptor, and reconciliation of device paths after OS renumbering.
use vstd::prelude::*;

use crate::video_types::VideoSourceType;

verus! {

/// The physical connection type of a local capture device, classified from
/// the hardware-reported bus descriptor.
#[derive(Clone, Debug, PartialEq)]
pub enum VideoSourceLocalType {
    Unknown(String),
    Usb(String),
    LegacyRpiCam(String),
}

/// Mathematical view of [`VideoSourceLocalType`].
pub enum LocalTypeModel {
    Unknown(Seq<char>),
    Usb(Seq<char>),
    LegacyRpiCam(Seq<char>),
}

impl View for VideoSourceLocalType {
    type V = LocalTypeModel;

    open spec fn view(&self) -> LocalTypeModel {
        match self {
            VideoSourceLocalType::Unknown(d) => LocalTypeModel::Unknown(d@),
            VideoSourceLocalType::Usb(d) => LocalTypeModel::Usb(d@),
            VideoSourceLocalType::LegacyRpiCam(d) => LocalTypeModel::LegacyRpiCam(d@),
        }
    }
}

/// A local capture device node.
#[derive(Clone, Debug, PartialEq)]
pub struct VideoSourceLocal {
    pub name: String,
    pub device_path: String,
    pub typ: VideoSourceLocalType,
}

/// Mathematical view of [`VideoSourceLocal`].
pub struct LocalModel {
    pub name: Seq<char>,
    pub device_path: Seq<char>,
    pub typ: LocalTypeModel,
}

impl View for VideoSourceLocal {
    type V = LocalModel;

    open spec fn view(&self) -> LocalModel {
        LocalModel { name: self.name@, device_path: self.device_path@, typ: self.typ@ }
    }
}

/// Whether a character is a hexadecimal digit.
pub open spec fn spec_is_hex_digit(c: char) -> bool {
    ||| (48 <= c as u32 && c as u32 <= 57)  // '0'..='9'
    ||| (97 <= c as u32 && c as u32 <= 102)  // 'a'..='f'
    ||| (65 <= c as u32 && c as u32 <= 70)  // 'A'..='F'
}

/// Two hexadecimal digits at position `i`.
pub open spec fn spec_hex_pair_at(s: Seq<char>, i: int) -> bool {
    &&& 0 <= i
    &&& i + 2 <= s.len()
    &&& spec_is_hex_digit(s[i])
    &&& spec_is_hex_digit(s[i + 1])
}

/// One interface group of the usb bus-path grammar, spanning `[i, j)`: two
/// or four hexadecimal digits followed by an optional colon.
pub open spec fn spec_group_spans(s: Seq<char>, i: int, j: int) -> bool {
    ||| (spec_hex_pair_at(s, i) && (j == i + 2 || (i + 2 < s.len() && s[i + 2] == ':' && j == i
        + 3)))
    ||| (spec_hex_pair_at(s, i) && spec_hex_pair_at(s, i + 2) && (j == i + 4 || (i + 4 < s.len()
        && s[i + 4] == ':' && j == i + 5)))
}

/// `k` interface groups starting at `i`, followed directly by a dot.
pub open spec fn spec_groups_then_dot(s: Seq<char>, i: int, k: nat) -> bool
    decreases k,
{
    if k == 0 {
        0 <= i < s.len() && s[i] == '.'
    } else {
        exists|j: int| spec_group_spans(s, i, j) && spec_groups_then_dot(s, j, (k - 1) as nat)
    }
}

/// The usb bus-path grammar matches at position `i`: the word `usb-`, then
/// either a dot directly or four interface groups and a dot. What follows
/// the dot (an optional second `usb-` and the device suffix) is
/// unconstrained.
pub open spec fn spec_usb_match_at(s: Seq<char>, i: int) -> bool {
    &&& 0 <= i
    &&& i + 4 <= s.len()
    &&& s[i] == 'u'
    &&& s[i + 1] == 's'
    &&& s[i + 2] == 'b'
    &&& s[i + 3] == '-'
    &&& (spec_groups_then_dot(s, i + 4, 0) || spec_groups_then_dot(s, i + 4, 4))
}

/// The usb bus-path grammar matches somewhere in the descriptor.
pub open spec fn spec_usb_descriptor(s: Seq<char>) -> bool {
    exists|i: int| spec_usb_match_at(s, i)
}

/// The whitespace characters of the legacy platform grammar's "non-space"
/// rule: the Unicode white-space set.
pub open spec fn spec_is_space(c: char) -> bool {
    ||| (9 <= c as u32 && c as u32 <= 13)  // tab, newline, vertical tab, form feed, carriage return
    ||| c as u32 == 32  // space
    ||| c as u32 == 0x85
    ||| c as u32 == 0xA0
    ||| c as u32 == 0x1680
    ||| (0x2000 <= c as u32 && c as u32 <= 0x200A)
    ||| c as u32 == 0x2028
    ||| c as u32 == 0x2029
    ||| c as u32 == 0x202F
    ||| c as u32 == 0x205F
    ||| c as u32 == 0x3000
}

/// The word `platform:` at position `i`.
pub open spec fn spec_platform_prefix_at(s: Seq<char>, i: int) -> bool {
    &&& 0 <= i
    &&& i + 9 <= s.len()
    &&& s[i] == 'p'
    &&& s[i + 1] == 'l'
    &&& s[i + 2] == 'a'
    &&& s[i + 3] == 't'
    &&& s[i + 4] == 'f'
    &&& s[i + 5] == 'o'
    &&& s[i + 6] == 'r'
    &&& s[i + 7] == 'm'
    &&& s[i + 8] == ':'
}

/// The word `-v4l2-` followed by a decimal digit, at position `j`.
pub open spec fn spec_v4l2_tail_at(s: Seq<char>, j: int) -> bool {
    &&& 0 <= j
    &&& j + 7 <= s.len()
    &&& s[j] == '-'
    &&& s[j + 1] == 'v'
    &&& s[j + 2] == '4'
    &&& s[j + 3] == 'l'
    &&& s[j + 4] == '2'
    &&& s[j + 5] == '-'
    &&& 48 <= s[j + 6] as u32 && s[j + 6] as u32 <= 57
}

/// The legacy platform grammar matches with the device name spanning
/// `[i + 9, j)`: `platform:`, one or more non-space characters, `-v4l2-`,
/// a digit.
pub open spec fn spec_platform_match_span(s: Seq<char>, i: int, j: int) -> bool {
    &&& spec_platform_prefix_at(s, i)
    &&& i + 9 < j
    &&& spec_v4l2_tail_at(s, j)
    &&& forall|k: int| i + 9 <= k < j ==> !spec_is_space(s[k])
}

/// The legacy platform grammar matches somewhere in the descriptor.
pub open spec fn spec_legacy_platform_descriptor(s: Seq<char>) -> bool {
    exists|i: int, j: int| spec_platform_match_span(s, i, j)
}

fn is_hex_digit(c: char) -> (r: bool)
    ensures
        r == spec_is_hex_digit(c),
{
    let u = c as u32;
    (48 <= u && u <= 57) || (97 <= u && u <= 102) || (65 <= u && u <= 70)
}

fn is_space(c: char) -> (r: bool)
    ensures
        r == spec_is_space(c),
{
    let u = c as u32;
    (9 <= u && u <= 13) || u == 32 || u == 0x85 || u == 0xA0 || u == 0x1680 || (0x2000 <= u && u
        <= 0x200A) || u == 0x2028 || u == 0x2029 || u == 0x202F || u == 0x205F || u == 0x3000
}

fn hex_pair(v: &Vec<char>, i: usize) -> (r: bool)
    ensures
        r == spec_hex_pair_at(v@, i as int),
{
    if i >= v.len() || v.len() - i < 2 {
        return false;
    }
    is_hex_digit(v[i]) && is_hex_digit(v[i + 1])
}

fn groups_then_dot(v: &Vec<char>, i: usize, k: u8) -> (r: bool)
    requires
        i <= v.len(),
    ensures
        r == spec_groups_then_dot(v@, i as int, k as nat),
    decreases k,
{
    if k == 0 {
        return i < v.len() && v[i] == '.';
    }
    if !hex_pair(v, i) {
        proof {
            assert forall|j: int| !spec_group_spans(v@, i as int, j) by {}
        }
        return false;
    }
    if groups_then_dot(v, i + 2, k - 1) {
        proof {
            assert(spec_group_spans(v@, i as int, i + 2) && spec_groups_then_dot(
                v@,
                i + 2,
                (k - 1) as nat,
            ));
        }
        return true;
    }
    if i + 2 < v.len() && v[i + 2] == ':' && groups_then_dot(v, i + 3, k - 1) {
        proof {
            assert(spec_group_spans(v@, i as int, i + 3) && spec_groups_then_dot(
                v@,
                i + 3,
                (k - 1) as nat,
            ));
        }
        return true;
    }
    if hex_pair(v, i + 2) {
        if groups_then_dot(v, i + 4, k - 1) {
            proof {
                assert(spec_group_spans(v@, i as int, i + 4) && spec_groups_then_dot(
                    v@,
                    i + 4,
                    (k - 1) as nat,
                ));
            }
            return true;
        }
        if i + 4 < v.len() && v[i + 4] == ':' && groups_then_dot(v, i + 5, k - 1) {
            proof {
                assert(spec_group_spans(v@, i as int, i + 5) && spec_groups_then_dot(
                    v@,
                    i + 5,
                    (k - 1) as nat,
                ));
            }
            return true;
        }
    }
    proof {
        assert forall|j: int|
            spec_group_spans(v@, i as int, j) implies !spec_groups_then_dot(
            v@,
            j,
            (k - 1) as nat,
        ) by {
            assert(j == i + 2 || j == i + 3 || j == i + 4 || j == i + 5);
        }
    }
    false
}

/// Searches the descriptor for a usb bus-path match.
fn usb_descriptor_matches(description: &str) -> (r: bool)
    ensures
        r == spec_usb_descriptor(description@),
{
    let v = crate::strutil::chars_of(description);
    let n = v.len();
    let mut i: usize = 0;
    while i < n
        invariant
            n == v@.len(),
            v@ == description@,
            i <= n,
            forall|ii: int| 0 <= ii < i ==> !spec_usb_match_at(v@, ii),
        decreases n - i,
    {
        if n - i >= 4 && v[i] == 'u' && v[i + 1] == 's' && v[i + 2] == 'b' && v[i + 3] == '-' {
            if groups_then_dot(&v, i + 4, 0) || groups_then_dot(&v, i + 4, 4) {
                proof {
                    assert(spec_usb_match_at(v@, i as int));
                }
                return true;
            }
        }
        i += 1;
    }
    proof {
        assert forall|ii: int| !spec_usb_match_at(description@, ii) by {}
    }
    false
}

/// Searches the descriptor for a legacy platform match.
fn legacy_platform_matches(description: &str) -> (r: bool)
    ensures
        r == spec_legacy_platform_descriptor(description@),
{
    let v = crate::strutil::chars_of(description);
    let n = v.len();
    let mut i: usize = 0;
    while i < n
        invariant
            n == v@.len(),
            v@ == description@,
            i <= n,
            forall|ii: int, j: int| 0 <= ii < i ==> !spec_platform_match_span(v@, ii, j),
        decreases n - i,
    {
        if n - i >= 9 && v[i] == 'p' && v[i + 1] == 'l' && v[i + 2] == 'a' && v[i + 3] == 't' && v[i
            + 4] == 'f' && v[i + 5] == 'o' && v[i + 6] == 'r' && v[i + 7] == 'm' && v[i + 8]
            == ':' {
            let p = i + 9;
            let mut q: usize = p;
            while q < n
                invariant_except_break
                    n == v@.len(),
                    v@ == description@,
                    p == i + 9,
                    spec_platform_prefix_at(v@, i as int),
                    p <= q <= n,
                    forall|k: int| p <= k < q ==> !spec_is_space(v@[k]),
                    forall|j: int| p < j <= q ==> !spec_v4l2_tail_at(v@, j),
                ensures
                    forall|j: int| !spec_platform_match_span(v@, i as int, j),
                decreases n - q,
            {
                if is_space(v[q]) {
                    proof {
                        assert forall|j: int|
                            !spec_platform_match_span(v@, i as int, j) by {
                            if spec_platform_match_span(v@, i as int, j) {
                                if j > q {
                                    assert(!spec_is_space(v@[q as int]));
                                } else {
                                    assert(!spec_v4l2_tail_at(v@, j));
                                }
                            }
                        }
                    }
                    break;
                }
                if v4l2_tail(&v, q + 1) {
                    proof {
                        assert(spec_platform_match_span(v@, i as int, q + 1));
                    }
                    return true;
                }
                q += 1;
                if q == n {
                    proof {
                        assert forall|j: int|
                            !spec_platform_match_span(v@, i as int, j) by {
                            if spec_platform_match_span(v@, i as int, j) {
                                assert(j + 7 <= n);
                                assert(!spec_v4l2_tail_at(v@, j));
                            }
                        }
                    }
                    break;
                }
            }
        } else {
            proof {
                assert forall|j: int|
                    !spec_platform_match_span(v@, i as int, j) by {}
            }
        }
        i += 1;
    }
    proof {
        assert forall|ii: int, j: int| !spec_platform_match_span(description@, ii, j) by {}
    }
    false
}

/// Checks for `-v4l2-` plus a digit at position `j`.
fn v4l2_tail(v: &Vec<char>, j: usize) -> (r: bool)
    ensures
        r == spec_v4l2_tail_at(v@, j as int),
{
    if j >= v.len() || v.len() - j < 7 {
        return false;
    }
    let d = v[j + 6] as u32;
    v[j] == '-' && v[j + 1] == 'v' && v[j + 2] == '4' && v[j + 3] == 'l' && v[j + 4] == '2' && v[j
        + 5] == '-' && 48 <= d && d <= 57
}

impl VideoSourceLocalType {
    /// Classifies a hardware-reported bus descriptor: the usb bus-path
    /// grammar is tried first, then the legacy platform grammar; a
    /// descriptor matching neither is `Unknown`.
    pub fn from_str(description: &str) -> (r: VideoSourceLocalType)
        ensures
            spec_usb_descriptor(description@) ==> (r matches VideoSourceLocalType::Usb(d) && d@
                == description@),
            !spec_usb_descriptor(description@) && spec_legacy_platform_descriptor(description@)
                ==> (r matches VideoSourceLocalType::LegacyRpiCam(d) && d@ == description@),
            !spec_usb_descriptor(description@) && !spec_legacy_platform_descriptor(description@)
                ==> (r matches VideoSourceLocalType::Unknown(d) && d@ == description@),
    {
        if let Some(result) = Self::usb_from_str(description) {
            return result;
        }
        if let Some(result) = Self::v4l2_from_str(description) {
            return result;
        }
        VideoSourceLocalType::Unknown(String::from_str(description))
    }

    /// Tries the usb bus-path grammar.
    fn usb_from_str(description: &str) -> (r: Option<VideoSourceLocalType>)
        ensures
            r is Some <==> spec_usb_descriptor(description@),
            r matches Some(t) ==> (t matches VideoSourceLocalType::Usb(d) && d@ == description@),
    {
        if usb_descriptor_matches(description) {
            Some(VideoSourceLocalType::Usb(String::from_str(description)))
        } else {
            None
        }
    }

    /// Tries the legacy platform grammar.
    fn v4l2_from_str(description: &str) -> (r: Option<VideoSourceLocalType>)
        ensures
            r is Some <==> spec_legacy_platform_descriptor(description@),
            r matches Some(t) ==> (t matches VideoSourceLocalType::LegacyRpiCam(d) && d@
                == description@),
    {
        if legacy_platform_matches(description) {
            Some(VideoSourceLocalType::LegacyRpiCam(String::from_str(description)))
        } else {
            None
        }
    }

    /// The one unclassifiable descriptor that is expected and harmless: an
    /// internal ISP node that is always present and never user-selectable.
    /// Its classification failure is reported at trace rather than warning
    /// severity.
    pub fn is_benign_unknown(description: &str) -> (r: bool)
        ensures
            r == (description@ == "platform:bcm2835-isp"@),
    {
        crate::strutil::str_eq(description, "platform:bcm2835-isp")
    }

    /// A copy of the connection type that contracts can see through.
    pub fn duplicate(&self) -> (r: VideoSourceLocalType)
        ensures
            r@ == self@,
    {
        match self {
            VideoSourceLocalType::Unknown(d) => VideoSourceLocalType::Unknown(d.clone()),
            VideoSourceLocalType::Usb(d) => VideoSourceLocalType::Usb(d.clone()),
            VideoSourceLocalType::LegacyRpiCam(d) => VideoSourceLocalType::LegacyRpiCam(d.clone()),
        }
    }
}

/// Whether a discovered source is a local usb device on the given bus.
pub open spec fn spec_usb_bus_matches(cam: VideoSourceType, bus: Seq<char>) -> bool {
    cam matches VideoSourceType::Local(l) && l.typ matches VideoSourceLocalType::Usb(b) && b@
        == bus
}

/// The first discovered source that is a local usb device on the given bus.
pub open spec fn spec_find_first_usb(cams: Seq<VideoSourceType>, bus: Seq<char>) -> Option<
    VideoSourceLocal,
>
    decreases cams.len(),
{
    if cams.len() == 0 {
        None
    } else if spec_usb_bus_matches(cams[0], bus) {
        match cams[0] {
            VideoSourceType::Local(l) => Some(l),
            _ => None,
        }
    } else {
        spec_find_first_usb(cams.drop_first(), bus)
    }
}

proof fn lemma_find_first_usb_skip(cams: Seq<VideoSourceType>, bus: Seq<char>, i: int)
    requires
        0 <= i <= cams.len(),
        forall|k: int| 0 <= k < i ==> !spec_usb_bus_matches(cams[k], bus),
    ensures
        spec_find_first_usb(cams, bus) == spec_find_first_usb(cams.subrange(i, cams.len() as int), bus),
    decreases i,
{
    if i > 0 {
        lemma_find_first_usb_skip(cams, bus, i - 1);
        let rest = cams.subrange(i - 1, cams.len() as int);
        assert(rest.drop_first() =~= cams.subrange(i, cams.len() as int));
    } else {
        assert(cams.subrange(0, cams.len() as int) =~= cams);
    }
}

impl VideoSourceLocal {
    /// A copy of the source that contracts can see through.
    pub fn duplicate(&self) -> (r: VideoSourceLocal)
        ensures
            r@ == self@,
    {
        VideoSourceLocal {
            name: self.name.clone(),
            device_path: self.device_path.clone(),
            typ: self.typ.duplicate(),
        }
    }

    /// Reconciles a usb source with a freshly discovered camera list, because
    /// the OS can renumber device paths between calls. The source is matched
    /// by connection descriptor, not by path: no match marks the source
    /// invalid (path cleared) and returns false; a match with a differing
    /// path replaces the source in place; a match with the same path leaves
    /// it untouched. Non-usb sources are left untouched.
    pub fn update_device(&mut self, cameras: &Vec<VideoSourceType>) -> (r: bool)
        ensures
            !(old(self).typ matches VideoSourceLocalType::Usb(_)) ==> (r == true && *final(self)
                == *old(self)),
            old(self).typ matches VideoSourceLocalType::Usb(bus) ==> match spec_find_first_usb(
                cameras@,
                bus@,
            ) {
                Option::None => r == false && final(self)@.device_path =~= Seq::<char>::empty()
                    && final(self)@.name == old(self)@.name && final(self)@.typ == old(self)@.typ,
                Option::Some(cam) => r == true && (if cam.device_path@ == old(self).device_path@ {
                    *final(self) == *old(self)
                } else {
                    final(self)@ == cam@
                }),
            },
    {
        let our_usb_bus = match &self.typ {
            VideoSourceLocalType::Usb(b) => b.clone(),
            _ => {
                return true;
            },
        };
        let n = cameras.len();
        let mut i: usize = 0;
        while i < n
            invariant
                n == cameras@.len(),
                i <= n,
                old(self).typ matches VideoSourceLocalType::Usb(b) && b@ == our_usb_bus@,
                *self == *old(self),
                forall|k: int| 0 <= k < i ==> !spec_usb_bus_matches(cameras@[k], our_usb_bus@),
            decreases n - i,
        {
            let found = match &cameras[i] {
                VideoSourceType::Local(camera) => match &camera.typ {
                    VideoSourceLocalType::Usb(usb_bus) => crate::strutil::str_eq(
                        usb_bus.as_str(),
                        our_usb_bus.as_str(),
                    ),
                    _ => false,
                },
                _ => false,
            };
            if found {
                proof {
                    lemma_find_first_usb_skip(cameras@, our_usb_bus@, i as int);
                    assert(cameras@.subrange(i as int, n as int)[0] == cameras@[i as int]);
                }
                let camera = match &cameras[i] {
                    VideoSourceType::Local(camera) => camera,
                    _ => {
                        return true;
                    },
                };
                if crate::strutil::str_eq(camera.device_path.as_str(), self.device_path.as_str()) {
                    return true;
                }
                let replacement = camera.duplicate();
                *self = replacement;
                return true;
            }
            i += 1;
        }
        proof {
            lemma_find_first_usb_skip(cameras@, our_usb_bus@, n as int);
            assert(cameras@.subrange(n as int, n as int) =~= Seq::<VideoSourceType>::empty());
        }
        self.device_path = String::new();
        false
    }

    /// The device's display name.
    pub fn name(&self) -> (r: &String)
        ensures
            r@ == self.name@,
    {
        &self.name
    }

    /// The system path frames are captured from.
    pub fn source_string(&self) -> (r: &str)
        ensures
            r@ == self.device_path@,
    {
        self.device_path.as_str()
    }

    /// A source is valid while it has a device path; reconciliation clears the
    /// path of a source that has disappeared.
    pub fn is_valid(&self) -> (r: bool)
        ensures
            r == (self.device_path@.len() != 0),
    {
        !self.device_path.as_str().is_empty()
    }

    /// Whether several streams may capture from this source at once.
    pub fn is_shareable(&self) -> (r: bool)
        ensures
            r == false,
    {
        false
    }
}

} // verus!
