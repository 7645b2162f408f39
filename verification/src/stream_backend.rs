//! The stream lifecycle contract, the configuration validator, and the
//! creation of a stream backend from a validated configuration.
use vstd::prelude::*;

use crate::pipeline_builder::{
    spec_encode, spec_new_error_matches, spec_pipeline_description, spec_pipeline_ok,
    spec_sink_buildable, spec_source_supported,
};
use crate::stream_types::{
    CaptureConfiguration, StreamEndpoint, StreamError, ValidationError, VideoAndStreamInformation,
};
use crate::strutil::{chars_of, string_eq_str};
use crate::video_types::{EncodeModel, VideoEncodeType, VideoSourceType};
use crate::video_stream_redirect::VideoStreamRedirect;
use crate::video_stream_rtsp::VideoStreamRtsp;
use crate::video_stream_udp::VideoStreamUdp;

verus! {

/// The lifecycle contract every stream backend honours: `start` and `stop`
/// are idempotent, `restart` leaves the stream running, and the synthesized
/// pipeline description is preserved across lifecycle calls.
pub trait StreamBackend: Sized {
    /// Whether the stream is currently running.
    spec fn spec_is_running(&self) -> bool;

    /// The synthesized pipeline description the backend owns.
    spec fn spec_pipeline(&self) -> Seq<char>;

    /// Starts the stream. Idempotent: an already-running stream is left
    /// untouched and its status is returned without side effects.
    fn start(&mut self) -> (r: bool)
        ensures
            final(self).spec_is_running(),
            r == true,
            final(self).spec_pipeline() == old(self).spec_pipeline(),
            old(self).spec_is_running() ==> *final(self) == *old(self),
    ;

    /// Stops the stream, reporting whether a running instance was actually
    /// stopped. Idempotent: stopping a stopped stream has no side effects.
    fn stop(&mut self) -> (r: bool)
        ensures
            !final(self).spec_is_running(),
            r == old(self).spec_is_running(),
            final(self).spec_pipeline() == old(self).spec_pipeline(),
            !old(self).spec_is_running() ==> *final(self) == *old(self),
    ;

    /// Whether the stream is currently running.
    fn is_running(&self) -> (r: bool)
        ensures
            r == self.spec_is_running(),
    ;

    /// Stops then starts the stream; callers observe a brief unavailability
    /// window.
    fn restart(&mut self)
        ensures
            final(self).spec_is_running(),
            final(self).spec_pipeline() == old(self).spec_pipeline(),
    ;

    /// The synthesized description, for introspection and testing.
    fn pipeline(&self) -> (r: String)
        ensures
            r@ == self.spec_pipeline(),
    ;

    /// Whether two simultaneous instances may target the same destination.
    fn allow_same_endpoints(&self) -> (r: bool)
        ensures
            r == false,
    ;
}

/// A stream backend, variant by transport kind.
#[allow(non_camel_case_types)]
#[derive(Clone, Debug, PartialEq)]
pub enum StreamType {
    UDP(VideoStreamUdp),
    RTSP(VideoStreamRtsp),
    REDIRECT(VideoStreamRedirect),
}

/// The endpoint list of a configuration.
pub open spec fn spec_endpoints(info: &VideoAndStreamInformation) -> Seq<StreamEndpoint> {
    info.stream_information.endpoints@
}

/// The scheme of the first endpoint.
pub open spec fn spec_first_scheme(info: &VideoAndStreamInformation) -> Seq<char>
    recommends
        spec_endpoints(info).len() > 0,
{
    spec_endpoints(info)[0].scheme@
}

/// Whether the source only forwards an externally produced stream.
pub open spec fn spec_is_redirect_source(info: &VideoAndStreamInformation) -> bool {
    info.video_source matches VideoSourceType::Redirect(_)
}

/// Whether every endpoint carries the same scheme as the first.
pub open spec fn spec_all_schemes_equal(eps: Seq<StreamEndpoint>) -> bool {
    forall|i: int| 0 <= i < eps.len() ==> (#[trigger] eps[i]).scheme@ == eps[0].scheme@
}

/// The endpoint-stage acceptance: a non-empty list sharing one scheme.
pub open spec fn spec_endpoints_ok(info: &VideoAndStreamInformation) -> bool {
    &&& spec_endpoints(info).len() > 0
    &&& spec_all_schemes_equal(spec_endpoints(info))
}

/// Which reject the endpoint stage reports.
pub open spec fn spec_endpoints_error_matches(
    info: &VideoAndStreamInformation,
    e: ValidationError,
) -> bool {
    if spec_endpoints(info).len() == 0 {
        e == ValidationError::EmptyEndpoints
    } else {
        e == ValidationError::MixedSchemes
    }
}

/// The encode-stage acceptance: redirect configurations always pass; video
/// configurations accept only H264, YUYV and MJPG.
pub open spec fn spec_encode_ok(info: &VideoAndStreamInformation) -> bool {
    ||| info.stream_information.configuration matches CaptureConfiguration::REDIRECT
    ||| crate::pipeline_builder::spec_encode_supported(spec_encode(info))
}

/// Which reject the encode stage reports.
pub open spec fn spec_encode_error_matches(
    info: &VideoAndStreamInformation,
    e: ValidationError,
) -> bool {
    match spec_encode(info) {
        EncodeModel::UNKNOWN(name) => e matches ValidationError::UnknownEncode(n) && n@ == name,
        _ => e matches ValidationError::UnsupportedEncode(v) && v@ == spec_encode(info),
    }
}

/// The schemes a redirect source may forward to.
pub open spec fn spec_redirect_scheme_ok(s: Seq<char>) -> bool {
    s == "udp"@ || s == "udp265"@ || s == "rtsp"@ || s == "mpegts"@ || s == "tcp"@
}

/// Whether every endpoint carries both a host and a port.
pub open spec fn spec_all_endpoints_have_host_and_port(eps: Seq<StreamEndpoint>) -> bool {
    forall|i: int| 0 <= i < eps.len() ==> (#[trigger] eps[i]).host is Some && eps[i].port is Some
}

/// The scheme-stage acceptance. Redirect sources take the redirect scheme
/// set; capture sources take rtsp (one endpoint), udp (no H265, endpoints
/// complete) or udp265 (H265 only).
pub open spec fn spec_scheme_ok(info: &VideoAndStreamInformation) -> bool
    recommends
        spec_endpoints(info).len() > 0,
{
    let scheme = spec_first_scheme(info);
    if spec_is_redirect_source(info) {
        spec_redirect_scheme_ok(scheme)
    } else if scheme == "rtsp"@ {
        spec_endpoints(info).len() <= 1
    } else if scheme == "udp"@ {
        !(spec_encode(info) is H265) && spec_all_endpoints_have_host_and_port(spec_endpoints(info))
    } else if scheme == "udp265"@ {
        spec_encode(info) is H265
    } else {
        false
    }
}

/// Which reject the scheme stage reports.
pub open spec fn spec_scheme_error_matches(
    info: &VideoAndStreamInformation,
    e: ValidationError,
) -> bool {
    let scheme = spec_first_scheme(info);
    if spec_is_redirect_source(info) {
        e matches ValidationError::UnsupportedRedirectScheme(s) && s@ == scheme
    } else if scheme == "rtsp"@ {
        e == ValidationError::MultipleRtspEndpoints
    } else if scheme == "udp"@ {
        if spec_encode(info) is H265 {
            e == ValidationError::UdpWithH265
        } else {
            e == ValidationError::UdpEndpointMissingHostOrPort
        }
    } else if scheme == "udp265"@ {
        e matches ValidationError::Udp265WithoutH265(v) && v@ == spec_encode(info)
    } else {
        e matches ValidationError::UnsupportedScheme(s) && s@ == scheme
    }
}

/// All three validation stages together.
pub open spec fn spec_validate_ok(info: &VideoAndStreamInformation) -> bool {
    &&& spec_endpoints_ok(info)
    &&& spec_encode_ok(info)
    &&& spec_scheme_ok(info)
}

/// The five scheme words the rules compare against are pairwise distinct.
pub proof fn lemma_scheme_literals_distinct()
    ensures
        "udp"@ != "rtsp"@,
        "udp"@ != "udp265"@,
        "udp"@ != "mpegts"@,
        "udp"@ != "tcp"@,
        "rtsp"@ != "udp265"@,
        "rtsp"@ != "mpegts"@,
        "rtsp"@ != "tcp"@,
        "udp265"@ != "mpegts"@,
        "udp265"@ != "tcp"@,
        "mpegts"@ != "tcp"@,
{
    reveal_strlit("udp");
    reveal_strlit("rtsp");
    reveal_strlit("udp265");
    reveal_strlit("mpegts");
    reveal_strlit("tcp");
    assert("udp"@.len() == 3);
    assert("rtsp"@.len() == 4);
    assert("udp265"@.len() == 6);
    assert("mpegts"@.len() == 6);
    assert("tcp"@.len() == 3);
    assert("udp"@[0] == 'u');
    assert("tcp"@[0] == 't');
    assert("udp265"@[0] == 'u');
    assert("mpegts"@[0] == 'm');
}

/// Rejects an empty endpoint list and endpoints with differing schemes.
pub fn check_endpoints(info: &VideoAndStreamInformation) -> (r: Result<(), ValidationError>)
    ensures
        r is Ok <==> spec_endpoints_ok(info),
        r matches Err(e) ==> spec_endpoints_error_matches(info, e),
{
    let endpoints = &info.stream_information.endpoints;
    if endpoints.len() == 0 {
        return Err(ValidationError::EmptyEndpoints);
    }
    let n = endpoints.len();
    let mut i: usize = 0;
    while i < n
        invariant
            n == endpoints@.len(),
            n > 0,
            i <= n,
            endpoints@ == spec_endpoints(info),
            forall|k: int| 0 <= k < i ==> (#[trigger] endpoints@[k]).scheme@
                == endpoints@[0].scheme@,
        decreases n - i,
    {
        if !crate::strutil::str_eq(endpoints[i].scheme.as_str(), endpoints[0].scheme.as_str()) {
            return Err(ValidationError::MixedSchemes);
        }
        i += 1;
    }
    Ok(())
}

/// Rejects video configurations whose encode is not H264, YUYV or MJPG;
/// redirect configurations impose no encode constraint.
pub fn check_encode(info: &VideoAndStreamInformation) -> (r: Result<(), ValidationError>)
    ensures
        r is Ok <==> spec_encode_ok(info),
        r matches Err(e) ==> spec_encode_error_matches(info, e),
{
    let encode = match &info.stream_information.configuration {
        CaptureConfiguration::VIDEO(configuration) => &configuration.encode,
        CaptureConfiguration::REDIRECT => {
            return Ok(());
        },
    };
    match encode {
        VideoEncodeType::UNKNOWN(name) => Err(ValidationError::UnknownEncode(name.clone())),
        VideoEncodeType::H264 | VideoEncodeType::YUYV | VideoEncodeType::MJPG => Ok(()),
        _ => Err(ValidationError::UnsupportedEncode(encode.duplicate())),
    }
}

/// Applies the scheme policy of the compatibility matrix: redirect sources
/// take the redirect scheme set; capture sources take rtsp, udp or udp265
/// with their side conditions.
pub fn check_scheme(info: &VideoAndStreamInformation) -> (r: Result<(), ValidationError>)
    requires
        spec_endpoints(info).len() > 0,
    ensures
        r is Ok <==> spec_scheme_ok(info),
        r matches Err(e) ==> spec_scheme_error_matches(info, e),
{
    let endpoints = &info.stream_information.endpoints;
    let encode = match &info.stream_information.configuration {
        CaptureConfiguration::VIDEO(configuration) => configuration.encode.duplicate(),
        CaptureConfiguration::REDIRECT => VideoEncodeType::UNKNOWN(String::new()),
    };
    let scheme = &endpoints[0].scheme;
    if matches!(&info.video_source, VideoSourceType::Redirect(_)) {
        if string_eq_str(scheme, "udp") || string_eq_str(scheme, "udp265") || string_eq_str(
            scheme,
            "rtsp",
        ) || string_eq_str(scheme, "mpegts") || string_eq_str(scheme, "tcp") {
            Ok(())
        } else {
            Err(ValidationError::UnsupportedRedirectScheme(scheme.clone()))
        }
    } else if string_eq_str(scheme, "rtsp") {
        if endpoints.len() > 1 {
            Err(ValidationError::MultipleRtspEndpoints)
        } else {
            Ok(())
        }
    } else if string_eq_str(scheme, "udp") {
        if matches!(&encode, VideoEncodeType::H265) {
            return Err(ValidationError::UdpWithH265);
        }
        let n = endpoints.len();
        let mut i: usize = 0;
        while i < n
            invariant
                n == endpoints@.len(),
                n > 0,
                i <= n,
                endpoints@ == spec_endpoints(info),
                !spec_is_redirect_source(info),
                spec_first_scheme(info) == "udp"@,
                spec_first_scheme(info) != "rtsp"@,
                !(spec_encode(info) is H265),
                forall|k: int| 0 <= k < i ==> (#[trigger] endpoints@[k]).host is Some
                    && endpoints@[k].port is Some,
            decreases n - i,
        {
            if endpoints[i].host.is_none() || endpoints[i].port.is_none() {
                return Err(ValidationError::UdpEndpointMissingHostOrPort);
            }
            i += 1;
        }
        Ok(())
    } else if string_eq_str(scheme, "udp265") {
        if !matches!(&encode, VideoEncodeType::H265) {
            Err(ValidationError::Udp265WithoutH265(encode))
        } else {
            Ok(())
        }
    } else {
        Err(ValidationError::UnsupportedScheme(scheme.clone()))
    }
}

/// Whether a path consists of exactly one segment: a leading slash and no
/// further slash.
pub open spec fn spec_one_path_segment(path: Seq<char>) -> bool {
    &&& path.len() >= 1
    &&& path[0] == '/'
    &&& forall|i: int| 1 <= i < path.len() ==> path[i] != '/'
}

/// Checks that a path consists of exactly one segment.
fn one_path_segment(path: &str) -> (r: bool)
    ensures
        r == spec_one_path_segment(path@),
{
    let v = chars_of(path);
    if v.len() == 0 {
        return false;
    }
    if v[0] != '/' {
        return false;
    }
    let n = v.len();
    let mut i: usize = 1;
    while i < n
        invariant
            n == v@.len(),
            v@ == path@,
            1 <= i <= n,
            forall|k: int| 1 <= k < i ==> v@[k] != '/',
        decreases n - i,
    {
        if v[i] == '/' {
            return false;
        }
        i += 1;
    }
    true
}

/// What creation may do once validation has passed, per transport kind.
pub open spec fn spec_create_ok(info: &VideoAndStreamInformation) -> bool
    recommends
        spec_endpoints(info).len() > 0,
{
    if spec_is_redirect_source(info) {
        true
    } else if spec_first_scheme(info) == "udp"@ {
        spec_pipeline_ok(info)
    } else if spec_first_scheme(info) == "rtsp"@ {
        &&& spec_endpoints(info)[0].port == Some(8554u16)
        &&& spec_one_path_segment(spec_endpoints(info)[0].path@)
        &&& spec_pipeline_ok(info)
    } else {
        false
    }
}

/// Which backend a successful creation returns, and what it owns.
pub open spec fn spec_stream_matches(info: &VideoAndStreamInformation, s: StreamType) -> bool
    recommends
        spec_endpoints(info).len() > 0,
{
    if spec_is_redirect_source(info) {
        s matches StreamType::REDIRECT(v) && v.scheme@ == spec_first_scheme(info) && !v.running
    } else if spec_first_scheme(info) == "udp"@ {
        s matches StreamType::UDP(v) && v.pipeline_description@ == spec_pipeline_description(info)
            && !v.running
    } else {
        s matches StreamType::RTSP(v) && v.pipeline_description@ == spec_pipeline_description(info)
            && v.endpoint_path@ == spec_endpoints(info)[0].path@ && !v.running
    }
}

/// Which error creation reports once validation has passed.
pub open spec fn spec_create_error_matches(
    info: &VideoAndStreamInformation,
    e: StreamError,
) -> bool
    recommends
        spec_endpoints(info).len() > 0,
{
    if spec_is_redirect_source(info) {
        false
    } else if spec_first_scheme(info) == "udp"@ {
        e matches StreamError::Pipeline(pe) && spec_new_error_matches(info, pe)
    } else if spec_first_scheme(info) == "rtsp"@ {
        if spec_endpoints(info)[0].port != Some(8554u16) {
            e == StreamError::Validation(ValidationError::RtspPortMismatch)
        } else if !spec_one_path_segment(spec_endpoints(info)[0].path@) {
            e matches StreamError::Validation(ValidationError::RtspPathSegments(p)) && p@
                == spec_endpoints(info)[0].path@
        } else {
            e matches StreamError::Pipeline(pe) && spec_new_error_matches(info, pe)
        }
    } else {
        e matches StreamError::Validation(ValidationError::UnsupportedScheme(s)) && s@
            == spec_first_scheme(info)
    }
}

/// Creates a UDP stream backend around a synthesized pipeline.
pub fn create_udp_stream(info: &VideoAndStreamInformation) -> (r: Result<StreamType, StreamError>)
    requires
        spec_sink_buildable(info),
    ensures
        r is Ok <==> spec_pipeline_ok(info),
        r matches Ok(s) ==> (s matches StreamType::UDP(v) && v.pipeline_description@
            == spec_pipeline_description(info) && !v.running),
        r matches Err(e) ==> (e matches StreamError::Pipeline(pe) && spec_new_error_matches(
            info,
            pe,
        )),
{
    match VideoStreamUdp::new(info) {
        Ok(v) => Ok(StreamType::UDP(v)),
        Err(e) => Err(StreamError::Pipeline(e)),
    }
}

/// Creates an RTSP stream backend: the endpoint must carry the rtsp scheme,
/// the fixed RTSP port 8554, and a one-segment path.
pub fn create_rtsp_stream(info: &VideoAndStreamInformation) -> (r: Result<StreamType, StreamError>)
    requires
        spec_endpoints(info).len() > 0,
    ensures
        r is Ok <==> (spec_first_scheme(info) == "rtsp"@ && spec_endpoints(info)[0].port == Some(
            8554u16,
        ) && spec_one_path_segment(spec_endpoints(info)[0].path@) && spec_pipeline_ok(info)),
        r matches Ok(s) ==> (s matches StreamType::RTSP(v) && v.pipeline_description@
            == spec_pipeline_description(info) && v.endpoint_path@ == spec_endpoints(
            info,
        )[0].path@ && !v.running),
        r matches Err(e) ==> spec_rtsp_error_matches(info, e),
{
    let endpoint = &info.stream_information.endpoints[0];
    if !string_eq_str(&endpoint.scheme, "rtsp") {
        return Err(
            StreamError::Validation(ValidationError::RtspSchemeMismatch(endpoint.scheme.clone())),
        );
    }
    let port_is_8554 = match endpoint.port {
        Some(p) => p == 8554,
        None => false,
    };
    if !port_is_8554 {
        return Err(StreamError::Validation(ValidationError::RtspPortMismatch));
    }
    if !one_path_segment(endpoint.path.as_str()) {
        return Err(
            StreamError::Validation(ValidationError::RtspPathSegments(endpoint.path.clone())),
        );
    }
    proof {
        lemma_scheme_literals_distinct();
        assert(spec_first_scheme(info) != "udp"@);
        assert(spec_sink_buildable(info));
    }
    match VideoStreamRtsp::new(info, endpoint.path.clone()) {
        Ok(v) => Ok(StreamType::RTSP(v)),
        Err(e) => Err(StreamError::Pipeline(e)),
    }
}

/// Which error RTSP creation reports.
pub open spec fn spec_rtsp_error_matches(info: &VideoAndStreamInformation, e: StreamError) -> bool
    recommends
        spec_endpoints(info).len() > 0,
{
    if spec_first_scheme(info) != "rtsp"@ {
        e matches StreamError::Validation(ValidationError::RtspSchemeMismatch(s)) && s@
            == spec_first_scheme(info)
    } else if spec_endpoints(info)[0].port != Some(8554u16) {
        e == StreamError::Validation(ValidationError::RtspPortMismatch)
    } else if !spec_one_path_segment(spec_endpoints(info)[0].path@) {
        e matches StreamError::Validation(ValidationError::RtspPathSegments(p)) && p@
            == spec_endpoints(info)[0].path@
    } else {
        e matches StreamError::Pipeline(pe) && spec_new_error_matches(info, pe)
    }
}

/// Creates a redirect stream backend owning the validated scheme.
pub fn create_redirect_stream(info: &VideoAndStreamInformation) -> (r: Result<
    StreamType,
    StreamError,
>)
    requires
        spec_endpoints(info).len() > 0,
    ensures
        r matches Ok(s) && (s matches StreamType::REDIRECT(v) && v.scheme@ == spec_first_scheme(
            info,
        ) && !v.running),
{
    let endpoint = &info.stream_information.endpoints[0];
    match VideoStreamRedirect::new(endpoint.scheme.clone()) {
        Ok(v) => Ok(StreamType::REDIRECT(v)),
        Err(e) => Err(StreamError::Pipeline(e)),
    }
}

/// Dispatches creation by source kind and scheme. The scheme is expected to
/// have been validated already.
pub fn create_stream(info: &VideoAndStreamInformation) -> (r: Result<StreamType, StreamError>)
    requires
        spec_endpoints(info).len() > 0,
        !spec_is_redirect_source(info) && spec_first_scheme(info) == "udp"@
            ==> spec_all_endpoints_have_host_and_port(spec_endpoints(info)),
    ensures
        r is Ok <==> spec_create_ok(info),
        r matches Ok(s) ==> spec_stream_matches(info, s),
        r matches Err(e) ==> spec_create_error_matches(info, e),
{
    if matches!(&info.video_source, VideoSourceType::Redirect(_)) {
        create_redirect_stream(info)
    } else {
        let scheme = &info.stream_information.endpoints[0].scheme;
        if string_eq_str(scheme, "udp") {
            create_udp_stream(info)
        } else if string_eq_str(scheme, "rtsp") {
            proof {
                reveal_strlit("rtsp");
                reveal_strlit("udp");
            }
            create_rtsp_stream(info)
        } else {
            Err(StreamError::Validation(ValidationError::UnsupportedScheme(scheme.clone())))
        }
    }
}

/// Totality of synthesis over accepted inputs: every configuration that
/// passes all three validation stages, carries a video configuration, and
/// names a source a capture element exists for, is synthesizable — the
/// pipeline builder succeeds and never reaches its internal-consistency
/// fault. (A redirect configuration passes validation but takes the redirect
/// path instead of synthesis; a local source whose connection type stayed
/// unclassified has no capture element.)
pub proof fn lemma_validated_video_configuration_synthesizes(info: &VideoAndStreamInformation)
    requires
        spec_validate_ok(info),
        info.stream_information.configuration matches CaptureConfiguration::VIDEO(_),
        spec_source_supported(info),
    ensures
        spec_pipeline_ok(info),
        spec_sink_buildable(info),
{
    lemma_scheme_literals_distinct();
}

/// A video configuration requesting H265 over the udp scheme is always
/// rejected: the encode stage refuses H265 outright, and for a capture
/// source the scheme stage refuses the pairing as well (udp265 must be
/// used instead).
pub proof fn lemma_h265_udp_always_rejected(info: &VideoAndStreamInformation)
    requires
        spec_endpoints(info).len() > 0,
        info.stream_information.configuration matches CaptureConfiguration::VIDEO(c)
            && c.encode@ is H265,
        spec_first_scheme(info) == "udp"@,
    ensures
        !spec_encode_ok(info),
        !spec_validate_ok(info),
        !spec_is_redirect_source(info) ==> !spec_scheme_ok(info),
{
    lemma_scheme_literals_distinct();
}

/// A video configuration requesting H265 over the udp265 scheme always
/// passes the scheme stage, whatever the source kind (other validation
/// stages permitting).
pub proof fn lemma_h265_udp265_scheme_accepted(info: &VideoAndStreamInformation)
    requires
        spec_endpoints(info).len() > 0,
        info.stream_information.configuration matches CaptureConfiguration::VIDEO(c)
            && c.encode@ is H265,
        spec_first_scheme(info) == "udp265"@,
    ensures
        spec_scheme_ok(info),
{
    lemma_scheme_literals_distinct();
}

/// Which error stream creation as a whole reports: the first failing
/// validation stage's reject, then the creation-stage error.
pub open spec fn spec_stream_creation_error_matches(
    info: &VideoAndStreamInformation,
    e: StreamError,
) -> bool {
    if !spec_endpoints_ok(info) {
        e matches StreamError::Validation(v) && spec_endpoints_error_matches(info, v)
    } else if !spec_encode_ok(info) {
        e matches StreamError::Validation(v) && spec_encode_error_matches(info, v)
    } else if !spec_scheme_ok(info) {
        e matches StreamError::Validation(v) && spec_scheme_error_matches(info, v)
    } else {
        spec_create_error_matches(info, e)
    }
}

/// Validates a requested configuration against the compatibility matrix and,
/// on acceptance, creates the stream backend for it. Rejects are reported
/// before any resource is committed.
pub fn new(info: &VideoAndStreamInformation) -> (r: Result<StreamType, StreamError>)
    ensures
        r is Ok <==> (spec_validate_ok(info) && spec_create_ok(info)),
        r matches Ok(s) ==> spec_stream_matches(info, s),
        r matches Err(e) ==> spec_stream_creation_error_matches(info, e),
{
    match check_endpoints(info) {
        Ok(_) => (),
        Err(e) => {
            return Err(StreamError::Validation(e));
        },
    }
    match check_encode(info) {
        Ok(_) => (),
        Err(e) => {
            return Err(StreamError::Validation(e));
        },
    }
    match check_scheme(info) {
        Ok(_) => (),
        Err(e) => {
            return Err(StreamError::Validation(e));
        },
    }
    proof {
        lemma_scheme_literals_distinct();
    }
    create_stream(info)
}

} // verus!
