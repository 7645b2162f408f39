//! Synthesis of the media-pipeline description string for a validated stream
//! configuration: the ordered concatenation of a source, a transcode, a
//! payload and a sink segment.
use vstd::prelude::*;

use crate::stream_types::{
    CaptureConfiguration, PipelineError, StreamEndpoint, VideoAndStreamInformation,
    VideoCaptureConfiguration,
};
use crate::strutil::{append_dec_u32, spec_dec};
use crate::video_source_local::VideoSourceLocalType;
use crate::video_types::{EncodeModel, VideoEncodeType, VideoSourceGstType, VideoSourceType};

verus! {

/// A synthesized media-pipeline description.
#[derive(Clone, Debug, Default, PartialEq)]
pub struct Pipeline {
    pub description: String,
}

/// The requested encode, for a video configuration.
pub open spec fn spec_encode(info: &VideoAndStreamInformation) -> EncodeModel
    recommends
        info.stream_information.configuration matches CaptureConfiguration::VIDEO(_),
{
    match info.stream_information.configuration {
        CaptureConfiguration::VIDEO(c) => c.encode@,
        CaptureConfiguration::REDIRECT => EncodeModel::UNKNOWN(Seq::empty()),
    }
}

/// Whether the requested encode is one a payload segment exists for.
pub open spec fn spec_encode_supported(e: EncodeModel) -> bool {
    e is H264 || e is YUYV || e is MJPG
}

/// Whether a capture element exists for the source.
pub open spec fn spec_source_supported(info: &VideoAndStreamInformation) -> bool {
    match info.video_source {
        VideoSourceType::Gst(g) => g.source matches VideoSourceGstType::Fake(_),
        VideoSourceType::Local(l) => l.typ matches VideoSourceLocalType::Usb(_) || l.typ matches
            VideoSourceLocalType::LegacyRpiCam(_),
        VideoSourceType::Redirect(_) => false,
    }
}

/// Whether every segment of the pipeline can be synthesized.
pub open spec fn spec_pipeline_ok(info: &VideoAndStreamInformation) -> bool {
    &&& spec_source_supported(info)
    &&& info.stream_information.configuration matches CaptureConfiguration::VIDEO(_)
    &&& spec_encode_supported(spec_encode(info))
}

/// The pixel-format token of the capability descriptor. Synthetic sources
/// always advertise one fixed raw format (a transcode step follows); hardware
/// sources advertise the mime type of the requested encode, or a raw
/// sub-format for YUYV.
pub open spec fn spec_format_token(info: &VideoAndStreamInformation) -> Seq<char> {
    match info.video_source {
        VideoSourceType::Gst(_) => "video/x-raw,format=UYVY"@,
        _ => match spec_encode(info) {
            EncodeModel::H264 => "video/x-h264"@,
            EncodeModel::YUYV => "video/x-raw,format=YUY2"@,
            EncodeModel::MJPG => "image/jpeg"@,
            _ => Seq::empty(),
        },
    }
}

/// The capability descriptor: pixel-format token, width, height, and the
/// frame rate stated as `denominator/numerator` (the stored interval is
/// inverted to state a rate).
pub open spec fn spec_capability(info: &VideoAndStreamInformation) -> Seq<char>
    recommends
        info.stream_information.configuration matches CaptureConfiguration::VIDEO(_),
{
    match info.stream_information.configuration {
        CaptureConfiguration::VIDEO(c) => spec_format_token(info) + ",width="@ + spec_dec(
            c.width as nat,
        ) + ",height="@ + spec_dec(c.height as nat) + ",framerate="@ + spec_dec(
            c.frame_interval.denominator as nat,
        ) + "/"@ + spec_dec(c.frame_interval.numerator as nat),
        CaptureConfiguration::REDIRECT => Seq::empty(),
    }
}

/// The capture element of the source segment.
pub open spec fn spec_source_element(info: &VideoAndStreamInformation) -> Seq<char>
    recommends
        spec_source_supported(info),
{
    match info.video_source {
        VideoSourceType::Gst(g) => match g.source {
            VideoSourceGstType::Fake(pattern) => "videotestsrc pattern="@ + pattern@,
            _ => Seq::empty(),
        },
        VideoSourceType::Local(l) => "v4l2src device="@ + l.device_path@,
        VideoSourceType::Redirect(_) => Seq::empty(),
    }
}

/// The source segment: capture element plus capability descriptor.
pub open spec fn spec_source_segment(info: &VideoAndStreamInformation) -> Seq<char> {
    spec_source_element(info) + " ! "@ + spec_capability(info)
}

/// The transcode segment: present only when the source's native
/// representation does not already match the requested wire encoding.
pub open spec fn spec_transcode_segment(info: &VideoAndStreamInformation) -> Seq<char> {
    match info.video_source {
        VideoSourceType::Gst(_) => match spec_encode(info) {
            EncodeModel::H264 => " ! videoconvert ! x264enc bitrate=5000 ! video/x-h264,profile=baseline"@,
            EncodeModel::MJPG => " ! jpegenc"@,
            _ => Seq::empty(),
        },
        _ => match spec_encode(info) {
            EncodeModel::YUYV => " ! videoconvert ! video/x-raw,format=UYVY"@,
            _ => Seq::empty(),
        },
    }
}

/// The payload segment: the encode-specific packetizer, always named `pay0`.
pub open spec fn spec_payload_segment(info: &VideoAndStreamInformation) -> Seq<char>
    recommends
        spec_encode_supported(spec_encode(info)),
{
    match spec_encode(info) {
        EncodeModel::H264 => " ! h264parse ! queue ! rtph264pay name=pay0 config-interval=10 pt=96"@,
        EncodeModel::YUYV => " ! rtpvrawpay name=pay0 ! application/x-rtp,payload=96,sampling=YCbCr-4:2:2"@,
        EncodeModel::MJPG => " ! rtpjpegpay name=pay0 pt=96"@,
        _ => Seq::empty(),
    }
}

/// One `host:port` destination of the network sink.
pub open spec fn spec_client(e: StreamEndpoint) -> Seq<char>
    recommends
        e.host is Some,
        e.port is Some,
{
    (match e.host {
        Some(h) => h@,
        None => Seq::empty(),
    }) + ":"@ + spec_dec(
        (match e.port {
            Some(p) => p
            ,
            None => 0u16,
        }) as nat,
    )
}

/// The comma-joined `host:port` list of the first `n` endpoints.
pub open spec fn spec_clients_prefix(eps: Seq<StreamEndpoint>, n: int) -> Seq<char>
    recommends
        0 <= n <= eps.len(),
    decreases n,
{
    if n <= 0 {
        Seq::empty()
    } else if n == 1 {
        spec_client(eps[0])
    } else {
        spec_clients_prefix(eps, n - 1) + ","@ + spec_client(eps[n - 1])
    }
}

/// Whether the sink segment can be built without missing endpoint parts:
/// udp-scheme endpoints must all carry host and port.
pub open spec fn spec_sink_buildable(info: &VideoAndStreamInformation) -> bool {
    &&& info.stream_information.endpoints@.len() > 0
    &&& (info.stream_information.endpoints@[0].scheme@ == "udp"@ ==> forall|i: int|
        0 <= i < info.stream_information.endpoints@.len()
            ==> (#[trigger] info.stream_information.endpoints@[i]).host is Some
            && info.stream_information.endpoints@[i].port is Some)
}

/// The sink segment: a multi-destination network sink for udp-scheme
/// endpoints, empty for every other scheme (an external transport attaches).
pub open spec fn spec_sink_segment(info: &VideoAndStreamInformation) -> Seq<char>
    recommends
        spec_sink_buildable(info),
{
    let eps = info.stream_information.endpoints@;
    if eps[0].scheme@ == "udp"@ {
        " ! multiudpsink clients="@ + spec_clients_prefix(eps, eps.len() as int)
    } else {
        Seq::empty()
    }
}

/// The full pipeline description: source, transcode, payload, sink.
pub open spec fn spec_pipeline_description(info: &VideoAndStreamInformation) -> Seq<char> {
    spec_source_segment(info) + spec_transcode_segment(info) + spec_payload_segment(info)
        + spec_sink_segment(info)
}

impl Pipeline {
    /// Synthesizes the pipeline description for a validated configuration.
    /// Total over every validator-accepted video configuration on a supported
    /// source; any other input is an internal-consistency fault.
    pub fn new(info: &VideoAndStreamInformation) -> (r: Result<Pipeline, PipelineError>)
        requires
            spec_sink_buildable(info),
        ensures
            r is Ok <==> spec_pipeline_ok(info),
            r matches Ok(p) ==> p.description@ == spec_pipeline_description(info),
            r matches Err(e) ==> !spec_pipeline_ok(info) && spec_new_error_matches(info, e),
    {
        let source = match Self::build_pipeline_source(info) {
            Ok(s) => s,
            Err(e) => {
                return Err(e);
            },
        };
        let transcode = match Self::build_pipeline_transcode(info) {
            Ok(s) => s,
            Err(e) => {
                return Err(e);
            },
        };
        let payload = match Self::build_pipeline_payload(info) {
            Ok(s) => s,
            Err(e) => {
                return Err(e);
            },
        };
        let sink = Self::build_pipeline_sink(info);

        let mut description = source;
        description.append(transcode.as_str());
        description.append(payload.as_str());
        description.append(sink.as_str());
        proof {
            assert(description@ =~= spec_pipeline_description(info));
        }
        Ok(Pipeline { description })
    }

    /// The synthesized description, for introspection and testing.
    pub fn description(&self) -> (r: &String)
        ensures
            r@ == self.description@,
    {
        &self.description
    }

    /// Builds the capability descriptor of the source segment.
    fn build_capability_string(info: &VideoAndStreamInformation) -> (r: Result<
        String,
        PipelineError,
    >)
        ensures
            r is Ok <==> ((info.stream_information.configuration matches CaptureConfiguration::VIDEO(
                _,
            )) && ((info.video_source matches VideoSourceType::Gst(_)) || spec_encode_supported(
                spec_encode(info),
            ))),
            r matches Ok(s) ==> s@ == spec_capability(info),
            r matches Err(e) ==> spec_capability_error_matches(info, e),
    {
        let configuration = match Self::get_video_capture_configuration(info) {
            Ok(c) => c,
            Err(e) => {
                return Err(e);
            },
        };
        let format: &str = match &info.video_source {
            VideoSourceType::Gst(_) => "video/x-raw,format=UYVY",
            _ => match &configuration.encode {
                VideoEncodeType::H264 => "video/x-h264",
                VideoEncodeType::YUYV => "video/x-raw,format=YUY2",
                VideoEncodeType::MJPG => "image/jpeg",
                _ => {
                    return Err(PipelineError::UnsupportedEncode(configuration.encode.duplicate()));
                },
            },
        };
        let mut s = String::from_str(format);
        s.append(",width=");
        append_dec_u32(&mut s, configuration.width);
        s.append(",height=");
        append_dec_u32(&mut s, configuration.height);
        s.append(",framerate=");
        append_dec_u32(&mut s, configuration.frame_interval.denominator);
        s.append("/");
        append_dec_u32(&mut s, configuration.frame_interval.numerator);
        proof {
            assert(s@ =~= spec_capability(info));
        }
        Ok(s)
    }

    /// Builds the source segment: capture element plus capability descriptor.
    fn build_pipeline_source(info: &VideoAndStreamInformation) -> (r: Result<String, PipelineError>)
        ensures
            r is Ok <==> (spec_source_supported(info)
                && (info.stream_information.configuration matches CaptureConfiguration::VIDEO(_))
                && ((info.video_source matches VideoSourceType::Gst(_)) || spec_encode_supported(
                spec_encode(info),
            ))),
            r matches Ok(s) ==> s@ == spec_source_segment(info),
            r matches Err(e) ==> spec_source_error_matches(info, e),
    {
        let mut s: String = match &info.video_source {
            VideoSourceType::Gst(gst_source) => match &gst_source.source {
                VideoSourceGstType::Fake(pattern) => {
                    let mut t = String::from_str("videotestsrc pattern=");
                    t.append(pattern.as_str());
                    t
                },
                VideoSourceGstType::Local(_) => {
                    return Err(PipelineError::UnsupportedGstSource);
                },
            },
            VideoSourceType::Local(local_device) => match &local_device.typ {
                VideoSourceLocalType::Usb(_) | VideoSourceLocalType::LegacyRpiCam(_) => {
                    let mut t = String::from_str("v4l2src device=");
                    t.append(local_device.device_path.as_str());
                    t
                },
                VideoSourceLocalType::Unknown(_) => {
                    return Err(PipelineError::UnsupportedLocalSourceType);
                },
            },
            VideoSourceType::Redirect(_) => {
                return Err(PipelineError::UnsupportedSourceType);
            },
        };
        let capability = match Self::build_capability_string(info) {
            Ok(c) => c,
            Err(e) => {
                return Err(e);
            },
        };
        s.append(" ! ");
        s.append(capability.as_str());
        proof {
            assert(s@ =~= spec_source_segment(info));
        }
        Ok(s)
    }

    /// Builds the transcode segment, empty when the native representation
    /// already matches the requested wire encoding.
    fn build_pipeline_transcode(info: &VideoAndStreamInformation) -> (r: Result<
        String,
        PipelineError,
    >)
        ensures
            r is Ok <==> ((info.stream_information.configuration matches CaptureConfiguration::VIDEO(
                _,
            )) && !(info.video_source matches VideoSourceType::Redirect(_))),
            r matches Ok(s) ==> s@ == spec_transcode_segment(info),
            r matches Err(e) ==> spec_transcode_error_matches(info, e),
    {
        let configuration = match Self::get_video_capture_configuration(info) {
            Ok(c) => c,
            Err(e) => {
                return Err(e);
            },
        };
        let segment: &str = match &info.video_source {
            VideoSourceType::Gst(_) => match &configuration.encode {
                VideoEncodeType::H264 => {
                    " ! videoconvert ! x264enc bitrate=5000 ! video/x-h264,profile=baseline"
                },
                VideoEncodeType::MJPG => " ! jpegenc",
                _ => "",
            },
            VideoSourceType::Local(_) => match &configuration.encode {
                VideoEncodeType::YUYV => " ! videoconvert ! video/x-raw,format=UYVY",
                _ => "",
            },
            VideoSourceType::Redirect(_) => {
                return Err(PipelineError::UnsupportedSourceType);
            },
        };
        proof {
            reveal_strlit("");
            assert(""@ =~= Seq::<char>::empty());
        }
        Ok(String::from_str(segment))
    }

    /// Builds the payload segment: the encode-specific packetizer.
    fn build_pipeline_payload(info: &VideoAndStreamInformation) -> (r: Result<
        String,
        PipelineError,
    >)
        ensures
            r is Ok <==> ((info.stream_information.configuration matches CaptureConfiguration::VIDEO(
                _,
            )) && spec_encode_supported(spec_encode(info))),
            r matches Ok(s) ==> s@ == spec_payload_segment(info),
            r matches Err(e) ==> spec_payload_error_matches(info, e),
    {
        let configuration = match Self::get_video_capture_configuration(info) {
            Ok(c) => c,
            Err(e) => {
                return Err(e);
            },
        };
        let segment: &str = match &configuration.encode {
            VideoEncodeType::H264 => {
                " ! h264parse ! queue ! rtph264pay name=pay0 config-interval=10 pt=96"
            },
            VideoEncodeType::YUYV => {
                " ! rtpvrawpay name=pay0 ! application/x-rtp,payload=96,sampling=YCbCr-4:2:2"
            },
            VideoEncodeType::MJPG => " ! rtpjpegpay name=pay0 pt=96",
            _ => {
                return Err(PipelineError::UnsupportedEncode(configuration.encode.duplicate()));
            },
        };
        Ok(String::from_str(segment))
    }

    /// Builds the sink segment: a multi-destination network sink for
    /// udp-scheme endpoints, empty otherwise.
    fn build_pipeline_sink(info: &VideoAndStreamInformation) -> (r: String)
        requires
            spec_sink_buildable(info),
        ensures
            r@ == spec_sink_segment(info),
    {
        let endpoints = &info.stream_information.endpoints;
        if !crate::strutil::string_eq_str(&endpoints[0].scheme, "udp") {
            proof {
                reveal_strlit("");
                assert(""@ =~= Seq::<char>::empty());
            }
            return String::from_str("");
        }
        let mut s = String::from_str(" ! multiudpsink clients=");
        let n = endpoints.len();
        let mut i: usize = 0;
        while i < n
            invariant
                n == endpoints@.len(),
                i <= n,
                spec_sink_buildable(info),
                endpoints == info.stream_information.endpoints,
                endpoints@[0].scheme@ == "udp"@,
                s@ == " ! multiudpsink clients="@ + spec_clients_prefix(endpoints@, i as int),
            decreases n - i,
        {
            if i > 0 {
                s.append(",");
            }
            let endpoint = &endpoints[i];
            match &endpoint.host {
                Some(h) => s.append(h.as_str()),
                None => (),
            }
            s.append(":");
            match endpoint.port {
                Some(p) => append_dec_u32(&mut s, p as u32),
                None => (),
            }
            proof {
                assert(s@ =~= " ! multiudpsink clients="@ + spec_clients_prefix(
                    endpoints@,
                    i as int + 1,
                ));
            }
            i += 1;
        }
        proof {
            assert(s@ =~= spec_sink_segment(info));
        }
        s
    }

    /// Extracts the video capture configuration; a redirect configuration is
    /// an internal-consistency fault here.
    fn get_video_capture_configuration(info: &VideoAndStreamInformation) -> (r: Result<
        &VideoCaptureConfiguration,
        PipelineError,
    >)
        ensures
            r is Ok <==> info.stream_information.configuration matches
                CaptureConfiguration::VIDEO(_),
            r matches Ok(c) ==> info.stream_information.configuration
                == CaptureConfiguration::VIDEO(*c),
            r matches Err(e) ==> e == PipelineError::RedirectConfiguration,
    {
        match &info.stream_information.configuration {
            CaptureConfiguration::VIDEO(configuration) => Ok(configuration),
            CaptureConfiguration::REDIRECT => Err(PipelineError::RedirectConfiguration),
        }
    }
}

/// Which fault the capability builder reports for each refused input.
pub open spec fn spec_capability_error_matches(
    info: &VideoAndStreamInformation,
    e: PipelineError,
) -> bool {
    if (info.stream_information.configuration matches CaptureConfiguration::REDIRECT) {
        e == PipelineError::RedirectConfiguration
    } else {
        e matches PipelineError::UnsupportedEncode(en) && en@ == spec_encode(info)
    }
}

/// Which fault the source builder reports for each refused input.
pub open spec fn spec_source_error_matches(
    info: &VideoAndStreamInformation,
    e: PipelineError,
) -> bool {
    match info.video_source {
        VideoSourceType::Gst(g) => if (g.source matches VideoSourceGstType::Local(_)) {
            e == PipelineError::UnsupportedGstSource
        } else {
            spec_capability_error_matches(info, e)
        },
        VideoSourceType::Local(l) => if (l.typ matches VideoSourceLocalType::Unknown(_)) {
            e == PipelineError::UnsupportedLocalSourceType
        } else {
            spec_capability_error_matches(info, e)
        },
        VideoSourceType::Redirect(_) => e == PipelineError::UnsupportedSourceType,
    }
}

/// Which fault the transcode builder reports for each refused input.
pub open spec fn spec_transcode_error_matches(
    info: &VideoAndStreamInformation,
    e: PipelineError,
) -> bool {
    if (info.stream_information.configuration matches CaptureConfiguration::REDIRECT) {
        e == PipelineError::RedirectConfiguration
    } else {
        e == PipelineError::UnsupportedSourceType
    }
}

/// Which fault the payload builder reports for each refused input.
pub open spec fn spec_payload_error_matches(
    info: &VideoAndStreamInformation,
    e: PipelineError,
) -> bool {
    if (info.stream_information.configuration matches CaptureConfiguration::REDIRECT) {
        e == PipelineError::RedirectConfiguration
    } else {
        e matches PipelineError::UnsupportedEncode(en) && en@ == spec_encode(info)
    }
}

/// Which fault pipeline synthesis as a whole reports for each refused input:
/// the source segment is attempted first, then the capability descriptor,
/// then the remaining segments.
pub open spec fn spec_new_error_matches(
    info: &VideoAndStreamInformation,
    e: PipelineError,
) -> bool {
    if !spec_source_supported(info) || (info.stream_information.configuration matches
        CaptureConfiguration::REDIRECT) {
        spec_source_error_matches(info, e)
    } else {
        e matches PipelineError::UnsupportedEncode(en) && en@ == spec_encode(info)
    }
}

} // verus!
