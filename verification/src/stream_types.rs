//! Stream configuration: endpoints, capture configurations, and the closed
//! taxonomy of validation and synthesis errors.
use vstd::prelude::*;

use crate::video_types::{FrameInterval, VideoEncodeType};
use crate::video_types::VideoSourceType;

verus! {

/// A stream destination: a URL decomposed into scheme, host, port and path.
#[derive(Clone, Debug, PartialEq)]
pub struct StreamEndpoint {
    pub scheme: String,
    pub host: Option<String>,
    pub port: Option<u16>,
    pub path: String,
}

/// Mathematical view of [`StreamEndpoint`].
pub struct EndpointModel {
    pub scheme: Seq<char>,
    pub host: Option<Seq<char>>,
    pub port: Option<u16>,
    pub path: Seq<char>,
}

impl View for StreamEndpoint {
    type V = EndpointModel;

    open spec fn view(&self) -> EndpointModel {
        EndpointModel {
            scheme: self.scheme@,
            host: match &self.host {
                Some(h) => Some(h@),
                None => None,
            },
            port: self.port,
            path: self.path@,
        }
    }
}

/// The requested capture parameters of a video stream.
#[derive(Clone, Debug, PartialEq)]
pub struct VideoCaptureConfiguration {
    pub encode: VideoEncodeType,
    pub height: u32,
    pub width: u32,
    pub frame_interval: FrameInterval,
}

/// How a stream's media is produced: captured and encoded locally, or
/// redirected from an externally produced source.
#[derive(Clone, Debug, PartialEq)]
pub enum CaptureConfiguration {
    VIDEO(VideoCaptureConfiguration),
    REDIRECT,
}

/// The destinations and configuration of one requested stream.
#[derive(Clone, Debug, PartialEq)]
pub struct StreamInformation {
    pub endpoints: Vec<StreamEndpoint>,
    pub configuration: CaptureConfiguration,
}

/// The unit passed into validation and pipeline synthesis: a named source
/// plus the stream requested from it.
#[derive(Clone, Debug, PartialEq)]
pub struct VideoAndStreamInformation {
    pub name: String,
    pub stream_information: StreamInformation,
    pub video_source: VideoSourceType,
}

/// A validation-tier reject: the configuration was refused before any
/// resource was committed.
#[derive(Clone, Debug, PartialEq)]
pub enum ValidationError {
    /// The endpoint list is empty.
    EmptyEndpoints,
    /// Not all endpoints share one scheme.
    MixedSchemes,
    /// A video configuration carries an encode nobody recognizes.
    UnknownEncode(String),
    /// A video configuration carries a recognized but unsupported encode.
    UnsupportedEncode(VideoEncodeType),
    /// A redirect source was given a scheme outside the redirect set.
    UnsupportedRedirectScheme(String),
    /// An RTSP stream was given more than one endpoint.
    MultipleRtspEndpoints,
    /// A udp-scheme stream was asked to carry H265 (udp265 must be used).
    UdpWithH265,
    /// A udp-scheme endpoint is missing its host or its port.
    UdpEndpointMissingHostOrPort,
    /// A udp265-scheme stream was asked to carry an encode other than H265.
    Udp265WithoutH265(VideoEncodeType),
    /// A capture source was given a scheme outside the capture set.
    UnsupportedScheme(String),
    /// An RTSP stream was created from an endpoint whose scheme is not rtsp.
    RtspSchemeMismatch(String),
    /// An RTSP endpoint's port is not the fixed RTSP mount port.
    RtspPortMismatch,
    /// An RTSP endpoint's path does not have exactly one segment.
    RtspPathSegments(String),
}

/// The human-readable cause carried by each validation reject.
pub open spec fn spec_validation_message(e: &ValidationError) -> Seq<char> {
    match e {
        ValidationError::EmptyEndpoints => "Endpoints are empty"@,
        ValidationError::MixedSchemes => "Endpoints scheme are not the same"@,
        ValidationError::UnknownEncode(name) => "Encode is not supported and also unknown: "@
            + name@,
        ValidationError::UnsupportedEncode(encode) => "Only H264, YUYV and MJPG encodes are supported now, used: "@
            + crate::video_types::spec_encode_name(encode@),
        ValidationError::UnsupportedRedirectScheme(scheme) => "The URL's scheme for REDIRECT endpoints should be \"udp\", \"udp265\", \"rtsp\", \"mpegts\" or \"tcp\", but was: "@
            + scheme@,
        ValidationError::MultipleRtspEndpoints => "Multiple RTSP endpoints are not acceptable"@,
        ValidationError::UdpWithH265 => "Endpoint with udp scheme only supports H264, encode type is H265, the scheme should be udp265."@,
        ValidationError::UdpEndpointMissingHostOrPort => "Endpoint with udp scheme should contain host and port."@,
        ValidationError::Udp265WithoutH265(encode) => "Endpoint with udp265 scheme only supports H265 encode. Encode: "@
            + crate::video_types::spec_encode_name(encode@),
        ValidationError::UnsupportedScheme(scheme) => "Scheme is not accepted as stream endpoint: "@
            + scheme@,
        ValidationError::RtspSchemeMismatch(scheme) => "The URL's scheme for RTSP endpoints should be \"rtsp\", but was: "@
            + scheme@,
        ValidationError::RtspPortMismatch => "The URL's port for RTSP endpoints should be \"8554\""@,
        ValidationError::RtspPathSegments(path) => "The URL's path for RTSP endpoints must have one segment (e.g.: \"segmentA\" and not \"segmentA/segmentB\"), but was: "@
            + path@,
    }
}

impl ValidationError {
    /// The human-readable cause of the reject.
    pub fn message(&self) -> (r: String)
        ensures
            r@ == spec_validation_message(self),
    {
        match self {
            ValidationError::EmptyEndpoints => String::from_str("Endpoints are empty"),
            ValidationError::MixedSchemes => String::from_str("Endpoints scheme are not the same"),
            ValidationError::UnknownEncode(name) => {
                let mut s = String::from_str("Encode is not supported and also unknown: ");
                s.append(name.as_str());
                s
            },
            ValidationError::UnsupportedEncode(encode) => {
                let mut s = String::from_str(
                    "Only H264, YUYV and MJPG encodes are supported now, used: ",
                );
                let d = encode.description();
                s.append(d.as_str());
                s
            },
            ValidationError::UnsupportedRedirectScheme(scheme) => {
                let mut s = String::from_str(
                    "The URL's scheme for REDIRECT endpoints should be \"udp\", \"udp265\", \"rtsp\", \"mpegts\" or \"tcp\", but was: ",
                );
                s.append(scheme.as_str());
                s
            },
            ValidationError::MultipleRtspEndpoints => String::from_str(
                "Multiple RTSP endpoints are not acceptable",
            ),
            ValidationError::UdpWithH265 => String::from_str(
                "Endpoint with udp scheme only supports H264, encode type is H265, the scheme should be udp265.",
            ),
            ValidationError::UdpEndpointMissingHostOrPort => String::from_str(
                "Endpoint with udp scheme should contain host and port.",
            ),
            ValidationError::Udp265WithoutH265(encode) => {
                let mut s = String::from_str(
                    "Endpoint with udp265 scheme only supports H265 encode. Encode: ",
                );
                let d = encode.description();
                s.append(d.as_str());
                s
            },
            ValidationError::UnsupportedScheme(scheme) => {
                let mut s = String::from_str("Scheme is not accepted as stream endpoint: ");
                s.append(scheme.as_str());
                s
            },
            ValidationError::RtspSchemeMismatch(scheme) => {
                let mut s = String::from_str(
                    "The URL's scheme for RTSP endpoints should be \"rtsp\", but was: ",
                );
                s.append(scheme.as_str());
                s
            },
            ValidationError::RtspPortMismatch => String::from_str(
                "The URL's port for RTSP endpoints should be \"8554\"",
            ),
            ValidationError::RtspPathSegments(path) => {
                let mut s = String::from_str(
                    "The URL's path for RTSP endpoints must have one segment (e.g.: \"segmentA\" and not \"segmentA/segmentB\"), but was: ",
                );
                s.append(path.as_str());
                s
            },
        }
    }
}

/// An internal-consistency fault: pipeline synthesis was reached with a
/// combination the validator is meant to exclude. This is a programming-error
/// signal, not a user error.
#[derive(Clone, Debug, PartialEq)]
pub enum PipelineError {
    /// A pipeline was requested for a redirect configuration.
    RedirectConfiguration,
    /// An encode no pipeline segment can be built for.
    UnsupportedEncode(VideoEncodeType),
    /// A media-engine source that is not the pattern generator.
    UnsupportedGstSource,
    /// A local source whose connection type never reached classification.
    UnsupportedLocalSourceType,
    /// A source kind no capture element exists for.
    UnsupportedSourceType,
}

/// The human-readable cause carried by each synthesis fault.
pub open spec fn spec_pipeline_message(e: &PipelineError) -> Seq<char> {
    match e {
        PipelineError::RedirectConfiguration => "Error: Cannot create a pipeline from a REDIRECT source!"@,
        PipelineError::UnsupportedEncode(encode) => "Unsupported VideoEncodeType: "@
            + crate::video_types::spec_encode_name(encode@),
        PipelineError::UnsupportedGstSource => "Unsupported GST source endpoint"@,
        PipelineError::UnsupportedLocalSourceType => "Unsupported VideoSourceLocal type"@,
        PipelineError::UnsupportedSourceType => "Unsupported VideoSourceType"@,
    }
}

impl PipelineError {
    /// The human-readable cause of the fault.
    pub fn message(&self) -> (r: String)
        ensures
            r@ == spec_pipeline_message(self),
    {
        match self {
            PipelineError::RedirectConfiguration => String::from_str(
                "Error: Cannot create a pipeline from a REDIRECT source!",
            ),
            PipelineError::UnsupportedEncode(encode) => {
                let mut s = String::from_str("Unsupported VideoEncodeType: ");
                let d = encode.description();
                s.append(d.as_str());
                s
            },
            PipelineError::UnsupportedGstSource => String::from_str(
                "Unsupported GST source endpoint",
            ),
            PipelineError::UnsupportedLocalSourceType => String::from_str(
                "Unsupported VideoSourceLocal type",
            ),
            PipelineError::UnsupportedSourceType => String::from_str("Unsupported VideoSourceType"),
        }
    }
}

/// Everything stream creation can fail with: a validation-tier reject, or an
/// internal-consistency fault during synthesis, surfaced distinctly.
#[derive(Clone, Debug, PartialEq)]
pub enum StreamError {
    Validation(ValidationError),
    Pipeline(PipelineError),
}

impl StreamError {
    /// The human-readable cause of the failure.
    pub fn message(&self) -> (r: String)
        ensures
            self matches StreamError::Validation(e) ==> r@ == spec_validation_message(&e),
            self matches StreamError::Pipeline(e) ==> r@ == spec_pipeline_message(&e),
    {
        match self {
            StreamError::Validation(e) => e.message(),
            StreamError::Pipeline(e) => e.message(),
        }
    }
}

} // verus!
