//! An RTSP stream: owns a synthesized pipeline description (left without a
//! sink segment, for an external mount point) and the endpoint path it is
//! mounted at.
use vstd::prelude::*;

use crate::pipeline_builder::{
    spec_pipeline_description, spec_pipeline_ok, spec_sink_buildable, Pipeline,
};
use crate::stream_backend::StreamBackend;
use crate::stream_types::{PipelineError, VideoAndStreamInformation};

verus! {

/// A stream mounted at an RTSP path.
#[derive(Clone, Debug, PartialEq)]
pub struct VideoStreamRtsp {
    pub pipeline_description: String,
    pub endpoint_path: String,
    pub running: bool,
}

impl VideoStreamRtsp {
    /// Synthesizes the pipeline for a validated RTSP configuration; the
    /// stream starts out not running.
    pub fn new(info: &VideoAndStreamInformation, endpoint_path: String) -> (r: Result<
        VideoStreamRtsp,
        PipelineError,
    >)
        requires
            spec_sink_buildable(info),
        ensures
            r is Ok <==> spec_pipeline_ok(info),
            r matches Ok(s) ==> s.pipeline_description@ == spec_pipeline_description(info)
                && s.endpoint_path@ == endpoint_path@ && !s.running,
            r matches Err(e) ==> crate::pipeline_builder::spec_new_error_matches(info, e),
    {
        let pipeline = match Pipeline::new(info) {
            Ok(p) => p,
            Err(e) => {
                return Err(e);
            },
        };
        Ok(
            VideoStreamRtsp {
                pipeline_description: pipeline.description,
                endpoint_path,
                running: false,
            },
        )
    }

    /// The RTSP path the stream is mounted at.
    pub fn path(&self) -> (r: &String)
        ensures
            r@ == self.endpoint_path@,
    {
        &self.endpoint_path
    }
}

impl StreamBackend for VideoStreamRtsp {
    open spec fn spec_is_running(&self) -> bool {
        self.running
    }

    open spec fn spec_pipeline(&self) -> Seq<char> {
        self.pipeline_description@
    }

    fn start(&mut self) -> (r: bool) {
        if self.running {
            return true;
        }
        self.running = true;
        true
    }

    fn stop(&mut self) -> (r: bool) {
        if !self.running {
            return false;
        }
        self.running = false;
        true
    }

    fn is_running(&self) -> (r: bool) {
        self.running
    }

    fn restart(&mut self) {
        self.stop();
        self.start();
    }

    fn pipeline(&self) -> (r: String) {
        self.pipeline_description.clone()
    }

    fn allow_same_endpoints(&self) -> (r: bool) {
        false
    }
}

} // verus!
