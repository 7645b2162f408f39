//! A UDP stream: owns a synthesized pipeline description and its lifecycle
//! state; the actual transport is driven by an external media engine.
use vstd::prelude::*;

use crate::pipeline_builder::{
    spec_pipeline_description, spec_pipeline_ok, spec_sink_buildable, Pipeline,
};
use crate::stream_backend::StreamBackend;
use crate::stream_types::{PipelineError, VideoAndStreamInformation};

verus! {

/// A stream sent to one or more `host:port` destinations over UDP.
#[derive(Clone, Debug, PartialEq)]
pub struct VideoStreamUdp {
    pub pipeline_description: String,
    pub running: bool,
}

impl VideoStreamUdp {
    /// Synthesizes the pipeline for a validated UDP configuration; the
    /// stream starts out not running.
    pub fn new(info: &VideoAndStreamInformation) -> (r: Result<VideoStreamUdp, PipelineError>)
        requires
            spec_sink_buildable(info),
        ensures
            r is Ok <==> spec_pipeline_ok(info),
            r matches Ok(s) ==> s.pipeline_description@ == spec_pipeline_description(info)
                && !s.running,
            r matches Err(e) ==> crate::pipeline_builder::spec_new_error_matches(info, e),
    {
        let pipeline = match Pipeline::new(info) {
            Ok(p) => p,
            Err(e) => {
                return Err(e);
            },
        };
        Ok(VideoStreamUdp { pipeline_description: pipeline.description, running: false })
    }
}

impl StreamBackend for VideoStreamUdp {
    open spec fn spec_is_running(&self) -> bool {
        self.running
    }

    open spec fn spec_pipeline(&self) -> Seq<char> {
        self.pipeline_description@
    }

    fn start(&mut self) -> (r: bool) {
        if self.running {
            return true;
        }
        self.running = true;
        true
    }

    fn stop(&mut self) -> (r: bool) {
        if !self.running {
            return false;
        }
        self.running = false;
        true
    }

    fn is_running(&self) -> (r: bool) {
        self.running
    }

    fn restart(&mut self) {
        self.stop();
        self.start();
    }

    fn pipeline(&self) -> (r: String) {
        self.pipeline_description.clone()
    }

    fn allow_same_endpoints(&self) -> (r: bool) {
        false
    }
}

} // verus!
