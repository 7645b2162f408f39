//! A redirect stream: no media path is built locally, only a validated
//! scheme is owned; the media is produced and mounted externally.
use vstd::prelude::*;

use crate::stream_backend::StreamBackend;
use crate::stream_types::PipelineError;

verus! {

/// A stream forwarded from an externally produced source.
#[derive(Clone, Debug, PartialEq)]
pub struct VideoStreamRedirect {
    pub scheme: String,
    pub running: bool,
}

impl VideoStreamRedirect {
    /// Wraps a validated redirect scheme; the stream starts out not running.
    pub fn new(scheme: String) -> (r: Result<VideoStreamRedirect, PipelineError>)
        ensures
            r matches Ok(s) && s.scheme@ == scheme@ && !s.running,
    {
        Ok(VideoStreamRedirect { scheme, running: false })
    }
}

impl StreamBackend for VideoStreamRedirect {
    open spec fn spec_is_running(&self) -> bool {
        self.running
    }

    /// A redirect stream builds no local pipeline.
    open spec fn spec_pipeline(&self) -> Seq<char> {
        Seq::empty()
    }

    fn start(&mut self) -> (r: bool) {
        if self.running {
            return true;
        }
        self.running = true;
        true
    }

    fn stop(&mut self) -> (r: bool) {
        if !self.running {
            return false;
        }
        self.running = false;
        true
    }

    fn is_running(&self) -> (r: bool) {
        self.running
    }

    fn restart(&mut self) {
        self.stop();
        self.start();
    }

    fn pipeline(&self) -> (r: String) {
        proof {
            reveal_strlit("");
            assert(""@ =~= Seq::<char>::empty());
        }
        String::from_str("")
    }

    fn allow_same_endpoints(&self) -> (r: bool) {
        false
    }
}

} // verus!
