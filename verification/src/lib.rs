//! Core model of a video-stream manager: capture-source discovery and
//! classification, capability probing, hardware controls, stream-configuration
//! validation, media-pipeline synthesis, and stream lifecycle.
pub mod capabilities;
pub mod controls;
pub mod pipeline_builder;
pub mod stream_backend;
pub mod stream_types;
pub mod strutil;
pub mod video_source_local;
pub mod video_stream_redirect;
pub mod video_stream_rtsp;
pub mod video_stream_udp;
pub mod video_types;
