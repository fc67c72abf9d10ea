//! Verified core of a video-capsule production and publication pipeline.
//!
//! A capsule is an authoring document: an ordered list of grains of story
//! (each one holding slides, an optional recording and its events), plus a
//! default webcam compositing setting and an optional sound track.  The
//! library models the capsule state machine, the content-addressed artifact
//! store, garbage collection of unreferenced assets, the task envelope and
//! worker scheduling, and the notification fan-out.  Everything that touches
//! the outside world (subprocesses, disk, object storage, the broker) stays
//! in thin unverified drivers that call into this library for every decision.

pub mod artifact;
pub mod capsule;
pub mod config;
pub mod edit;
pub mod error;
pub mod gc;
pub mod hash;
pub mod hashid;
pub mod hls;
pub mod ids;
pub mod json;
pub mod notify;
pub mod openid;
pub mod pipeline;
pub mod runner;
pub mod s3;
pub mod task_status;
pub mod text;
pub mod tool;
pub mod worker;
