//! A controller for one media-transcoding job at a time: it builds the
//! transcoder's command line, splits the process's diagnostic stream into
//! progress lines, keeps the running job's process id for cancellation, and
//! decides which events the job reports.

pub mod codec;
pub mod command;
pub mod controller;
pub mod error;
pub mod event;
pub mod path;
pub mod process;
pub mod registry;
pub mod splitter;
