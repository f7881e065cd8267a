//! Engine for scripted, multi-step deployment flows against one remote host.
//!
//! The library makes every decision of a flow run and leaves the network, the
//! disk and the user interface to its caller: a run hands out one request at a
//! time and continues from the caller's reply.

pub mod bindings;
pub mod decompressor;
pub mod error;
pub mod file_downloader;
pub mod file_transfer;
pub mod flow;
pub mod flow_run;
pub mod hospital_settings;
pub mod package_resolver;
pub mod progress_reporter;
pub mod server_settings;
pub mod session;
pub mod template;
pub mod text;
pub mod util;
