//! An interactive journal library: a note and a media file are combined,
//! after a hosted-media upload, into a single timestamped record.
//!
//! The crate verifies the decision logic of the journal pipeline: input
//! normalisation, configuration validation, upload-endpoint routing,
//! upload-response interpretation, record assembly, and the linear run
//! state machine that ties them together. Terminal, file, network and
//! database I/O are left to the surrounding application.

mod clock;
pub mod config;
pub mod entry;
pub mod machine;
pub mod response;
pub mod text;
pub mod upload;

pub use config::{Config, ConfigKey, EnvValues};
pub use entry::JournalEntry;
pub use machine::{begin_run, step, Action, Event, RunError, RunState, Stage};
pub use response::{parse_upload_response, upload_result_from_value, ResponseError, UploadResult};
pub use text::{strip_quotes, trim};
pub use upload::{build_upload_request, path_is_mp4, UploadRequest};
