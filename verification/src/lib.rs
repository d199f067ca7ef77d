//! Triage, naming and sequencing rules of a pipeline that makes video
//! attachments playable: which attachments need re-encoding, where their
//! scratch files live, how the encoder is invoked, and in which order the
//! download, the encoder run, the reply and the cleanup follow each other.
//!
//! The crate performs no input or output. Every step that touches the
//! network, the file system, a child process or the chat service is handed
//! to the caller as an action; the caller reports what happened as an event.

pub mod attachment;
pub mod clock;
pub mod download;
pub mod download_runs;
pub mod entropy;
pub mod error;
pub mod pipeline;
pub mod pipeline_runs;
pub mod scratch;
pub mod text;
pub mod trace;
pub mod transcode;
pub mod transcode_runs;
