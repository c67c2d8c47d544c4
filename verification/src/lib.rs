//! Backend logic of a small dictation desk: the decisions behind uploading a
//! recorded clip for transcription and behind keeping one state file on disk.
//!
//! Nothing here touches the network or the disk. Each command is a sequence of
//! steps; the caller carries out the pending step and reports what came of it.
//!
//! - [`transcribe`]: the upload, and what each answer from the wire leads to.
//! - [`payload`]: reading the transcript out of a response body.
//! - [`status`]: HTTP status codes.
//! - [`store`]: reading and writing the state file.
//! - [`disk`]: an idealised disk, against which the store is shown to keep its
//!   promises.
//! - [`error`]: the failures, and the line of text that each becomes.
//! - [`text`]: facts about one text occurring inside another.

pub mod disk;
pub mod error;
pub mod payload;
pub mod status;
pub mod store;
pub mod text;
pub mod transcribe;
