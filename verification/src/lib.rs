//! Lifecycle manager of an ephemeral file-sharing service.
//!
//! Files are stored as blobs under short random keys, each with one metadata
//! record that carries its expiry, and are purged once the expiry has
//! passed. The blob store and the metadata store share no transaction, so
//! consistency between them comes from the order of the steps alone: on
//! upload the blob is written before the record is committed, on reclamation
//! the blob is removed before the record is.
//!
//! Every operation that touches the stores is written as a step function. It
//! takes the session and the latest event and returns the next session
//! together with the next thing to do; the caller performs the I/O and this
//! crate makes every decision.
//!
//! - [`upload`]: the upload coordinator, one session per multipart request.
//! - [`fetch`]: the retrieval coordinator, one session per download.
//! - [`reaper`]: the reclamation of expired uploads, one session per cycle.
//! - [`store`]: the requests to the two stores and their replies.
//! - [`keygen`], [`media`], [`model`], [`error`]: keys, content headers, the
//!   record, and the failures with their HTTP status.
//! - [`world`]: a mathematical model of the two stores.
//! - [`upload_laws`], [`fetch_laws`], [`reaper_laws`]: what the coordinators
//!   guarantee against that model, proved.

mod clock;
pub mod error;
pub mod fetch;
pub mod fetch_laws;
pub mod keygen;
pub mod media;
pub mod model;
pub mod reaper;
pub mod reaper_laws;
pub mod store;
pub mod upload;
pub mod upload_laws;
pub mod world;
