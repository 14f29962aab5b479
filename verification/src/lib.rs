//! Session management for a client of a multiplexed transport that carries
//! datagrams, unidirectional streams and bidirectional streams over one
//! negotiated session.
//!
//! The crate holds every decision the client makes: it is told what the
//! transport did and answers with what to ask of it next, what to write to
//! the event log, and which stream identifier a new stream gets. It performs
//! no input or output of its own.

pub mod event_log;
pub mod inbound;
pub mod outbound;
pub mod session;
pub mod stream_id;
pub mod text;
pub mod transport;
