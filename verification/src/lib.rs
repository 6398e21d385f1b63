//! Audio transport: framing, buffering and lifecycle rules.
//!
//! A render callback offers quanta of audio, which go through a ring of preallocated buffers to a
//! socket worker. The worker keeps a connection up and sends whatever is newest. A stable handle
//! lets the processor behind it be replaced while callbacks run. Beside that stands a transport for
//! archives between two peers.

pub mod admission;
pub mod archive;
pub mod archive_laws;
pub mod boundary;
pub mod bytes;
pub mod clock;
pub mod frame;
pub mod gate;
pub mod handle;
pub mod host_laws;
pub mod laws;
pub mod ledger;
pub mod metadata;
pub mod naming;
pub mod processor;
pub mod render;
pub mod ring;
pub mod status;
pub mod text;
pub mod worker;
pub mod worker_laws;
