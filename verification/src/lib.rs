//! The core of a minimal peer-to-peer text chat, verified with Verus.
//!
//! Two peers share one duplex byte stream and exchange versioned JSON
//! envelopes, one per line. This library holds everything that decides: the
//! envelope and its codec, the steps of the task that reads the stream, the
//! bounded queue between that task and its consumer, and the operator's
//! console commands with the room state they drive. Sockets, tasks and the
//! console itself belong to the program around it.

pub mod cli;
pub mod codec;
pub mod interactive;
pub mod json;
pub mod protocol;
pub mod queue;
pub mod session;
pub mod stamp;
pub mod text;
