//! Session core of a line-oriented chat client: the frame data model, the
//! direct-message channel namer, the outbound queue, and the decision logic
//! of the reader, the writer and the session controller.

pub mod frame;
pub mod namer;
pub mod outbox;
pub mod reader;
pub mod session;
pub mod writer;
