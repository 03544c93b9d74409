//! Bridge between batches of LED updates and a WS2812B strip controller on a
//! serial line.
//!
//! The crate holds the rules of the bridge and performs no I/O of its own:
//! [`bridge::Update`] validates one update and renders it as a line of the
//! controller's protocol, [`serial::SerialDevice`] interprets what the serial
//! transport answers, and [`forward::Forwarder`] decides, answer by answer, what
//! is asked of the transport next. A driver around the crate performs what is
//! asked and hands the answers back.

pub mod bridge;
pub mod error;
pub mod forward;
pub mod serial;
pub mod text;
