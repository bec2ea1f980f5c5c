//! Decoder library for the Xsens MT binary wire protocol used by MTi
//! motion-tracking devices.
//!
//! Bytes flow through a streaming frame decoder into validated frame views,
//! and — for MTData2 messages — on into self-describing measurement packets
//! and typed measurement values. Every layer carries a contract that pins its
//! byte-exact, big-endian semantics down.

pub mod decoder;
pub mod message;
pub mod messages;
pub mod mtdata2;
pub mod precision;
pub mod prelude;
pub mod wire;
