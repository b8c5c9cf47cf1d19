//! Wire-level multiplexing engine of the listening side of a reverse
//! shell: the framed message codec, the connection handshake and the
//! decisions of the session broker.
pub mod message;
pub mod wire;
pub mod framing;
pub mod control;
pub mod broker;
