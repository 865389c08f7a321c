//! Decoding for the MySQL client/server wire protocol: framing byte streams
//! into length-prefixed packets, classifying packets by protocol phase, and
//! decoding OK and ERROR reply bodies whose layout depends on the negotiated
//! capability flags.

pub mod connection;
pub mod flags;
pub mod packet;
pub mod reply;
pub mod types;
