//! Driver logic for the MTRF radio-control base unit: the 17-byte frame
//! codec, the command vocabulary, the transport's correlation state and the
//! choice of serial adapter.

pub mod cmd;
pub mod error;
pub mod frame;
pub mod port;
pub mod request;
pub mod response;
pub mod transport;
