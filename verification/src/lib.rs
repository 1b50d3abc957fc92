//! Supervision logic for an n2n edge process: command-line construction,
//! output-stream interpretation, the control-channel protocol and the
//! reconciliation of the externally visible connection status.

pub mod config;
pub mod launch;
pub mod laws;
pub mod mgmt;
pub mod notice;
pub mod peers;
pub mod ping;
pub mod process;
pub mod protocol;
pub mod shutdown;
pub mod status;
pub mod stream;
pub mod text;
