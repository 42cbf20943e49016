//! Forza Horizon "Data Out" telemetry: the Dash packet decoder and the
//! session-recording state machine behind the dashboard.

pub mod bytes;
pub mod float_order;
pub mod session;
pub mod parser;
pub mod recorder;
pub mod store;
