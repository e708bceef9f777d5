//! Core of an automotive gauge device: the rendering pipeline that turns a
//! telemetry value into an LED ring frame and a stepper target, the bounded
//! event channels between tasks, the gauge task's state machine, the
//! supervisor's diagnostic mapping, and the error/severity model used for
//! fault reporting.

pub mod channel;
pub mod data_point;
pub mod errors;
pub mod gauge;
pub mod render;
pub mod supervisor;
