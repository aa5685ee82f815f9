//! Connection and session management for driving a mecanum-wheeled robot's
//! motor controller over a serial link, a persistent JSON-line bridge, or a
//! one-shot SSH command, with the wire protocols each of them speaks.
pub mod bridge;
pub mod error;
pub mod json;
pub mod serial;
pub mod session;
pub mod ssh;
pub mod status;
pub mod text;
pub mod validate;
