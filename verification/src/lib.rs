//! Slap and shake detection for an Apple Silicon accelerometer: severity
//! classification, bounded event histories, the detection loop's gating and
//! progress display, and the messages handed to the agent integrations.

pub mod detector;
pub mod text;
pub mod shared;
pub mod config;
pub mod ids;
pub mod mqtt;
pub mod openclaw;
pub mod sensor;
pub mod mcp;
pub mod standalone;
