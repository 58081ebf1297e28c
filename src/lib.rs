//! Bounded, multi-channel toast notifications and an adapter that turns
//! failures into notification requests.
//!
//! Each channel holds waiting and shown notifications. A tick runs four
//! phases in order: container check, admission of waiting notifications up
//! to the channel's capacity, clocks of the shown ones, then dismissal.
pub mod adapter;
pub mod channel;
pub mod laws;
pub mod record;
pub mod registry;

pub use adapter::{anyhow_alert_system, anyhow_alerts_system};
pub use channel::{Channel, ChannelConfig, ChannelState};
pub use record::Alert;
pub use registry::{Alerts, DEFAULT_CHANNEL};
