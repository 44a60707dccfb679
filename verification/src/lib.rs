//! Instantaneous battery telemetry behind a uniform accessor interface.
//!
//! A [`Device`] is one admissible snapshot of what a platform reports about a
//! battery; a [`Battery`] owns one device and forwards every accessor to it.

pub mod battery;
pub mod device;
pub mod platform;
pub mod reading;
pub mod record;
pub mod render;
pub mod state;
pub mod technology;

pub use battery::Battery;
pub use device::Device;
pub use platform::Platform;
pub use reading::Reading;
pub use state::State;
pub use technology::Technology;
