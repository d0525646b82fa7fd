//! Verified core of a battery-watching daemon: the threshold/hysteresis
//! state machine that turns percentage+status readings into alert decisions,
//! the plug-transition detector, the single-instance lock decision, the
//! session check, and the sensor-text parsers.
pub mod command;
pub mod config;
pub mod engine;
pub mod lock;
pub mod plug;
pub mod sensor;
pub mod session;
pub mod text;
