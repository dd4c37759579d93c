//! State tracking and translation between an audio server's sinks, devices and
//! routes and a session-bus volume/mute service.
pub mod audio_device;
pub mod bridge;
pub mod command;
pub mod dbus;
pub mod metadata;
pub mod pod;
pub mod sink_props;
pub mod store;
