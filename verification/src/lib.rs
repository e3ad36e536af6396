//! Verified core of a service that controls two `swayidle` user units.
//!
//! Every decision of the service is a function from plain values to plain
//! values. Whatever has to wait for systemd, for the message bus or for the
//! compositor is a state machine that names the next outside action and takes
//! the outcome of that action as an event.

pub mod bus_laws;
pub mod cli;
pub mod cli_laws;
pub mod dbus;
pub mod dbus_laws;
pub mod event_loop;
pub mod interface_laws;
pub mod loop_laws;
pub mod mode;
pub mod object_laws;
pub mod request_laws;
pub mod systemd;
pub mod systemd_laws;
pub mod text;
pub mod wayland;
pub mod wayland_laws;
pub mod wayland_setup;
