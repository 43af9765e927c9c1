//! How long the user has been idle, by the means the session offers.
pub mod idle;
pub mod wayland_idle;
