//! The window that covers the screen during a break.
pub mod testing_windows;
pub mod window;
pub mod winit_app;
