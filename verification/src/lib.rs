//! A break timer that tells its user, at a fixed frequency, to get up and
//! take a break, and that restarts its countdown while the user is idle.
//!
//! The modules hold the decisions of the program: the parsing of the
//! command line, the countdown between breaks, the idle detection and the
//! event handling of the break window. The program around them performs
//! the actions they choose.
pub mod break_timer;
pub mod break_window;
pub mod cli_parser;
pub mod idle_detection;
pub mod text;
pub mod window;
