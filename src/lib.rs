//! The core of a reparenting window manager for X11: a state machine that
//! reads the server's events as plain values, keeps the registry of framed
//! windows, ignores the echoes of its own requests, and answers each event
//! with the requests to send.
pub mod crab_layout;
pub mod crab_state;
pub mod floating_layout;
pub mod logger;
pub mod protocol;
pub mod sequence_filter;
