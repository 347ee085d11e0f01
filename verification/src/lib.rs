//! The decisions of a Windows window backend, free of Win32 calls.
//!
//! The application around this library talks to the system. It hands over what the system says as
//! plain values, and carries out what comes back. Lengths are in device pixels throughout.

pub mod backdrop;
pub mod click_state;
pub mod drag_data;
pub mod drag_session;
pub mod geometry;
pub mod icc;
pub mod message;
pub mod output_color;
pub mod prompt;
pub mod text;
pub mod window_creation;
pub mod window_plan;
pub mod window_state;
