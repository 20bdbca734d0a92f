//! Negotiation and lifecycle of an OpenGL 3.3 rendering surface bound to a
//! native window.
//!
//! The window system, the display and the graphics driver are driven from
//! outside; this library holds every decision made between two platform
//! calls: which configuration is requested and picked, what each construction
//! stage asks of the platform, what is released when a stage fails, and how a
//! ready surface reacts to resizes, presentation and swap-interval changes.

pub mod config;
pub mod construct;
pub mod context;
pub mod error;
pub mod handle;
pub mod platform;
pub mod surface;
pub mod window;
