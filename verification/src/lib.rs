//! What a long-running server needs to come down cleanly.
//!
//! A [`savable::Savable`] keeps a value in memory and persists it to a file
//! that no reader ever sees half written. A
//! [`util::graceful_shutdown::ShutdownSignal`] resolves once, when the
//! process is asked to end. A [`lifecycle::Coordinator`] brings the two
//! together: when the signal resolves it flushes every store registered with
//! it. Around these stand the plain values of a small web application: its
//! configuration, its pages, and the context of a request.
//!
//! Nothing here touches a file, a socket or a signal. Whoever does hands the
//! library what was read and performs what the library names.

pub mod app_builder;
pub mod config;
pub mod durability;
pub mod lifecycle;
pub mod page;
pub mod path;
pub mod request_context;
pub mod savable;
pub mod util;

pub use config::TwelveConfig;
