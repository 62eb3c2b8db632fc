//! A sans-I/O driver for one HTTP/1.1 client call.
//!
//! The driver never touches sockets, clocks or DNS. It walks a single
//! request (and optional request body) through the call lifecycle as a
//! state machine: [`Unit::poll_event`] hands the caller the next piece of
//! I/O to perform, with a deadline, and [`Unit::handle_input`] consumes
//! what the caller got back. The wire-level parsing and serialisation is
//! done by the `hoot` flow objects the driver orchestrates.

pub mod body;
pub mod config;
pub mod error;
pub mod flow;
pub mod time;
pub mod timings;
pub mod unit;

pub use body::SendBody;
pub use config::{AgentConfig, RedirectAuthHeaders, Timeouts};
pub use error::Error;
pub use flow::BodyMode;
pub use time::{Duration, Instant, NextTimeout, TimeoutReason};
pub use timings::{CallTimings, Phase};
pub use unit::{Buffers, Event, FakeRequest, Input, Unit};
