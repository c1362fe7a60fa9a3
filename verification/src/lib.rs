//! Periodic capture of a web page and a small server that shows the latest
//! capture, as verified decision logic.
//!
//! The library decides; its caller acts. Each of the two long-running loops
//! is a state machine: it is handed what happened outside (a capture was
//! written, a pause elapsed, the listener is bound, the cancellation signal
//! arrived) and answers with what to report and what to do next. Running
//! the browser, waiting, binding sockets and serving requests is left to the
//! caller.
//!
//! - [`settings`] and [`cli`]: the settings of a run and the validators of
//!   their fields.
//! - [`event`]: the status events that the loops report, and the sink that
//!   takes them.
//! - [`observer`]: the capture configuration, the plan of one capture and
//!   the capture loop.
//! - [`server`]: the preview page, the replies to requests and the serving
//!   loop.
//! - [`lifecycle`]: the controller that starts and stops the loops and
//!   queues their events for the front-end.
//! - [`gui`]: what the interactive front-end decides, and its status log.
//! - [`clock`] and [`text`]: timestamps and string helpers.
//! - [`capture_laws`], [`serve_laws`], [`preview_laws`] and
//!   [`lifecycle_laws`]: what is proved of all of the above beyond the
//!   contracts of the single functions.
//!
//! Intervals are in minutes throughout; the loops convert them to seconds
//! for a pause and to milliseconds for the preview page.

pub mod capture_laws;
pub mod cli;
pub mod clock;
pub mod event;
pub mod gui;
pub mod lifecycle;
pub mod lifecycle_laws;
pub mod observer;
pub mod preview_laws;
pub mod serve_laws;
pub mod server;
pub mod settings;
pub mod text;
