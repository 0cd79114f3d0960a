//! The core of an audio-recognition client.
//!
//! Audio is captured from a device, a fingerprint is made of the latest
//! stretch of it, the fingerprint is sent to a recognition service, and the
//! track that the service names is handed to the presentation surfaces.
//! This crate holds the rules of that pipeline, with what each of them
//! guarantees:
//!
//! - [`audio_backend`]: the ordered list of capture devices, and how the
//!   application finds and moves its own stream on a sound server;
//! - [`capture`]: the window of recent samples and the rule that one
//!   recognition is under way at a time;
//! - [`communication`]: the requests to the service;
//! - [`answer`]: the reading of its answers;
//! - [`recognition`]: what each outcome of a recognition sends on;
//! - [`session`]: the command-line session that consumes those events;
//! - [`preferences`]: the user's settings and how updates are merged in;
//! - [`cli`], [`history`], [`messages`], [`text`], [`tray`]: the values and
//!   helpers that the others share.
//!
//! Input and output are left to the caller: the functions here take plain
//! values and say what is to be done.

pub mod answer;
pub mod audio_backend;
pub mod capture;
pub mod cli;
pub mod communication;
pub mod history;
pub mod messages;
pub mod preferences;
pub mod recognition;
pub mod session;
pub mod text;
pub mod tray;
