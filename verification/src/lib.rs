//! The decision logic of the Verso browser shell and of the controller that
//! embeds it.
//!
//! A browser process ([`verso::Verso`]) and a host process
//! ([`controller::VersoviewController`]) talk over two message types
//! ([`messages`]). This crate holds what either side decides: which window an
//! event concerns, what is sent where, what a request is answered, and when the
//! browser goes down. It performs no input or output. Each function takes the
//! event that came in and returns the one thing to do next; the program around
//! the crate does it and hands the outcome back.
pub mod foreign;
pub mod ids;
pub mod controller;
pub mod messages;
pub mod embedder;
pub mod window;
pub mod verso;
pub mod webview_messages;
pub mod servo_messages;
pub mod startup;
pub mod window_events;
pub mod call_laws;
pub mod laws;
pub mod model_laws;
pub mod message_laws;
pub mod turn_laws;
pub mod event_laws;
pub mod startup_laws;
