//! A live terminal viewer in the spirit of an interactive "tail with
//! grep": lines stream in and fill the viewport newest-at-bottom while a
//! user-typed query filters and highlights them, the query being matched
//! as literal text on every redraw. This crate holds the verified engine —
//! interaction state machine, append-only line store, literal pattern
//! matcher, viewport and footer renderer, and the per-event pump steps —
//! together with a decoder for charge-point protocol payloads. Terminal
//! raw mode, the input threads, and the escape-code writer sit around
//! this library, not in it.

pub mod app;
pub mod error;
pub mod lines;
pub mod ocpp;
pub mod pattern;
pub mod render;
pub mod state;
