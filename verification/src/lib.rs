//! A verified model of a display-server wrapper for a window manager.
//!
//! The library models the session a window manager holds with a display
//! server: screen and window enumeration, attribute and hint queries, the
//! two-step geometry-change protocol (configure request followed by a
//! synthetic structure-change notification), event-mask subscription, and
//! event retrieval. The actual wire calls are made by an unverified backend
//! that mirrors this model method for method; the model pins down exactly
//! which requests each operation issues and how the server-side state and
//! event queue evolve.

pub mod laws;
pub mod model;
pub mod protocol;
pub mod types;
pub mod xwrap;
