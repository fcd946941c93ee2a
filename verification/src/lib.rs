//! Core engine of a global-hotkey daemon.
//!
//! The library turns textual key-combination bindings such as
//! `"<Super>+<Enter>"` into canonical (modifier-mask, key) pairs, expands them over the NumLock and
//! CapsLock ambiguity, records which OS-level key grabs succeeded in a registry,
//! and decides which callback an incoming input event should reach.  All I/O —
//! the scripting engine that supplies bindings, the display-server connection
//! that performs the grabs and delivers events — lives outside this crate and
//! talks to it through plain values.

pub mod dispatch;
pub mod grab;
pub mod keysym;
pub mod lexicon;
pub mod listing;
pub mod options;
pub mod parse;
pub mod registry;
pub mod text;
