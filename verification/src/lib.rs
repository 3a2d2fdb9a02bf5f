//! Core engine of a keystroke-driven text expander.
//!
//! The library turns a stream of physical key events into trigger
//! recognitions and expansion commands.  It is organised bottom-up:
//! `keymap` maps key codes to printable characters, `text` holds the
//! verified character-sequence utilities, `template` expands a matched
//! trigger's replacement text, `matcher` maintains the bounded buffer of
//! recently typed characters, and `event_loop` models the two-mode
//! (consuming / draining) discipline that keeps the daemon from
//! re-reading its own synthetic output.
pub mod event_loop;
pub mod keymap;
pub mod matcher;
pub mod template;
pub mod text;
