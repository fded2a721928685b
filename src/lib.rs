//! Translation of joystick events into keystroke requests.
//!
//! Raw device frames are decoded into integer codes, codes are resolved into
//! logical `(Button, Action)` pairs, and each button is expanded into key
//! symbols whose push and release requests are debounced against a record of
//! the symbols currently held.
use vstd::prelude::*;

pub mod button;
pub mod frame;
pub mod uniform;
pub mod laws;
