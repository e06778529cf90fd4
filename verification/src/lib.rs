//! A verified model of an LVGL-style widget toolkit binding.
//!
//! The library keeps, for every widget, the bookkeeping that a binding layer
//! owns: an object handle drawn from a registry, the widget's identifier and
//! info string, the style fields applied to it, its state bits, and the
//! kind-specific value (text, toggle, number, points, ...).  On top of that it
//! models the two places where such a binding has behaviour of its own:
//!
//! * the translation of native numeric event codes into a closed set of
//!   semantic events, together with the per-kind allow-list that decides which
//!   events reach an application handler;
//! * the marshaling of text onto a NUL-terminated byte boundary, where byte
//!   sequences that are not valid UTF-8, or that contain an interior NUL, are
//!   replaced by a fixed placeholder instead of being rejected.
//!
//! Rendering, layout and input belong to the display backend and are not
//! modelled; a thin driver around this crate performs them.

pub mod assets;
pub mod core_widgets;
pub mod demo;
pub mod display;
pub mod events;
pub mod extra_widgets;
pub mod generic;
pub mod prelude;
pub mod text;
pub mod time;
pub mod widget;
