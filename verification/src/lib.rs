//! Spring-animated smooth scrolling for a scrollable viewport.
//!
//! This crate holds the interaction logic of a scrolled-window widget that
//! replaces instantaneous wheel scrolling with a damped spring animation:
//! every wheel tick moves an animated destination by a fixed step, clamped to
//! the viewport's range, while non-wheel input (touch, trackpad) passes
//! through untouched.  The widget state is modelled with plain integer
//! values, so the event-routing and target arithmetic are fully verified;
//! the host toolkit's widget tree, property system and animation driver sit
//! outside this crate and call into these functions with plain values.

pub mod adjustment;
pub mod animation;
pub mod scrolled_window;
