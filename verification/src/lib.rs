//! The logic of a four digit, seven segment desk clock.
//!
//! The clock shows the time, the date, an alarm time or a scrolling text. It is set with three
//! buttons and over USB. Everything here is decided on plain values: what the outside world does
//! (pins, timers, queues, the real time clock) arrives as an event, and what it is asked to do
//! leaves as an action.

pub mod buttons;
pub mod command;
pub mod controller;
pub mod display;
pub mod function;
pub mod glyph;
pub mod laws;
pub mod queue;
pub mod shift;
pub mod steps;
pub mod text;
pub mod time;
pub mod usb;
