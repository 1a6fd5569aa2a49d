//! A tick-driven title sequencer: a fixed run of five phases, each with its
//! own hold time, that moves a primary element into place and then shows a
//! secondary one.

pub mod clock;
pub mod config;
pub mod motion;
pub mod phase;
pub mod screen;
pub mod sequencer;
pub mod timeline;
