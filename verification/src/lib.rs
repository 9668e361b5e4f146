//! Hit It: a rhythm game. Notes of a song's chart scroll towards four
//! arrows; pressing the arrow of a note within `TIME_OFFSET` milliseconds of
//! its time scores, and notes missed or presses made too early cost.
//!
//! The library holds the game's rules: the screens and menus it goes through
//! and what each key does there (`game`), the scoring of presses against a
//! chart (`scoring`), the chart file format (`song`), and the commands of the
//! audio thread (`audio`).

#![allow(non_camel_case_types)]

pub mod audio;
pub mod channel;
pub mod clock;
pub mod keyboard;
pub mod scoring;
pub mod song;
pub mod game;
pub mod laws;
