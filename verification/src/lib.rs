//! A memory game of lights and buttons: the engine behind the hardware.
//!
//! Each round the engine draws one more step of a pseudo-random sequence,
//! replays the whole sequence on the lights and asks the player to repeat it
//! on the buttons. The first wrong press ends the game; repeating a sequence
//! of the maximum length wins it.
//!
//! Everything here works on plain values. Pins, clocks and delays belong to
//! the program around the engine, which shows each pattern the engine hands
//! out and hands back what it read.

pub mod actuators;
pub mod animation;
pub mod config;
pub mod engine;
pub mod generator;
pub mod sensors;
pub mod session;
