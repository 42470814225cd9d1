//! Board model and tone engine for a micro:bit class board.
//!
//! The crate describes the board as plain values: which GPIO line serves
//! which function and in which mode, and what a countdown timer, its
//! event routes and two toggle channels must hold to sound a tone. Every
//! function is verified; nothing in here touches a register.
#![allow(non_snake_case, non_camel_case_types, clippy::upper_case_acronyms)]

pub mod board;
pub mod channel;
pub mod engine;
pub mod frequency;
pub mod gpio;
pub mod hardware;
pub mod peripheral;
pub mod power;
pub mod route;
pub mod timer;
pub mod twi;
pub mod uart;
