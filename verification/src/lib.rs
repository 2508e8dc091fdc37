//! Tap-tempo measurement: key filtering, the tap session, the terminal
//! discipline of one run, and the figures that are reported at its end.
//!
//! The library never touches a terminal or a clock. A driver reads the
//! events and the time, performs the actions that a [`run::Run`] asks for,
//! and writes the texts that [`report`] and [`cli`] compose.

pub mod cli;
pub mod decimal;
pub mod key;
pub mod report;
pub mod run;
pub mod session;
pub mod stroke;
pub mod terminal;
