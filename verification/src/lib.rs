//! A small library that models a shared washing machine driven by chat
//! commands: a state machine serialising access to the machine (`washer`),
//! a cancellable single-shot timer (`timer`), and the pure command-parsing
//! layer that turns message text into actions (`command`).

pub mod command;
pub mod config;
pub mod timer;
pub mod washer;
