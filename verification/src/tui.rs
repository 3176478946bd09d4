//! The debugger: an emulator with breakpoints and views of memory and of
//! the stack, driven by keys. What it shows and how it waits is left to the
//! program around it.

pub mod app;
pub mod events;
