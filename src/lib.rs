//! An animated nativity tableau for the terminal.
//!
//! The library decides which scene a date calls for, lays out the tableau
//! and the sky as streams of drawing operations, and steps the event loop.
//! Carrying those operations out on a real terminal is left to the caller.

pub mod calendar;
pub mod scene;
pub mod canvas;
pub mod tableau;
pub mod sky;
pub mod event_loop;
