//! A console driver for a fixed text-mode display buffer of 25 rows by 80 columns.
//!
//! The driver appends glyphs to the bottom row of the grid and scrolls the rows
//! upward whenever a line ends. Every cell of the grid is a two-byte location that
//! is only ever touched through volatile reads and writes.

pub mod color;
pub mod cell;
pub mod screen;
pub mod writer;
pub mod console;
