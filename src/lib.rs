//! A shared pixel canvas: a fixed set of grids of colour cells that many
//! request handlers read and write at once, one atomic cell at a time, and the
//! request handling and command parsing around it.

pub mod canvas;
pub mod color;
pub mod command;
pub mod grid;
pub mod number;
pub mod service;
pub mod text;
