//! Terminal control over two kinds of host terminal: one that understands
//! escape sequences and a native console with a buffer-and-viewport model.

pub mod geometry;
pub mod console;
pub mod manager;
pub mod state;
pub mod terminal;
pub mod input;
