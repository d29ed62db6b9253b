//! A periodic table of the elements as a fixed character-cell grid.
//!
//! The crate validates raw element records, places every element on a dense
//! 9 x 18 cell grid (periods as rows, groups as columns, the f-block in two
//! dedicated rows), and drives the focus-navigation and exit-confirmation
//! state machines of an interactive viewer over that grid.  Reading the data
//! file and drawing the terminal are left to the surrounding application;
//! everything here works on plain values and is verified.

pub mod dimensions;
pub mod grid;
pub mod loader;
pub mod navigation;
pub mod ratom;
pub mod widgets;
