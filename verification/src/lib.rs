//! A cellular automaton of the Game of Life family on a torus.
//!
//! The grid has a fixed width and height and wraps at its edges. A
//! [`Universe`] owns the cells and the rules, and `tick` replaces the whole
//! grid by its next generation. What a generation is, and what the next one
//! is, is defined on [`UniverseView`], the mathematical model that every
//! contract of the executable code refers to.

pub mod cell;
pub mod error;
pub mod laws;
pub mod model;
pub mod random;
pub mod render;
pub mod rules;
pub mod still_life;
pub mod universe;

pub use cell::Cell;
pub use error::UniverseError;
pub use model::UniverseView;
pub use random::LifeRate;
pub use render::{Glyphs, GlyphsView};
pub use rules::Rules;
pub use universe::Universe;
