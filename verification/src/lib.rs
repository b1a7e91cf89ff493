//! Core toolkit for a text-based role-playing game.
//!
//! The crate has two independent engines and one small data type:
//!
//! * [`character`] derives a character's stat vector from fixed class and
//!   race bonus tables plus two player-chosen bonus stats.
//! * [`dice`] parses compact dice notation (`"3d6"`), rolls the dice with a
//!   real random source, and renders the outcomes.
//! * [`location`] holds narrative location data and looks paragraphs up by key.

pub mod character;
pub mod dice;
pub mod location;
pub mod text;
