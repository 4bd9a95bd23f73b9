//! Paints text on a contribution calendar: a table of 7 x 5 glyphs, the
//! layout of a word's lit cells onto dates (one week per glyph column, one
//! weekday per glyph row), and the plan of backdated commits that draws it.
pub mod calendar;
pub mod glyph;
pub mod layout;
pub mod plan;
pub mod text;
