//! Integration layer between a cheat-sheet browser and an interactive finder:
//! it turns a query configuration into the finder's options, decodes what the
//! finder printed into the final selection, and keeps the variable suggestions
//! of a cheat sheet.

pub mod display;
pub mod finder;
pub mod flows;
pub mod git;
pub mod structures;
pub mod text;
pub mod welcome;
