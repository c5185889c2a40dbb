//! The finder: its options, and the reading of what it printed.

pub mod column;
pub mod options;
pub mod outcome;
pub mod output;

pub use self::column::get_column;
pub use self::column::try_get_column;
pub use self::options::FinderOptions;
pub use self::outcome::conclude;
pub use self::outcome::Outcome;
pub use self::output::parse_output_single;
pub use self::output::FinderError;
