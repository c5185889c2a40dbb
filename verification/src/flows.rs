//! What the commands of the program do, as far as it is computed.

pub mod repo;
