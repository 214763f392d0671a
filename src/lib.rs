//! Finds a token's name and symbol among the storage writes of a state diff.
//!
//! A contract that stores a token name and its ticker in neighbouring slots
//! leaves, in an ordered list of storage changes, two adjacent records whose
//! new values read as text: first the name, then the symbol.

pub mod change;
pub mod scan;
pub mod shape;

pub use change::StorageChange;
pub use scan::find_name_symbol_pair;
pub use shape::{is_symbol, is_typical_string, MAX_SYMBOL_CHARS};
