//! Generation of UUIDs in the time-based, name-based (MD5 and SHA-1) and
//! random variants, rendered in canonical hyphenated text, together with the
//! plan of what a command-line run shows and copies.
pub mod flags;
pub mod format;
pub mod generate;
pub mod run;
pub mod text;
