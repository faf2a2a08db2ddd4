//! The library as a caller outside of Rust sees it: numbers for enums, codepoints for
//! suites, and bytes for messages.
pub mod capability;
pub mod group;
