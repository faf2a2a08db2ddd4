//! Security modes, and the change from draft to final codepoints.
pub mod codepoint_migration;
pub mod security_mode;
