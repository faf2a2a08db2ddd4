//! Records that are carried in a group's context.
pub mod apq_info;
