//! What clients and a delivery service send each other.
pub mod apq;
