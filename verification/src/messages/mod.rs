//! Messages of paired conversations, and how they are delivered.
pub mod apq_delivery;
pub mod apq_welcome;
pub mod delivery_service;
