//! Key packages: how devices publish them, and how servers hand them out.
pub mod key_package_service;
pub mod multi_ciphersuite;
pub mod rate_limiter;
