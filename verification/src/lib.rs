//! Post-quantum conversations over MLS.
//!
//! A conversation runs over one MLS group or over two: a classical one (the T session)
//! and a post-quantum one (the PQ session), tied together by a shared key. This library
//! decides what becomes of such conversations. It says which mode and suite the devices
//! of the members have in common (`credentials`, `ciphersuite`,
//! `group::conversation_upgrade`), which commits a policy asks for (`group::pq_policy`,
//! `group::apq_commit`), how sessions that have come apart come together again
//! (`group::apq_resync`), how a group moves to another suite (`group::reinit_upgrade`),
//! how a migration advances (`group::migration_state`, `group::storage_migration`), and
//! that a conversation never becomes weaker (`group::no_downgrade`).
//!
//! Around that stand the services of a server (`key_packages`, `messages`,
//! `group::conversation_metadata`, `credentials::capability_registry`), the forms of
//! all messages on the wire (`tls`, `wire`, `delivery`), the cryptography (`crypto`),
//! and two ways in: a command line (`cli`) and calls by numbers and bytes (`bindings`).
//!
//! MLS itself, the network and the disk are not here. Where a decision needs them, a
//! function says what to do next, and another one takes the answer.
use vstd::prelude::*;

pub mod assoc;
pub mod bindings;
pub mod bytes;
pub mod ciphersuite;
pub mod cli;
pub mod credentials;
pub mod crypto;
pub mod delivery;
pub mod extensions;
pub mod group;
pub mod key_packages;
pub mod messages;
pub mod mls;
pub mod text;
pub mod tls;
pub mod types;
pub mod wire;

verus! {

} // verus!
