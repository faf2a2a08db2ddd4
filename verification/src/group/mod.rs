//! Conversations: their security state, their sessions and how both change.
pub mod apq_commit;
pub mod apq_resync;
pub mod conversation_metadata;
pub mod conversation_upgrade;
pub mod kchat_conversation;
pub mod migration_state;
pub mod no_downgrade;
pub mod pq_policy;
pub mod pq_telemetry;
pub mod reinit_upgrade;
pub mod storage_migration;
