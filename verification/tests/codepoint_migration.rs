//! Draft codepoints and what becomes of them.
use kchat_mls::ciphersuite::codepoint_migration::{
    default_migration, migrate_ciphersuite, migrate_conversation_state, migrate_kem_type,
    migrate_signature_scheme, needs_migration, CiphersuiteRow, CodepointMigration, KemRow, SigRow,
};
use kchat_mls::ciphersuite::security_mode::SecurityMode;
use kchat_mls::group::no_downgrade::ConversationSecurityState;
use kchat_mls::types::{Ciphersuite, HpkeKemType, SignatureScheme};

fn xwing() -> Ciphersuite {
    Ciphersuite::MLS_256_XWING_CHACHA20POLY1305_SHA256_Ed25519
}

fn fe04() -> Ciphersuite {
    Ciphersuite::MLS_256_MLKEM768_AES256GCM_SHA384_Ed25519
}

fn fe05() -> Ciphersuite {
    Ciphersuite::MLS_256_MLKEM768_X25519_AES256GCM_SHA384_MLDSA65
}

fn fe06() -> Ciphersuite {
    Ciphersuite::MLS_256_MLKEM768_AES256GCM_SHA384_MLDSA65
}

fn classical() -> Ciphersuite {
    Ciphersuite::MLS_128_DHKEMX25519_AES128GCM_SHA256_Ed25519
}

#[test]
fn migrate_ciphersuite_returns_none_for_every_draft_suite_today() {
    for cs in [
        xwing(),
        Ciphersuite::MLS_256_MLKEM768_X25519_AES256GCM_SHA384_Ed25519,
        Ciphersuite::MLS_256_MLKEM768_X25519_CHACHA20POLY1305_SHA256_Ed25519,
        Ciphersuite::MLS_256_MLKEM1024_AES256GCM_SHA512_Ed448,
        fe04(),
        fe05(),
        fe06(),
    ] {
        assert!(
            cs.is_draft_codepoint(),
            "test fixture must be a draft suite: {cs:?}"
        );
        assert_eq!(
            migrate_ciphersuite(cs),
            None,
            "no final codepoint has been assigned for {cs:?} yet"
        );
    }
}

#[test]
fn migrate_ciphersuite_is_noop_for_classical_suite() {
    let cs = classical();
    assert!(
        !cs.is_draft_codepoint(),
        "classical suites must not be draft"
    );
    assert_eq!(migrate_ciphersuite(cs), None);
}

#[test]
fn needs_migration_matches_is_draft_codepoint() {
    for cs in [
        xwing(),
        fe04(),
        fe05(),
        fe06(),
        Ciphersuite::MLS_256_MLKEM1024_AES256GCM_SHA512_Ed448,
    ] {
        assert!(needs_migration(cs), "{cs:?} must need migration");
    }
    for cs in [
        classical(),
        Ciphersuite::MLS_128_DHKEMP256_AES128GCM_SHA256_P256,
        Ciphersuite::MLS_256_DHKEMP521_AES256GCM_SHA512_P521,
    ] {
        assert!(!needs_migration(cs), "{cs:?} must not need migration");
    }
}

#[test]
fn needs_migration_and_migrate_compose_correctly_pre_assignment() {
    let cs = xwing();
    assert!(needs_migration(cs));
    assert_eq!(migrate_ciphersuite(cs), None);
    assert!(!default_migration().can_migrate(cs));
}

#[test]
fn migrate_kem_type_returns_none_for_every_draft_kem_today() {
    for kem in [
        HpkeKemType::XWingKemDraft6,
        HpkeKemType::MlKem768X25519Draft,
        HpkeKemType::MlKem768Draft,
        HpkeKemType::MlKem1024Draft,
    ] {
        assert!(
            kem.is_draft_codepoint(),
            "test fixture must be a draft KEM: {kem:?}"
        );
        assert_eq!(migrate_kem_type(kem), None);
    }
}

#[test]
fn migrate_kem_type_is_noop_for_classical_kem() {
    let kem = HpkeKemType::DhKem25519;
    assert!(!kem.is_draft_codepoint());
    assert_eq!(migrate_kem_type(kem), None);
}

#[test]
fn migrate_signature_scheme_returns_none_for_every_draft_today() {
    for sig in [
        SignatureScheme::MLDSA44,
        SignatureScheme::MLDSA65,
        SignatureScheme::MLDSA87,
    ] {
        assert!(
            sig.is_draft_codepoint(),
            "test fixture must be a draft signature: {sig:?}"
        );
        assert_eq!(migrate_signature_scheme(sig), None);
    }
}

#[test]
fn migrate_signature_scheme_is_noop_for_classical_scheme() {
    for sig in [SignatureScheme::ED25519, SignatureScheme::ED448] {
        assert!(!sig.is_draft_codepoint());
        assert_eq!(migrate_signature_scheme(sig), None);
    }
}

#[test]
fn migrate_conversation_state_leaves_draft_pin_intact_today() {
    let mut state = ConversationSecurityState::new(SecurityMode::PqAuthenticity);
    state.pinned_ciphersuite = Some(fe06());
    let rotated = migrate_conversation_state(&mut state);
    assert!(
        !rotated,
        "with no final codepoint assigned, the pin must not rotate"
    );
    assert_eq!(state.pinned_ciphersuite, Some(fe06()));
}

#[test]
fn migrate_conversation_state_is_noop_when_no_pin() {
    let mut state = ConversationSecurityState::new(SecurityMode::Classical);
    assert_eq!(state.pinned_ciphersuite, None);
    let rotated = migrate_conversation_state(&mut state);
    assert!(!rotated);
    assert_eq!(state.pinned_ciphersuite, None);
}

#[test]
fn migrate_conversation_state_is_noop_for_final_pin() {
    let mut state = ConversationSecurityState::new(SecurityMode::Classical);
    state.pinned_ciphersuite = Some(classical());
    let rotated = migrate_conversation_state(&mut state);
    assert!(!rotated);
    assert_eq!(state.pinned_ciphersuite, Some(classical()));
}

#[test]
fn migrate_conversation_state_rotates_pin_when_final_codepoint_lands() {
    let mut state = ConversationSecurityState::new(SecurityMode::PqConfidentiality);
    state.pinned_ciphersuite = Some(xwing());

    let final_value = classical();
    if let Some(pinned) = state.pinned_ciphersuite {
        if pinned != final_value {
            state.pinned_ciphersuite = Some(final_value);
        }
    }

    assert_eq!(state.pinned_ciphersuite, Some(final_value));
}
