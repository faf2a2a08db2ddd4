//! Calls by codepoints and bytes.
use kchat_mls::bindings::capability::{
    select_conversation_mode, select_conversation_mode_inner, BindingError, DeviceCapability,
    LifecyclePhase, SecurityMode, SelectModeError,
};
use kchat_mls::bindings::group::{
    Group, MessageBody, NoWelcomeError, NotAWelcome, ReceivedAction, ReceivedContent,
};
use kchat_mls::ciphersuite::security_mode::SecurityMode as InnerSecurityMode;
use kchat_mls::credentials::device_capability::{
    CredentialError, DeviceCapability as InnerCapability,
};
use kchat_mls::crypto::{CryptoProvider, SignatureProvider};
use kchat_mls::group::conversation_upgrade::ConversationUpgradeError;
use kchat_mls::group::migration_state::ConversationLifecycle;
use kchat_mls::mls::{MergedCommit, MlsGroup, MlsMessageOut};
use kchat_mls::tls::TlsError;
use kchat_mls::types::{Ciphersuite, CryptoError, GroupId, SignatureScheme};

fn capability(classical: Vec<u16>, pq: Vec<u16>, apq: bool, auth: bool) -> DeviceCapability {
    DeviceCapability::new(1, classical, pq, apq, auth, "p".to_string()).unwrap()
}

#[test]
fn numbers_of_modes_grow_with_strength() {
    assert_eq!(SecurityMode::from(InnerSecurityMode::Classical).number(), 0);
    assert_eq!(
        SecurityMode::from(InnerSecurityMode::PqConfidentiality).number(),
        1
    );
    assert_eq!(
        SecurityMode::from(InnerSecurityMode::PqAuthenticity).number(),
        2
    );
}

#[test]
fn every_lifecycle_has_its_phase() {
    let cases = [
        (ConversationLifecycle::UpgradeEligible, LifecyclePhase::UpgradeEligible),
        (ConversationLifecycle::UpgradeProposed, LifecyclePhase::UpgradeProposed),
        (ConversationLifecycle::UpgradeInProgress, LifecyclePhase::UpgradeInProgress),
        (ConversationLifecycle::PqActive, LifecyclePhase::PqActive),
        (ConversationLifecycle::ApqBootstrapping, LifecyclePhase::ApqBootstrapping),
        (ConversationLifecycle::ApqActive, LifecyclePhase::ApqActive),
    ];
    for (lifecycle, phase) in cases {
        assert_eq!(LifecyclePhase::from(&lifecycle), phase);
    }
}

#[test]
fn unknown_codepoints_are_refused_classical_first() {
    let new = |classical: Vec<u16>, pq: Vec<u16>| {
        DeviceCapability::new(1, classical, pq, false, false, "p".to_string())
    };
    assert_eq!(
        new(vec![1, 0x99, 0x98], vec![0x97]),
        Err(BindingError::InvalidClassicalCiphersuite { codepoint: 0x99 })
    );
    assert_eq!(
        new(vec![1], vec![0x4d, 0x97]),
        Err(BindingError::InvalidPqCiphersuite { codepoint: 0x97 })
    );
    let c = new(vec![1, 3], vec![0x4d]).unwrap();
    assert_eq!(c.classical_ciphersuites(), vec![1, 3]);
    assert_eq!(c.pq_ciphersuites(), vec![0x4d]);
    assert!(!c.is_signed());
    assert!(!c.apq_supported());
    assert!(!c.pq_auth_supported());
    assert_eq!(c.mls_version(), 1);
    assert_eq!(c.provider_id(), "p");
}

#[test]
fn signatures_go_by_codepoint() {
    let crypto = CryptoProvider::new().unwrap();
    let (key, public) = crypto.signature_key_gen(SignatureScheme::ED25519).unwrap();
    let mut c = capability(vec![1], vec![], false, false);
    assert_eq!(
        c.verify(0x0807, &public, &crypto),
        Err(BindingError::VerifyFailed(CredentialError::InvalidSignature))
    );
    assert_eq!(
        c.sign(0x0000, &key, &crypto),
        Err(BindingError::InvalidSignatureScheme { codepoint: 0 })
    );
    assert_eq!(
        c.sign(0x0808, &key, &crypto),
        Err(BindingError::SignFailed(CredentialError::InvalidSignature))
    );
    assert_eq!(c.sign(0x0807, &key, &crypto), Ok(()));
    assert!(c.is_signed());
    assert_eq!(c.verify(0x0807, &public, &crypto), Ok(()));
    assert_eq!(
        c.verify(0x0001, &public, &crypto),
        Err(BindingError::InvalidSignatureScheme { codepoint: 1 })
    );
}

#[test]
fn bytes_behind_a_capability_are_left_alone() {
    let c = capability(vec![1], vec![0x4d], true, true);
    let mut bytes = c.tls_encode().unwrap();
    bytes.push(1);
    assert_eq!(DeviceCapability::tls_decode(&bytes), Ok(c));
    assert_eq!(
        DeviceCapability::tls_decode(&[0]),
        Err(TlsError::EndOfStream)
    );
}

#[test]
fn peers_get_their_strongest_mode() {
    let pq = || capability(vec![1], vec![0x4d], true, false);
    let selected = select_conversation_mode_inner(&[pq(), pq()]).unwrap();
    assert_eq!(selected.mode(), SecurityMode::PqConfidentiality);
    assert_eq!(selected.ciphersuite(), 0x4d);
    let refused = select_conversation_mode_inner(&[
        capability(vec![1], vec![], false, false),
        capability(vec![3], vec![], false, false),
    ]);
    assert_eq!(
        refused,
        Err(SelectModeError::Refused(
            ConversationUpgradeError::NoCommonCiphersuite {
                mode: InnerSecurityMode::Classical
            }
        ))
    );
    assert_eq!(
        select_conversation_mode(vec![]),
        Err("selectConversationMode requires at least one peer capability".to_string())
    );
    assert_eq!(
        select_conversation_mode(vec![
            capability(vec![1], vec![], false, false),
            capability(vec![3], vec![], false, false),
        ]),
        Err("select_conversation_mode: NoCommonCiphersuite { mode: Classical }".to_string())
    );
}

#[test]
fn groups_take_their_messages() {
    let mut group = Group::create_new("chess");
    let out = |b: u8| MlsMessageOut { bytes: vec![b] };
    let added = group
        .propose_and_commit_add(out(1), out(2), Some(out(3)))
        .unwrap();
    assert_eq!(added.proposal(), vec![1]);
    assert_eq!(added.commit(), vec![2]);
    assert_eq!(added.welcome(), vec![3]);
    assert_eq!(
        group.propose_and_commit_add(out(1), out(2), None),
        Err(NoWelcomeError)
    );
    assert_eq!(NoWelcomeError.message(), "no welcome");
    let private = MessageBody::PrivateMessage;
    assert_eq!(
        group.process_message(private, ReceivedContent::ApplicationMessage(vec![4, 5])),
        ReceivedAction::Deliver(vec![4, 5])
    );
    assert_eq!(
        group.process_message(private, ReceivedContent::ProposalMessage),
        ReceivedAction::StoreProposal
    );
    assert_eq!(
        group.process_message(private, ReceivedContent::ExternalJoinProposalMessage),
        ReceivedAction::StoreProposal
    );
    assert!(group.proposal_stored().is_empty());
    assert_eq!(
        group.process_message(MessageBody::PublicMessage, ReceivedContent::StagedCommitMessage),
        ReceivedAction::MergeCommit
    );
    let merged = MergedCommit {
        epoch: 1,
        active: true,
    };
    assert!(group.commit_merged(merged).is_empty());
    let expected = Group::join(
        MessageBody::Welcome,
        MlsGroup::new(
            GroupId::from_slice(b"chess"),
            Ciphersuite::MLS_128_DHKEMX25519_CHACHA20POLY1305_SHA256_Ed25519,
            1,
            true,
        ),
    )
    .unwrap();
    assert_eq!(group, expected);
    group.merge_pending_commit(MergedCommit {
        epoch: 2,
        active: false,
    });
    assert_ne!(group, expected);
}

#[test]
fn only_welcomes_are_joined() {
    let group = MlsGroup::new(
        GroupId::from_slice(b"g"),
        Ciphersuite::MLS_128_DHKEMX25519_CHACHA20POLY1305_SHA256_Ed25519,
        3,
        true,
    );
    assert_eq!(
        Group::join(MessageBody::KeyPackage, group),
        Err(NotAWelcome {
            body: MessageBody::KeyPackage
        })
    );
}

/// Signs with the key followed by the last byte of the data, under every scheme.
struct KeyEcho;

impl SignatureProvider for KeyEcho {
    fn sign(
        &self,
        alg: SignatureScheme,
        data: &[u8],
        key: &[u8],
    ) -> Result<Vec<u8>, CryptoError> {
        if alg == SignatureScheme::MLDSA44 {
            return Err(CryptoError::SigningError);
        }
        let mut signature = key.to_vec();
        signature.push(data[data.len() - 1]);
        Ok(signature)
    }

    fn verify_signature(
        &self,
        alg: SignatureScheme,
        data: &[u8],
        pk: &[u8],
        signature: &[u8],
    ) -> Result<(), CryptoError> {
        if self.sign(alg, data, pk)?.as_slice() == signature {
            Ok(())
        } else {
            Err(CryptoError::InvalidSignature)
        }
    }
}

#[test]
fn the_provider_decides_which_schemes_are_served() {
    let mut c = capability(vec![1], vec![], false, false);
    assert_eq!(c.sign(0x0403, &[5, 6], &KeyEcho), Ok(()));
    assert!(c.is_signed());
    assert_eq!(c.verify(0x0403, &[5, 6], &KeyEcho), Ok(()));
    assert_eq!(
        c.verify(0x0403, &[6], &KeyEcho),
        Err(BindingError::VerifyFailed(CredentialError::InvalidSignature))
    );
    assert_eq!(
        c.sign(0x0904, &[5, 6], &KeyEcho),
        Err(BindingError::SignFailed(CredentialError::InvalidSignature))
    );
    assert_eq!(c.verify(0x0403, &[5, 6], &KeyEcho), Ok(()));
}

#[test]
fn what_came_of_signing_takes_the_place_of_the_signature() {
    let mut c = InnerCapability::new(1, vec![], vec![], false, false, "p".to_string());
    let unsigned = c.clone();
    assert_eq!(
        c.take_signature(Err(CryptoError::CryptoLibraryError)),
        Err(CredentialError::InvalidSignature)
    );
    assert_eq!(c, unsigned);
    assert_eq!(c.take_signature(Ok(vec![7, 8])), Ok(()));
    assert_eq!(c.capability_signature.as_slice(), &[7, 8]);
    assert_eq!(c.provider_id, unsigned.provider_id);
}
