//! Values on the wire, byte for byte.
use kchat_mls::ciphersuite::security_mode::SecurityMode;
use kchat_mls::credentials::capability_protocol::{
    CapabilityFetchKey, CapabilityFetchRequest, CapabilityFetchResponse,
    CapabilityPublishResponse, FetchedCapability,
};
use kchat_mls::credentials::device_capability::DeviceCapability;
use kchat_mls::delivery::apq::{
    ApqEnvelope, AuthToken, PublishApqCommitPairRequest, PublishApqMessageRequest,
    RecvApqMessagesResponse,
};
use kchat_mls::extensions::apq_info::ApqInfo;
use kchat_mls::messages::apq_delivery::{ApqCommitPair, ApqDeliveryOrder, ApqMessage};
use kchat_mls::messages::apq_welcome::ApqWelcome;
use kchat_mls::mls::{EncryptedGroupSecrets, PreSharedKeyId, ResumptionPskUsage, Welcome};
use kchat_mls::tls::{TlsError, VLBytes};
use kchat_mls::types::{Ciphersuite, GroupId};
use kchat_mls::wire::{tls_deserialize, tls_deserialize_exact, tls_serialize_detached};

fn classical() -> Ciphersuite {
    Ciphersuite::MLS_128_DHKEMX25519_AES128GCM_SHA256_Ed25519
}

fn xwing() -> Ciphersuite {
    Ciphersuite::MLS_256_XWING_CHACHA20POLY1305_SHA256_Ed25519
}

fn info() -> ApqInfo {
    ApqInfo::new(
        GroupId::from_slice(&[1, 2]),
        GroupId::from_slice(&[3]),
        5,
        6,
        classical(),
        xwing(),
        SecurityMode::PqConfidentiality,
    )
}

fn info_bytes() -> Vec<u8> {
    vec![
        2, 1, 2, 1, 3, 0, 0, 0, 0, 0, 0, 0, 5, 0, 0, 0, 0, 0, 0, 0, 6, 0, 1, 0, 0x4d, 1,
    ]
}

#[test]
fn link_records_have_their_form() {
    assert_eq!(tls_serialize_detached(&info()).unwrap(), info_bytes());
    assert_eq!(info().tls_serialized_len(), info_bytes().len());
    let mut longer = info_bytes();
    longer.push(9);
    let (read, rest) = ApqInfo::tls_deserialize_bytes(&longer).unwrap();
    assert_eq!(read, info());
    assert_eq!(rest, &[9]);
    let mut reader: &[u8] = &longer;
    assert_eq!(ApqInfo::tls_deserialize(&mut reader).unwrap(), info());
    assert_eq!(reader, &[9]);
    assert_eq!(
        tls_deserialize_exact::<ApqInfo>(&longer),
        Err(TlsError::TrailingData)
    );
    assert_eq!(
        tls_deserialize_exact::<ApqInfo>(&info_bytes()[..25]),
        Err(TlsError::EndOfStream)
    );
}

#[test]
fn capabilities_have_their_form() {
    let mut capability =
        DeviceCapability::new(1, vec![classical()], vec![xwing()], true, false, "ab".to_string());
    let payload = vec![0, 1, 2, 0, 1, 2, 0, 0x4d, 1, 0, 2, b'a', b'b'];
    assert_eq!(capability.serializable_payload(), payload);
    capability.capability_signature = VLBytes::new(vec![7, 8]);
    let mut bytes = payload;
    bytes.extend_from_slice(&[2, 7, 8]);
    assert_eq!(capability.tls_serialize_detached().unwrap(), bytes);
    assert_eq!(capability.tls_serialized_len(), bytes.len());
    let mut writer = vec![0xff];
    assert_eq!(capability.tls_serialize(&mut writer), Ok(bytes.len()));
    assert_eq!(writer[1..], bytes[..]);
    assert_eq!(
        DeviceCapability::tls_deserialize_bytes(&bytes).unwrap().0,
        capability
    );
}

#[test]
fn capabilities_with_unknown_suites_or_bad_text_are_refused() {
    let bytes = [0, 1, 2, 0x12, 0x34, 0, 0, 0, 0, 0];
    assert!(tls_deserialize_exact::<DeviceCapability>(&bytes).is_err());
    let bytes = [0, 1, 0, 0, 0, 0, 1, 0xff, 0];
    assert!(matches!(
        tls_deserialize_exact::<DeviceCapability>(&bytes),
        Err(TlsError::DecodingError(_))
    ));
}

#[test]
fn invalid_bools_are_named() {
    let bytes = [0, 1, 0, 0, 2, 0, 0, 0];
    assert_eq!(
        tls_deserialize_exact::<DeviceCapability>(&bytes),
        Err(TlsError::DecodingError("invalid bool byte 0x02".to_string()))
    );
}

#[test]
fn messages_have_their_form() {
    let message = ApqMessage::new_pq(b"hi".to_vec());
    let bytes = vec![1, 2, b'h', b'i'];
    assert_eq!(tls_serialize_detached(&message).unwrap(), bytes);
    assert_eq!(tls_deserialize_exact::<ApqMessage>(&bytes), Ok(message));
    assert_eq!(
        tls_deserialize_exact::<ApqMessage>(&[2, 0]),
        Err(TlsError::DecodingError(
            "invalid SessionSide discriminant".to_string()
        ))
    );
}

#[test]
fn long_payloads_get_longer_prefixes() {
    let message = ApqMessage::new_t(vec![7; 64]);
    let bytes = tls_serialize_detached(&message).unwrap();
    assert_eq!(bytes[..3], [0, 0x40, 0x40]);
    assert_eq!(tls_deserialize_exact::<ApqMessage>(&bytes), Ok(message));
    let message = ApqMessage::new_t(vec![7; 0x4000]);
    let bytes = tls_serialize_detached(&message).unwrap();
    assert_eq!(bytes[..5], [0, 0x80, 0, 0x40, 0]);
    assert_eq!(tls_deserialize_exact::<ApqMessage>(&bytes), Ok(message));
}

#[test]
fn pairs_have_their_form() {
    let pair = ApqCommitPair::new(0x0102, vec![9], vec![]);
    let bytes = vec![0, 0, 0, 0, 0, 0, 1, 2, 0, 1, 1, 9, 0, 0];
    assert_eq!(tls_serialize_detached(&pair).unwrap(), bytes);
    assert_eq!(tls_deserialize_exact::<ApqCommitPair>(&bytes), Ok(pair));
    let mut bad = bytes;
    bad[8] = 3;
    assert_eq!(
        tls_deserialize_exact::<ApqCommitPair>(&bad),
        Err(TlsError::DecodingError(
            "invalid APQ delivery order discriminant 3".to_string()
        ))
    );
    assert_eq!(
        tls_serialize_detached(&ApqDeliveryOrder::Independent),
        Ok(vec![2])
    );
}

#[test]
fn envelopes_and_requests_have_their_form() {
    let message = ApqMessage::new_t(vec![1]);
    let pair = ApqCommitPair::new(1, vec![], vec![]);
    let token = || AuthToken {
        token: VLBytes::new(vec![4, 5]),
    };
    let request = PublishApqMessageRequest {
        message: message.clone(),
        auth_token: token(),
    };
    let bytes = vec![0, 1, 1, 2, 4, 5];
    assert_eq!(tls_serialize_detached(&request).unwrap(), bytes);
    assert_eq!(tls_deserialize_exact(&bytes), Ok(request));
    let request = PublishApqCommitPairRequest {
        pair: pair.clone(),
        auth_token: token(),
    };
    let bytes = vec![0, 0, 0, 0, 0, 0, 0, 1, 0, 1, 0, 0, 0, 2, 4, 5];
    assert_eq!(tls_serialize_detached(&request).unwrap(), bytes);
    assert_eq!(tls_deserialize_exact(&bytes), Ok(request));
    let response = RecvApqMessagesResponse {
        envelopes: vec![ApqEnvelope::Message(message), ApqEnvelope::CommitPair(pair)],
    };
    let bytes = vec![
        18, 0, 0, 1, 1, 1, 0, 0, 0, 0, 0, 0, 0, 1, 0, 1, 0, 0, 0,
    ];
    assert_eq!(tls_serialize_detached(&response).unwrap(), bytes);
    assert_eq!(tls_deserialize_exact(&bytes), Ok(response));
    assert_eq!(
        tls_deserialize_exact::<ApqEnvelope>(&[7]),
        Err(TlsError::DecodingError("unknown ApqEnvelope tag 7".to_string()))
    );
}

#[test]
fn welcomes_have_their_form() {
    let welcome = || Welcome::new(xwing(), vec![], vec![6]);
    let direct = ApqWelcome::new_direct_pq(welcome(), info());
    let mut bytes = vec![0, 0, 0x4d, 0, 1, 6];
    bytes.extend_from_slice(&info_bytes());
    bytes.push(0);
    assert_eq!(tls_serialize_detached(&direct).unwrap(), bytes);
    assert_eq!(direct.tls_serialized_len(), bytes.len());
    let mut writer = vec![];
    assert_eq!(direct.tls_serialize(&mut writer), Ok(bytes.len()));
    assert_eq!(writer, bytes);
    let mut reader: &[u8] = &bytes;
    assert_eq!(ApqWelcome::tls_deserialize(&mut reader), Ok(direct));
    assert!(reader.is_empty());
    let last = bytes.len() - 1;
    bytes[last] = 5;
    assert_eq!(
        tls_deserialize_exact::<ApqWelcome>(&bytes),
        Err(TlsError::DecodingError(
            "invalid initial_apq_psk_id presence flag 5".to_string()
        ))
    );
    bytes[0] = 4;
    assert_eq!(
        tls_deserialize_exact::<ApqWelcome>(&bytes),
        Err(TlsError::DecodingError(
            "invalid t_welcome presence flag 4".to_string()
        ))
    );
}

#[test]
fn names_of_keys_have_their_form() {
    let mut bytes = vec![];
    let id = PreSharedKeyId::external(vec![1, 2], vec![3]);
    assert_eq!(id.tls_serialize(&mut bytes), Ok(6));
    assert_eq!(bytes, vec![1, 2, 1, 2, 1, 3]);
    assert_eq!(PreSharedKeyId::tls_deserialize_bytes(&bytes).unwrap().0, id);
    let mut bytes = vec![];
    let id = PreSharedKeyId::resumption(
        ResumptionPskUsage::Reinit,
        GroupId::from_slice(&[8]),
        9,
        vec![4],
    );
    assert_eq!(id.tls_serialize(&mut bytes), Ok(id.tls_serialized_len()));
    assert_eq!(bytes, vec![2, 2, 1, 8, 0, 0, 0, 0, 0, 0, 0, 9, 1, 4]);
    assert_eq!(PreSharedKeyId::tls_deserialize_bytes(&bytes).unwrap().0, id);
}

#[test]
fn protocol_messages_have_their_form() {
    let response = CapabilityPublishResponse {
        user_id: VLBytes::new(vec![1]),
        device_id: VLBytes::new(vec![]),
        version: 3,
    };
    let bytes = vec![1, 1, 0, 0, 0, 0, 0, 0, 0, 0, 3];
    assert_eq!(tls_serialize_detached(&response).unwrap(), bytes);
    assert_eq!(tls_deserialize_exact(&bytes), Ok(response));
    let request = CapabilityFetchRequest {
        keys: vec![CapabilityFetchKey {
            user_id: VLBytes::new(vec![1]),
            device_id: VLBytes::new(vec![2]),
        }],
    };
    let bytes = vec![4, 1, 1, 1, 2];
    assert_eq!(tls_serialize_detached(&request).unwrap(), bytes);
    assert_eq!(tls_deserialize_exact(&bytes), Ok(request));
    let response = CapabilityFetchResponse {
        entries: vec![FetchedCapability {
            user_id: VLBytes::new(vec![1]),
            device_id: VLBytes::new(vec![2]),
            capability: None,
            version: 0,
        }],
    };
    let bytes = tls_serialize_detached(&response).unwrap();
    assert_eq!(bytes, vec![13, 1, 1, 1, 2, 0, 0, 0, 0, 0, 0, 0, 0, 0]);
    assert_eq!(tls_deserialize_exact(&bytes), Ok(response));
}

#[test]
fn welcomes_hold_entries_for_new_members() {
    let entry = |tag: u8| EncryptedGroupSecrets {
        new_member: VLBytes::new(vec![tag]),
        kem_output: VLBytes::new(vec![]),
        ciphertext: VLBytes::new(vec![tag, tag]),
    };
    let welcome = Welcome::new(xwing(), vec![entry(1), entry(2)], vec![6]);
    let bytes = vec![0, 0x4d, 12, 1, 1, 0, 2, 1, 1, 1, 2, 0, 2, 2, 2, 1, 6];
    let mut writer = vec![];
    assert_eq!(welcome.tls_serialize(&mut writer), Ok(bytes.len()));
    assert_eq!(writer, bytes);
    assert_eq!(welcome.tls_serialized_len(), bytes.len());
    let mut reader: &[u8] = &bytes;
    assert_eq!(Welcome::tls_deserialize(&mut reader), Ok(welcome.clone()));
    assert!(reader.is_empty());
    assert_eq!(Welcome::tls_deserialize_bytes(&bytes).unwrap().0, welcome);
}

#[test]
fn malformed_entries_are_refused() {
    let mut bytes = vec![0, 0, 0x4d, 1, 0xff, 1, 6];
    bytes.extend_from_slice(&info_bytes());
    bytes.push(0);
    let mut reader: &[u8] = &bytes;
    assert_eq!(
        ApqWelcome::tls_deserialize(&mut reader),
        Err(TlsError::InvalidVectorLength)
    );
    assert_eq!(reader, &bytes[5..]);
    let cut_entry = [0, 0x4d, 2, 1, 9, 3, 8];
    assert_eq!(
        Welcome::tls_deserialize_bytes(&cut_entry).map(|x| x.1),
        Err(TlsError::EndOfStream)
    );
}

#[test]
fn readers_stop_behind_what_they_read() {
    let mut bytes = info_bytes();
    let last = bytes.len() - 1;
    bytes[last] = 7;
    bytes.push(9);
    let mut reader: &[u8] = &bytes;
    assert!(ApqInfo::tls_deserialize(&mut reader).is_err());
    assert_eq!(reader, &[9]);
    let mut reader: &[u8] = &bytes[..last];
    assert_eq!(
        ApqInfo::tls_deserialize(&mut reader),
        Err(TlsError::EndOfStream)
    );
    assert!(reader.is_empty());
    let bytes = [0, 1, 0, 0, 2, 0, 0, 0];
    let mut reader: &[u8] = &bytes;
    assert_eq!(
        DeviceCapability::tls_deserialize(&mut reader),
        Err(TlsError::DecodingError("invalid bool byte 0x02".to_string()))
    );
    assert_eq!(reader, &[0, 0, 0]);
    let bytes = [0, 1, 2, 0xee, 0xee, 5];
    let mut reader: &[u8] = &bytes;
    assert_eq!(
        DeviceCapability::tls_deserialize(&mut reader),
        Err(TlsError::UnknownValue(0xeeee))
    );
    assert_eq!(reader, &[5]);
    let bytes = [0, 1, 0x40, 1, 5];
    let mut reader: &[u8] = &bytes;
    assert_eq!(
        DeviceCapability::tls_deserialize(&mut reader),
        Err(TlsError::InvalidVectorLength)
    );
    assert_eq!(reader, &[5]);
    let bytes = [2, 0, 7];
    let mut reader: &[u8] = &bytes;
    assert!(tls_deserialize::<ApqMessage>(&mut reader).is_err());
    assert_eq!(reader, &[0, 7]);
    let bytes = [1, 1, 8, 7];
    let mut reader: &[u8] = &bytes;
    assert_eq!(
        tls_deserialize::<ApqMessage>(&mut reader),
        Ok(ApqMessage::new_pq(vec![8]))
    );
    assert_eq!(reader, &[7]);
}

#[test]
fn writers_stop_before_what_is_too_long() {
    let too_long = || vec![0u8; 0x4000_0000];
    let mut record = info();
    record.pq_group_id = GroupId::from_vec(too_long());
    let mut writer = vec![0xff];
    assert_eq!(
        record.tls_serialize(&mut writer),
        Err(TlsError::InvalidVectorLength)
    );
    assert_eq!(writer, vec![0xff, 2, 1, 2]);
    let mut capability = DeviceCapability::new(
        1,
        vec![classical()],
        vec![],
        true,
        false,
        "p".to_string(),
    );
    capability.capability_signature = VLBytes::new(too_long());
    let mut writer = vec![];
    assert_eq!(
        capability.tls_serialize(&mut writer),
        Err(TlsError::InvalidVectorLength)
    );
    assert_eq!(writer, capability.serializable_payload());
    let welcome = ApqWelcome::new_direct_pq(Welcome::new(xwing(), vec![], too_long()), info());
    let mut writer = vec![];
    assert_eq!(
        welcome.tls_serialize(&mut writer),
        Err(TlsError::InvalidVectorLength)
    );
    assert_eq!(writer, vec![0, 0, 0x4d, 0]);
}
