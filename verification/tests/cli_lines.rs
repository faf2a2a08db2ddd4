//! What lines ask for and what is answered.
use kchat_mls::ciphersuite::security_mode::SecurityMode;
use kchat_mls::cli::commands::{
    format_capability, parse_command, parse_create_group_args, parse_group_command, update,
    Command, GroupCommand, Reply, HELP,
};
use kchat_mls::cli::conversation::{
    unknown_mode_message, CliSecurityMode, Conversation, ConversationMessage,
};
use kchat_mls::cli::words::{find, is_white_space, split_words, strip_prefix, trim};
use kchat_mls::credentials::device_capability::DeviceCapability;
use kchat_mls::types::Ciphersuite;

#[test]
fn white_space_is_that_of_unicode() {
    for n in 0..=0x10ffffu32 {
        if let Some(c) = char::from_u32(n) {
            assert_eq!(is_white_space(c), c.is_whitespace(), "{n:x}");
        }
    }
}

#[test]
fn texts_are_trimmed_and_split() {
    for text in ["", "  ", " a ", "a b", "\u{3000}x\u{a0}y\u{2028}", "--a --b  c\t"] {
        assert_eq!(trim(text), text.trim());
        let words: Vec<&str> = text.split_whitespace().collect();
        assert_eq!(split_words(text), words);
    }
    assert_eq!(find("aab", "ab"), Some(1));
    assert_eq!(find("\u{e9}ab", "ab"), Some(1));
    assert_eq!(find("ab", "abc"), None);
    assert_eq!(find("", ""), Some(0));
    assert_eq!(strip_prefix("group x", "group "), Some("x"));
    assert_eq!(strip_prefix("grou", "group "), None);
}

#[test]
fn unknown_modes_are_named_in_lower_case() {
    assert_eq!(
        CliSecurityMode::parse(" Non\"Sense\n"),
        Err(concat_text(&[
            "unknown security mode \"non\\\"sense\" ",
            "(expected one of classical, pq-confidentiality, pq-authenticity)"
        ]))
    );
    assert_eq!(
        unknown_mode_message("'x'"),
        "unknown security mode 'x' (expected one of classical, pq-confidentiality, pq-authenticity)"
    );
}

fn concat_text(parts: &[&str]) -> String {
    parts.concat()
}

#[test]
fn every_synonym_is_known() {
    for word in ["classical", "default", "", "  "] {
        assert_eq!(CliSecurityMode::parse(word), Ok(CliSecurityMode::Classical));
    }
    for word in ["pq-confidentiality", "PQ_Confidentiality", "pq-conf", "confidentiality"] {
        assert_eq!(
            CliSecurityMode::parse(word),
            Ok(CliSecurityMode::PqConfidentiality)
        );
    }
    for word in ["pq-authenticity", "pq_authenticity", "pq-auth", "AUTHENTICITY"] {
        assert_eq!(
            CliSecurityMode::parse(word),
            Ok(CliSecurityMode::PqAuthenticity)
        );
    }
}

#[test]
fn modes_have_their_suite() {
    assert_eq!(
        CliSecurityMode::Classical.default_ciphersuite(),
        Ok(Ciphersuite::MLS_128_DHKEMX25519_AES128GCM_SHA256_Ed25519)
    );
    assert_eq!(
        CliSecurityMode::PqAuthenticity.default_ciphersuite(),
        Err("PqAuthenticity mode requires the `xwing` feature on `cli` (rebuild with `cargo run -p cli --features xwing`)".to_string())
    );
    assert_eq!(
        CliSecurityMode::PqConfidentiality.to_security_mode(),
        SecurityMode::PqConfidentiality
    );
}

#[test]
fn only_the_long_form_can_be_refused() {
    let (name, mode) = parse_create_group_args(" my group --security-mode  nonsense ");
    assert_eq!(name, "my group");
    assert!(mode.is_err());
    let (name, mode) = parse_create_group_args("--security-mode");
    assert_eq!(name, "");
    assert_eq!(mode, Ok(CliSecurityMode::Classical));
    let (name, mode) = parse_create_group_args("  ");
    assert_eq!(name, "");
    assert_eq!(mode, Ok(CliSecurityMode::Classical));
    let (name, mode) = parse_create_group_args(" a  b ");
    assert_eq!(name, "a  b");
    assert_eq!(mode, Ok(CliSecurityMode::Classical));
}

#[test]
fn lines_ask_for_commands() {
    let text = |s: &str| s.to_string();
    let cases = [
        ("register alice", Command::Register(text("alice"))),
        ("load alice", Command::Load(text("alice"))),
        ("create kp", Command::CreateKeyPackage),
        ("save", Command::Save),
        ("autosave", Command::Autosave),
        ("create group g x", Command::CreateGroup(text("g x"))),
        (" capability ", Command::ShowCapability),
        ("show capability", Command::ShowCapability),
        ("select-mode\t", Command::SelectMode),
        ("group g", Command::Group(text("g"))),
        ("update", Command::Update),
        ("reset", Command::Reset),
        ("help", Command::Help),
        (" help", Command::Unknown),
        ("", Command::Unknown),
    ];
    for (line, command) in cases {
        assert_eq!(parse_command(line), command, "{line:?}");
    }
}

#[test]
fn lines_in_a_group_ask_for_commands() {
    let text = |s: &str| s.to_string();
    let cases = [
        ("send hi there", GroupCommand::Send(text("hi there"))),
        ("invite bob", GroupCommand::Invite(text("bob"))),
        ("remove bob", GroupCommand::Remove(text("bob"))),
        ("read", GroupCommand::Read),
        ("update", GroupCommand::Update),
        ("exit", GroupCommand::Exit),
        ("leave", GroupCommand::Unknown),
    ];
    for (line, command) in cases {
        assert_eq!(parse_group_command(line), command, "{line:?}");
    }
}

#[test]
fn commands_that_need_a_client_say_so() {
    let reply = |line: &str| parse_command(line).missing_client_reply();
    let update = Some(" >>> No client to update :(\n\n");
    assert_eq!(reply("create kp"), update);
    assert_eq!(reply("save"), update);
    assert_eq!(reply("autosave"), update);
    assert_eq!(reply("update"), update);
    assert_eq!(
        reply("create group g"),
        Some(" >>> No client to create a group :(\n\n")
    );
    assert_eq!(
        reply("capability"),
        Some(" >>> No client to show capability for :(\n\n")
    );
    assert_eq!(
        reply("select-mode"),
        Some(" >>> No client to select mode for :(\n\n")
    );
    assert_eq!(reply("group g"), Some(" >>> No client :(\n\n"));
    for line in ["register a", "load a", "reset", "help", "what"] {
        assert_eq!(reply(line), None);
    }
}

#[test]
fn help_lists_the_commands() {
    assert!(HELP.starts_with("\n>>> Available commands:\n"));
    assert!(HELP.contains("- register {client name} "));
    assert!(HELP.ends_with("update the client state\n\n"));
}

#[test]
fn capabilities_are_printed() {
    let capability = DeviceCapability::new(
        1,
        vec![
            Ciphersuite::MLS_128_DHKEMX25519_AES128GCM_SHA256_Ed25519,
            Ciphersuite::MLS_128_DHKEMP256_AES128GCM_SHA256_P256,
        ],
        vec![],
        true,
        false,
        "cli".to_string(),
    );
    let expected = format!(
        " >>> DeviceCapability\n       mls_version: {}\n       classical_ciphersuites: {:?}\n       pq_ciphersuites: {:?}\n       apq_supported: {}\n       pq_auth_supported: {}\n       provider_id: {}\n       capability_signature: {} bytes\n\n",
        capability.mls_version,
        capability.classical_ciphersuites,
        capability.pq_ciphersuites,
        capability.apq_supported,
        capability.pq_auth_supported,
        capability.provider_id,
        capability.capability_signature.as_slice().len(),
    );
    assert_eq!(format_capability(&capability), expected);
}

#[test]
fn updates_list_their_messages() {
    assert_eq!(update(&[]), " >>> Updated client :)\n\n");
    let messages = [
        ConversationMessage::new("hi".to_string(), "alice".to_string()),
        ConversationMessage::new("ho".to_string(), "bob".to_string()),
    ];
    assert_eq!(
        update(&messages),
        " >>> Updated client :)\n     New messages:\n\n         hi from alice\n         ho from bob\n\n"
    );
}

#[test]
fn replies_have_their_texts() {
    let text = |s: &str| s.to_string();
    let cases = [
        (
            Reply::Greeting,
            " >>> Welcome to the OpenMLS CLI :)\nType help to get a list of commands\n\n",
        ),
        (
            Reply::Registered { client: text("a") },
            "registered new client a\n\n",
        ),
        (
            Reply::RecoveryFailed {
                client: text("a"),
                error: text("gone"),
            },
            "Error recovering client a : gone\n\n",
        ),
        (
            Reply::GroupCreated {
                asked: CliSecurityMode::PqAuthenticity,
                group: text("g"),
            },
            " >>> Created PqAuthenticity group g :)\n\n",
        ),
        (
            Reply::SelectedMode {
                mode: SecurityMode::Classical,
                suite: Ciphersuite::MLS_128_DHKEMX25519_AES128GCM_SHA256_Ed25519,
            },
            " >>> select_conversation_mode (self only): mode=Classical, ciphersuite=MLS_128_DHKEMX25519_AES128GCM_SHA256_Ed25519\n\n",
        ),
        (
            Reply::Received {
                group: text("g"),
                count: 12,
            },
            "g has received 12 messages\n\n",
        ),
        (Reply::LeavingGroup, " >>> Leaving group \n\n"),
        (
            Reply::UnknownCommand,
            " >>> unknown command :(\n >>> try help\n\n",
        ),
    ];
    for (reply, expected) in cases {
        assert_eq!(reply.text(), expected);
    }
}

#[test]
fn conversations_show_their_last_messages() {
    let mut conversation = Conversation::default();
    assert_eq!(conversation.get(3), Some([].as_slice()));
    for i in 0..4 {
        conversation.add(ConversationMessage::new(format!("m{i}"), "a".to_string()));
    }
    let last: Vec<String> = conversation
        .get(2)
        .unwrap()
        .iter()
        .map(|m| m.message.clone())
        .collect();
    assert_eq!(last, vec!["m2", "m3"]);
    assert_eq!(conversation.get(0), Some([].as_slice()));
    assert_eq!(conversation.get(100).unwrap().len(), 4);
}
