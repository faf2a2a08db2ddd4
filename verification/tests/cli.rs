//! The command line.
use kchat_mls::cli::commands::parse_create_group_args;
use kchat_mls::cli::conversation::CliSecurityMode;

#[test]
fn parse_security_mode_accepts_canonical_strings() {
    assert_eq!(
        CliSecurityMode::parse("classical").unwrap(),
        CliSecurityMode::Classical
    );
    assert_eq!(
        CliSecurityMode::parse("pq-confidentiality").unwrap(),
        CliSecurityMode::PqConfidentiality
    );
    assert_eq!(
        CliSecurityMode::parse("pq-authenticity").unwrap(),
        CliSecurityMode::PqAuthenticity
    );
}

#[test]
fn parse_security_mode_is_case_insensitive_and_accepts_synonyms() {
    assert_eq!(
        CliSecurityMode::parse("PQ-CONF").unwrap(),
        CliSecurityMode::PqConfidentiality
    );
    assert_eq!(
        CliSecurityMode::parse(" Authenticity ").unwrap(),
        CliSecurityMode::PqAuthenticity
    );
}

#[test]
fn parse_security_mode_rejects_garbage() {
    assert!(CliSecurityMode::parse("nonsense").is_err());
}

#[test]
fn parse_create_group_long_form() {
    let (name, mode) = parse_create_group_args("foo --security-mode pq-confidentiality");
    assert_eq!(name, "foo");
    assert_eq!(mode.unwrap(), CliSecurityMode::PqConfidentiality);
}

#[test]
fn parse_create_group_short_form() {
    let (name, mode) = parse_create_group_args("foo pq-authenticity");
    assert_eq!(name, "foo");
    assert_eq!(mode.unwrap(), CliSecurityMode::PqAuthenticity);
}

#[test]
fn parse_create_group_classical_default() {
    let (name, mode) = parse_create_group_args("foo");
    assert_eq!(name, "foo");
    assert_eq!(mode.unwrap(), CliSecurityMode::Classical);
}

#[test]
fn parse_create_group_preserves_legacy_names_with_spaces() {
    let (name, mode) = parse_create_group_args("MLS Discussions test");
    assert_eq!(name, "MLS Discussions test");
    assert_eq!(mode.unwrap(), CliSecurityMode::Classical);
}

#[test]
fn parse_create_group_two_word_name_falls_back_to_classical() {
    let (name, mode) = parse_create_group_args("MLS Discussions");
    assert_eq!(name, "MLS Discussions");
    assert_eq!(mode.unwrap(), CliSecurityMode::Classical);
}

