use std::str::FromStr;

use sgx_sdk_tools::mode::{Cve20200551Mitigation, SgxMode};

#[test]
fn sgx_mode_parses_names_ignoring_case() {
    assert_eq!(SgxMode::parse("HW"), Ok(SgxMode::Hardware));
    assert_eq!(SgxMode::parse("hw"), Ok(SgxMode::Hardware));
    assert_eq!(SgxMode::parse("SW"), Ok(SgxMode::Simulation));
    assert_eq!(SgxMode::parse("sim"), Ok(SgxMode::Simulation));
    assert_eq!(SgxMode::parse("Sim"), Ok(SgxMode::Simulation));
}

#[test]
fn sgx_mode_rejects_unknown_names() {
    assert_eq!(SgxMode::parse("hardware"), Err("Invalid SGX mode: hardware".to_string()));
    assert_eq!(SgxMode::parse(""), Err("Invalid SGX mode: ".to_string()));
}

#[test]
fn sgx_mode_from_str_matches_parse() {
    assert_eq!(SgxMode::from_str("sw"), Ok(SgxMode::Simulation));
    assert_eq!(SgxMode::from_str("x"), Err("Invalid SGX mode: x".to_string()));
}

#[test]
fn sgx_mode_default_is_hardware() {
    assert_eq!(SgxMode::default(), SgxMode::Hardware);
}

#[test]
fn sgx_mode_display_names() {
    assert_eq!(SgxMode::Hardware.to_string(), "HW");
    assert_eq!(SgxMode::Simulation.to_string(), "SW");
}

#[test]
fn sgx_mode_name_round_trip() {
    for m in [SgxMode::Hardware, SgxMode::Simulation] {
        assert_eq!(SgxMode::parse(&m.to_string()), Ok(m));
    }
}

#[test]
fn sgx_mode_from_upper_repeats_given_text_in_error() {
    assert_eq!(SgxMode::from_upper("SIM", "sim"), Ok(SgxMode::Simulation));
    assert_eq!(SgxMode::from_upper("ABC", "abc"), Err("Invalid SGX mode: abc".to_string()));
}

#[test]
fn mitigation_parses_names_ignoring_case() {
    assert_eq!(Cve20200551Mitigation::parse("LOAD"), Ok(Cve20200551Mitigation::Load));
    assert_eq!(Cve20200551Mitigation::parse("load"), Ok(Cve20200551Mitigation::Load));
    assert_eq!(Cve20200551Mitigation::parse("cf"), Ok(Cve20200551Mitigation::ControlFlow));
    assert_eq!(Cve20200551Mitigation::parse("None"), Ok(Cve20200551Mitigation::Disabled));
}

#[test]
fn mitigation_rejects_unknown_names() {
    assert_eq!(
        Cve20200551Mitigation::parse("fence"),
        Err("Invalid CVE-2020-0551 mitigation: fence".to_string())
    );
    assert_eq!(
        Cve20200551Mitigation::from_str("C F"),
        Err("Invalid CVE-2020-0551 mitigation: C F".to_string())
    );
}

#[test]
fn mitigation_default_is_none() {
    assert_eq!(Cve20200551Mitigation::default(), Cve20200551Mitigation::Disabled);
    assert_eq!(Cve20200551Mitigation::default().to_string(), "NONE");
}

#[test]
fn mitigation_name_round_trip() {
    for m in [
        Cve20200551Mitigation::Load,
        Cve20200551Mitigation::ControlFlow,
        Cve20200551Mitigation::Disabled,
    ] {
        assert_eq!(Cve20200551Mitigation::parse(&m.to_string()), Ok(m));
    }
    assert_eq!(Cve20200551Mitigation::Load.to_string(), "LOAD");
    assert_eq!(Cve20200551Mitigation::ControlFlow.to_string(), "CF");
}

#[test]
fn mitigation_parse_uses_unicode_upper_case() {
    // The German sharp s upper-cases to "SS", so this is not a known name.
    assert!(Cve20200551Mitigation::parse("lo\u{df}d").is_err());
    // A dotless i upper-cases to a plain I.
    assert_eq!(SgxMode::parse("s\u{131}m"), Ok(SgxMode::Simulation));
}
