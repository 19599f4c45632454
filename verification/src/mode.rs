//! The SGX execution mode and the CVE-2020-0551 (Load Value Injection)
//! mitigation strategy, with their names and parsers.

use crate::text::{concat2, str_eq};
use vstd::prelude::*;
use vstd::string::*;

verus! {

/// What `str::to_uppercase` gives for the text `s`.
pub uninterp spec fn spec_to_uppercase(s: Seq<char>) -> Seq<char>;

/// Whether every character of `s` is ASCII.
pub open spec fn is_ascii_text(s: Seq<char>) -> bool {
    forall|i: int| 0 <= i < s.len() ==> (#[trigger] s[i] as u32) < 128
}

/// The ASCII upper-case form of a character: `a` to `z` become `A` to `Z`,
/// any other character stays.
pub open spec fn ascii_upper_char(c: char) -> char {
    if 97 <= (c as u32) && (c as u32) <= 122 {
        ((c as u32) - 32) as char
    } else {
        c
    }
}

/// The ASCII upper-case form of a text.
pub open spec fn ascii_upper(s: Seq<char>) -> Seq<char> {
    s.map_values(|c: char| ascii_upper_char(c))
}

/// `str::to_uppercase`: the upper-case form of `s` under Unicode case
/// mapping, which on ASCII text turns `a` to `z` into `A` to `Z` and keeps
/// every other character.
#[verifier::external_body]
pub(crate) fn to_uppercase(s: &str) -> (r: String)
    ensures
        r@ == spec_to_uppercase(s@),
        is_ascii_text(s@) ==> r@ == ascii_upper(s@),
{
    s.to_uppercase()
}

/// SGX execution mode.
#[derive(Debug, Clone, Copy, PartialEq, Eq, Structural)]
pub enum SgxMode {
    /// Hardware mode (requires SGX-enabled CPU)
    Hardware,
    /// Simulation mode (for development without SGX hardware)
    Simulation,
}

impl Default for SgxMode {
    fn default() -> (r: Self)
        ensures
            r == SgxMode::Hardware,
    {
        SgxMode::Hardware
    }
}

/// The mode named by upper-case text: `HW` for hardware; `SW` or `SIM` for
/// simulation.
pub open spec fn mode_named(upper: Seq<char>) -> Option<SgxMode> {
    if upper == "HW"@ {
        Some(SgxMode::Hardware)
    } else if upper == "SW"@ || upper == "SIM"@ {
        Some(SgxMode::Simulation)
    } else {
        None
    }
}

/// The message for text that names no mode.
pub open spec fn invalid_mode_message(s: Seq<char>) -> Seq<char> {
    "Invalid SGX mode: "@ + s
}

/// What parsing `s` as a mode gives; case does not matter.
pub open spec fn mode_parse_spec(s: Seq<char>) -> Result<SgxMode, Seq<char>> {
    match mode_named(spec_to_uppercase(s)) {
        Some(m) => Ok(m),
        None => Err(invalid_mode_message(s)),
    }
}

impl SgxMode {
    /// The short name of the mode, as it is displayed.
    pub open spec fn spec_name(self) -> Seq<char> {
        match self {
            SgxMode::Hardware => "HW"@,
            SgxMode::Simulation => "SW"@,
        }
    }

    /// The short name of the mode: `HW` or `SW`.
    pub fn to_string(&self) -> (r: String)
        ensures
            r@ == self.spec_name(),
    {
        match self {
            SgxMode::Hardware => String::from_str("HW"),
            SgxMode::Simulation => String::from_str("SW"),
        }
    }

    /// The mode named by already upper-cased text `upper`; `given` is the
    /// text as given, which the error message repeats.
    pub fn from_upper(upper: &str, given: &str) -> (r: Result<SgxMode, String>)
        ensures
            mode_named(upper@) matches Some(m) ==> r == Ok::<SgxMode, String>(m),
            mode_named(upper@) is None ==> (r matches Err(e) && e@ == invalid_mode_message(
                given@,
            )),
    {
        if str_eq(upper, "HW") {
            Ok(SgxMode::Hardware)
        } else if str_eq(upper, "SW") || str_eq(upper, "SIM") {
            Ok(SgxMode::Simulation)
        } else {
            Err(concat2("Invalid SGX mode: ", given))
        }
    }

    /// Parses a mode name, ignoring case.  The displayed name of a mode
    /// gives that mode back.
    pub fn parse(s: &str) -> (r: Result<SgxMode, String>)
        ensures
            mode_parse_spec(s@) matches Ok(m) ==> r == Ok::<SgxMode, String>(m),
            mode_parse_spec(s@) matches Err(e) ==> (r matches Err(e2) && e2@ == e),
            is_ascii_text(s@) ==> match mode_named(ascii_upper(s@)) {
                Some(m) => r == Ok::<SgxMode, String>(m),
                None => r matches Err(e) && e@ == invalid_mode_message(s@),
            },
            forall|m: SgxMode| #[trigger] m.spec_name() == s@ ==> r == Ok::<SgxMode, String>(m),
    {
        let upper = to_uppercase(s);
        proof {
            assert forall|m: SgxMode| #[trigger] m.spec_name() == s@ implies mode_named(upper@) == Some(m) by {
                lemma_mode_name_is_upper_ascii(m);
                assert(ascii_upper(s@) =~= s@);
                lemma_mode_name_round_trip(m);
            }
        }
        SgxMode::from_upper(upper.as_str(), s)
    }
}

/// CVE-2020-0551 (Load Value Injection) mitigation strategy.
#[derive(Debug, Clone, Copy, PartialEq, Eq, Structural)]
pub enum Cve20200551Mitigation {
    /// LOAD: Insert LFENCE after all load operations (highest security, more overhead)
    Load,
    /// CF: Insert LFENCE only before control flow changes (balanced security/performance)
    ControlFlow,
    /// Disable mitigation (not recommended for production)
    Disabled,
}

impl Default for Cve20200551Mitigation {
    fn default() -> (r: Self)
        ensures
            r == Cve20200551Mitigation::Disabled,
    {
        Cve20200551Mitigation::Disabled
    }
}

/// The strategy named by upper-case text: `LOAD`, `CF` or `NONE`.
pub open spec fn mitigation_named(upper: Seq<char>) -> Option<Cve20200551Mitigation> {
    if upper == "LOAD"@ {
        Some(Cve20200551Mitigation::Load)
    } else if upper == "CF"@ {
        Some(Cve20200551Mitigation::ControlFlow)
    } else if upper == "NONE"@ {
        Some(Cve20200551Mitigation::Disabled)
    } else {
        None
    }
}

/// The message for text that names no strategy.
pub open spec fn invalid_mitigation_message(s: Seq<char>) -> Seq<char> {
    "Invalid CVE-2020-0551 mitigation: "@ + s
}

/// What parsing `s` as a strategy gives; case does not matter.
pub open spec fn mitigation_parse_spec(s: Seq<char>) -> Result<Cve20200551Mitigation, Seq<char>> {
    match mitigation_named(spec_to_uppercase(s)) {
        Some(m) => Ok(m),
        None => Err(invalid_mitigation_message(s)),
    }
}

impl Cve20200551Mitigation {
    /// The name of the strategy, as it is displayed.
    pub open spec fn spec_name(self) -> Seq<char> {
        match self {
            Cve20200551Mitigation::Load => "LOAD"@,
            Cve20200551Mitigation::ControlFlow => "CF"@,
            Cve20200551Mitigation::Disabled => "NONE"@,
        }
    }

    /// The name of the strategy: `LOAD`, `CF` or `NONE`.
    pub fn to_string(&self) -> (r: String)
        ensures
            r@ == self.spec_name(),
    {
        match self {
            Cve20200551Mitigation::Load => String::from_str("LOAD"),
            Cve20200551Mitigation::ControlFlow => String::from_str("CF"),
            Cve20200551Mitigation::Disabled => String::from_str("NONE"),
        }
    }

    /// The strategy named by already upper-cased text `upper`; `given`
    /// is the text as given, which the error message repeats.
    pub fn from_upper(upper: &str, given: &str) -> (r: Result<Cve20200551Mitigation, String>)
        ensures
            mitigation_named(upper@) matches Some(m) ==> r == Ok::<
                Cve20200551Mitigation,
                String,
            >(m),
            mitigation_named(upper@) is None ==> (r matches Err(e) && e@
                == invalid_mitigation_message(given@)),
    {
        if str_eq(upper, "LOAD") {
            Ok(Cve20200551Mitigation::Load)
        } else if str_eq(upper, "CF") {
            Ok(Cve20200551Mitigation::ControlFlow)
        } else if str_eq(upper, "NONE") {
            Ok(Cve20200551Mitigation::Disabled)
        } else {
            Err(concat2("Invalid CVE-2020-0551 mitigation: ", given))
        }
    }

    /// Parses a strategy name, ignoring case.  The displayed name of a
    /// strategy gives that strategy back.
    pub fn parse(s: &str) -> (r: Result<Cve20200551Mitigation, String>)
        ensures
            mitigation_parse_spec(s@) matches Ok(m) ==> r == Ok::<
                Cve20200551Mitigation,
                String,
            >(m),
            mitigation_parse_spec(s@) matches Err(e) ==> (r matches Err(e2) && e2@ == e),
            is_ascii_text(s@) ==> match mitigation_named(ascii_upper(s@)) {
                Some(m) => r == Ok::<Cve20200551Mitigation, String>(m),
                None => r matches Err(e) && e@ == invalid_mitigation_message(s@),
            },
            forall|m: Cve20200551Mitigation| #[trigger] m.spec_name() == s@ ==> r == Ok::<
                Cve20200551Mitigation,
                String,
            >(m),
    {
        let upper = to_uppercase(s);
        proof {
            assert forall|m: Cve20200551Mitigation| #[trigger] m.spec_name() == s@ implies mitigation_named(upper@) == Some(m) by {
                lemma_mitigation_name_is_upper_ascii(m);
                assert(ascii_upper(s@) =~= s@);
                lemma_mitigation_name_round_trip(m);
            }
        }
        Cve20200551Mitigation::from_upper(upper.as_str(), s)
    }
}

/// The name of a mode is ASCII text of capital letters.
proof fn lemma_mode_name_is_upper_ascii(m: SgxMode)
    ensures
        is_ascii_text(m.spec_name()),
        forall|i: int| 0 <= i < m.spec_name().len() ==> ascii_upper_char(#[trigger] m.spec_name()[i])
            == m.spec_name()[i],
{
    reveal_strlit("HW");
    reveal_strlit("SW");
}

/// The name of a strategy is ASCII text of capital letters.
proof fn lemma_mitigation_name_is_upper_ascii(m: Cve20200551Mitigation)
    ensures
        is_ascii_text(m.spec_name()),
        forall|i: int| 0 <= i < m.spec_name().len() ==> ascii_upper_char(#[trigger] m.spec_name()[i])
            == m.spec_name()[i],
{
    reveal_strlit("LOAD");
    reveal_strlit("CF");
    reveal_strlit("NONE");
}

/// Displaying a mode and reading the name back gives the same mode.
pub proof fn lemma_mode_name_round_trip(m: SgxMode)
    ensures
        mode_named(m.spec_name()) == Some(m),
{
    reveal_strlit("HW");
    reveal_strlit("SW");
    reveal_strlit("SIM");
    assert("SW"@[0] != "HW"@[0]);
}

/// Displaying a strategy and reading the name back gives the same strategy.
pub proof fn lemma_mitigation_name_round_trip(m: Cve20200551Mitigation)
    ensures
        mitigation_named(m.spec_name()) == Some(m),
{
    reveal_strlit("LOAD");
    reveal_strlit("CF");
    reveal_strlit("NONE");
    assert("NONE"@[0] != "LOAD"@[0]);
    assert("CF"@.len() != "LOAD"@.len());
    assert("NONE"@.len() != "CF"@.len());
}

impl std::str::FromStr for SgxMode {
    type Err = String;

    /// Parses a mode name, ignoring case, as [`SgxMode::parse`] does.
    fn from_str(s: &str) -> (r: Result<Self, Self::Err>)
        ensures
            mode_parse_spec(s@) matches Ok(m) ==> r == Ok::<SgxMode, String>(m),
            mode_parse_spec(s@) matches Err(e) ==> (r matches Err(e2) && e2@ == e),
            is_ascii_text(s@) ==> match mode_named(ascii_upper(s@)) {
                Some(m) => r == Ok::<SgxMode, String>(m),
                None => r matches Err(e) && e@ == invalid_mode_message(s@),
            },
            forall|m: SgxMode| #[trigger] m.spec_name() == s@ ==> r == Ok::<SgxMode, String>(m),
    {
        SgxMode::parse(s)
    }
}

impl std::str::FromStr for Cve20200551Mitigation {
    type Err = String;

    /// Parses a strategy name, ignoring case, as
    /// [`Cve20200551Mitigation::parse`] does.
    fn from_str(s: &str) -> (r: Result<Self, Self::Err>)
        ensures
            mitigation_parse_spec(s@) matches Ok(m) ==> r == Ok::<
                Cve20200551Mitigation,
                String,
            >(m),
            mitigation_parse_spec(s@) matches Err(e) ==> (r matches Err(e2) && e2@ == e),
            is_ascii_text(s@) ==> match mitigation_named(ascii_upper(s@)) {
                Some(m) => r == Ok::<Cve20200551Mitigation, String>(m),
                None => r matches Err(e) && e@ == invalid_mitigation_message(s@),
            },
            forall|m: Cve20200551Mitigation| #[trigger] m.spec_name() == s@ ==> r == Ok::<
                Cve20200551Mitigation,
                String,
            >(m),
    {
        Cve20200551Mitigation::parse(s)
    }
}

} // verus!
