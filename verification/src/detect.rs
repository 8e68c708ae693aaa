//! Telling the three notations of a Steam identifier apart.

use crate::decimal::{all_digits, decimal_value, is_digit, parse_u64, parse_u64_spec};
use crate::error::SteamIDError;
use crate::pattern::{has_match, pattern_matches};
use vstd::prelude::*;

verus! {

/// The shape of the legacy notation: `STEAM_`, a universe digit from 0 to 5,
/// an authentication-server bit and an account number of one or more decimal
/// digits, separated by colons, from the first to the last character of the
/// text. The digits of the account number may be of any script, so a match
/// need not be a numeral that can be read.
pub const REGEX_STEAMID2: &'static str = r"^STEAM_([0-5]):([01]):(\d+$)";

/// The shape of the bracketed notation: between `[` and `]` one character
/// other than a line feed for the account type, a universe bit and an account
/// identifier of one or more decimal digits of any script, separated by
/// colons, from the first to the last character of the text.
pub const REGEX_STEAMID3: &'static str = r"^\[(.):([01]):(\d+)\]$";

/// The notation in which a text names a Steam identifier.
#[derive(Debug, Clone, Copy, PartialEq, Eq, Structural)]
pub enum SteamIDFormat {
    /// The packed 64-bit number, as a decimal numeral.
    SteamID64,
    /// The legacy notation `STEAM_X:Y:Z`.
    SteamID2,
    /// The bracketed notation `[T:U:A]`.
    SteamID3,
}

/// The notation of a text, given which shapes it has. The first shape in the
/// order numeral, legacy, bracketed decides.
pub open spec fn spec_select_format(numeric: bool, legacy: bool, bracketed: bool) -> Result<
    SteamIDFormat,
    SteamIDError,
> {
    if numeric {
        Ok(SteamIDFormat::SteamID64)
    } else if legacy {
        Ok(SteamIDFormat::SteamID2)
    } else if bracketed {
        Ok(SteamIDFormat::SteamID3)
    } else {
        Err(SteamIDError::UnrecognizedFormat)
    }
}

/// The notation of the text `s`: a numeral of a 64-bit number before a match of
/// the legacy pattern, and that before a match of the bracketed pattern.
pub open spec fn detect_format(s: Seq<char>) -> Result<SteamIDFormat, SteamIDError> {
    spec_select_format(
        parse_u64_spec(s) is Some,
        pattern_matches(REGEX_STEAMID2@, s),
        pattern_matches(REGEX_STEAMID3@, s),
    )
}

/// Chooses the notation of a text from the shapes that it was found to have.
#[verifier::when_used_as_spec(spec_select_format)]
pub fn select_format(numeric: bool, legacy: bool, bracketed: bool) -> (r: Result<
    SteamIDFormat,
    SteamIDError,
>)
    ensures
        r == spec_select_format(numeric, legacy, bracketed),
{
    if numeric {
        Ok(SteamIDFormat::SteamID64)
    } else if legacy {
        Ok(SteamIDFormat::SteamID2)
    } else if bracketed {
        Ok(SteamIDFormat::SteamID3)
    } else {
        Err(SteamIDError::UnrecognizedFormat)
    }
}

/// Classifies a text as one of the three notations. A pattern is tried only
/// where nothing before it has decided.
pub fn string_to_steamid_type(steamid: &str) -> (r: Result<SteamIDFormat, SteamIDError>)
    ensures
        r == detect_format(steamid@),
{
    let numeric = parse_u64(steamid).is_some();
    let legacy = !numeric && has_match(REGEX_STEAMID2, steamid);
    let bracketed = !numeric && !legacy && has_match(REGEX_STEAMID3, steamid);
    select_format(numeric, legacy, bracketed)
}

/// A text of one or more ASCII digits that denotes a 64-bit number is the
/// packed notation, whatever the patterns make of it.
pub proof fn lemma_digits_are_steamid64(s: Seq<char>)
    requires
        s.len() > 0,
        all_digits(s),
        decimal_value(s) <= u64::MAX,
    ensures
        detect_format(s) == Ok::<SteamIDFormat, SteamIDError>(SteamIDFormat::SteamID64),
{
}

} // verus!
