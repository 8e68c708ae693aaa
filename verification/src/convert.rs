//! From a text in any of the three notations to the packed 64-bit identifier.

use crate::account_type::SteamIDAccountType;
use crate::decimal::{parse_u64, parse_u64_spec};
use crate::detect::{string_to_steamid_type, SteamIDFormat, REGEX_STEAMID2, REGEX_STEAMID3};
use crate::error::SteamIDError;
use crate::identifier::SteamID;
use crate::pattern::{capture_group, captures, group, pattern_matches, regex_captures};
use vstd::prelude::*;
use vstd::string::*;

verus! {

/// The packed identifier of the individual account number 0 in the public
/// universe: universe 1, account type 1, instance 1.
pub const STEAMID64_INDIVIDUAL_BASE: u64 = 76561197960265728;

/// The number that a captured universe denotes; 1 where it denotes none.
pub open spec fn universe_or_public(universe: Seq<char>) -> u64 {
    match parse_u64_spec(universe) {
        Some(u) => u,
        None => 1,
    }
}

/// The packed identifier that the legacy notation gives: the universe in the
/// top byte, the authentication-server bit lowest, the account number above
/// it, all laid over the base of individual accounts.
pub open spec fn steamid2_value(universe: u64, auth_server: u64, account_number: u64) -> u64 {
    (universe << 56) | auth_server | (account_number << 1) | STEAMID64_INDIVIDUAL_BASE
}

/// The packed identifier for the capture groups of a match of the legacy
/// pattern: groups 1 to 3 are the universe, the authentication-server bit and
/// the account number.
pub open spec fn steamid2_of_captures(found: Seq<Option<Seq<char>>>) -> Result<u64, SteamIDError> {
    match (capture_group(found, 1), capture_group(found, 2), capture_group(found, 3)) {
        (Some(universe), Some(auth_server), Some(account_number)) => match (
            parse_u64_spec(auth_server),
            parse_u64_spec(account_number),
        ) {
            (Some(a), Some(n)) => Ok(steamid2_value(universe_or_public(universe), a, n)),
            _ => Err(SteamIDError::NumericOverflow),
        },
        _ => Err(SteamIDError::UnrecognizedFormat),
    }
}

/// The packed identifier that a text in the legacy notation names.
pub open spec fn steamid2_spec(s: Seq<char>) -> Result<u64, SteamIDError> {
    match regex_captures(REGEX_STEAMID2@, s) {
        Some(found) => steamid2_of_captures(found),
        None => Err(SteamIDError::UnrecognizedFormat),
    }
}

/// The account-type letter that a captured text holds: the text itself where
/// it is a single character, else `I`.
pub open spec fn type_letter(text: Seq<char>) -> char {
    if text.len() == 1 {
        text[0]
    } else {
        'I'
    }
}

/// The packed identifier that the bracketed notation gives: the account type
/// from bit 52, the universe from bit 56 and the account identifier lowest.
/// The instance stays 0.
pub open spec fn steamid3_value(account_type: u64, universe: u64, account_id: u64) -> u64 {
    (account_type << 52) | (universe << 56) | account_id
}

/// The packed identifier for the capture groups of a match of the bracketed
/// pattern: groups 1 to 3 are the account-type letter, the universe and the
/// account identifier.
pub open spec fn steamid3_of_captures(found: Seq<Option<Seq<char>>>) -> Result<u64, SteamIDError> {
    match (capture_group(found, 1), capture_group(found, 2), capture_group(found, 3)) {
        (Some(letter), Some(universe), Some(account_id)) => match parse_u64_spec(account_id) {
            Some(n) => Ok(
                steamid3_value(
                    SteamIDAccountType::spec_from_char(type_letter(letter)).spec_to_int() as u64,
                    universe_or_public(universe),
                    n,
                ),
            ),
            None => Err(SteamIDError::NumericOverflow),
        },
        _ => Err(SteamIDError::UnrecognizedFormat),
    }
}

/// The packed identifier that a text in the bracketed notation names.
pub open spec fn steamid3_spec(s: Seq<char>) -> Result<u64, SteamIDError> {
    match regex_captures(REGEX_STEAMID3@, s) {
        Some(found) => steamid3_of_captures(found),
        None => Err(SteamIDError::UnrecognizedFormat),
    }
}

/// The packed identifier that a text names: the number itself where the text
/// is a numeral of a 64-bit number, else what the first pattern that matches
/// makes of it.
pub open spec fn convert(s: Seq<char>) -> Result<u64, SteamIDError> {
    if let Some(id) = parse_u64_spec(s) {
        Ok(id)
    } else if pattern_matches(REGEX_STEAMID2@, s) {
        steamid2_spec(s)
    } else if pattern_matches(REGEX_STEAMID3@, s) {
        steamid3_spec(s)
    } else {
        Err(SteamIDError::UnrecognizedFormat)
    }
}

/// Packs the capture groups of a match of the legacy pattern. A missing group
/// is an unrecognized shape; an authentication-server bit or account number
/// that is no 64-bit numeral is a numeric overflow.
pub fn steamid2_from_captures(found: &Vec<Option<String>>) -> (r: Result<u64, SteamIDError>)
    ensures
        r == steamid2_of_captures(found.deep_view()),
{
    let (universe, auth_server, account_number) = match (
        group(found, 1),
        group(found, 2),
        group(found, 3),
    ) {
        (Some(u), Some(a), Some(n)) => (u, a, n),
        _ => return Err(SteamIDError::UnrecognizedFormat),
    };
    let universe: u64 = parse_u64(universe).unwrap_or(1);
    match (parse_u64(auth_server), parse_u64(account_number)) {
        (Some(a), Some(n)) => Ok((universe << 56) | a | (n << 1) | STEAMID64_INDIVIDUAL_BASE),
        _ => Err(SteamIDError::NumericOverflow),
    }
}

/// Reads a text in the legacy notation.
pub fn steamid2_to_steamid64(steamid2: &str) -> (r: Result<u64, SteamIDError>)
    ensures
        r == steamid2_spec(steamid2@),
{
    match captures(REGEX_STEAMID2, steamid2) {
        Some(found) => steamid2_from_captures(&found),
        None => Err(SteamIDError::UnrecognizedFormat),
    }
}

/// Reads a captured account-type letter.
pub fn parse_type_letter(text: &str) -> (c: char)
    ensures
        c == type_letter(text@),
{
    if text.unicode_len() == 1 {
        text.get_char(0)
    } else {
        'I'
    }
}

/// Packs the capture groups of a match of the bracketed pattern. A missing
/// group is an unrecognized shape; an account identifier that is no 64-bit
/// numeral is a numeric overflow.
pub fn steamid3_from_captures(found: &Vec<Option<String>>) -> (r: Result<u64, SteamIDError>)
    ensures
        r == steamid3_of_captures(found.deep_view()),
{
    let (letter, universe, account_id) = match (group(found, 1), group(found, 2), group(found, 3)) {
        (Some(t), Some(u), Some(n)) => (t, u, n),
        _ => return Err(SteamIDError::UnrecognizedFormat),
    };
    let account_type: u64 = SteamIDAccountType::from_char(parse_type_letter(letter)).to_int() as u64;
    let universe: u64 = parse_u64(universe).unwrap_or(1);
    match parse_u64(account_id) {
        Some(n) => Ok((account_type << 52) | (universe << 56) | n),
        None => Err(SteamIDError::NumericOverflow),
    }
}

/// Reads a text in the bracketed notation.
pub fn steamid3_to_steamid64(steamid3: &str) -> (r: Result<u64, SteamIDError>)
    ensures
        r == steamid3_spec(steamid3@),
{
    match captures(REGEX_STEAMID3, steamid3) {
        Some(found) => steamid3_from_captures(&found),
        None => Err(SteamIDError::UnrecognizedFormat),
    }
}

/// Converts a text in any of the three notations to the packed identifier.
pub fn string_to_steamid64(input: &str) -> (r: Result<u64, SteamIDError>)
    ensures
        r == convert(input@),
{
    match string_to_steamid_type(input) {
        Ok(SteamIDFormat::SteamID64) => match parse_u64(input) {
            Some(id) => Ok(id),
            None => Err(SteamIDError::NumericOverflow),
        },
        Ok(SteamIDFormat::SteamID2) => steamid2_to_steamid64(input),
        Ok(SteamIDFormat::SteamID3) => steamid3_to_steamid64(input),
        Err(e) => Err(e),
    }
}

/// What the legacy notation names, for a universe digit, a bit and an account
/// number of 31 bits: an individual account of instance 1 whose account
/// identifier is twice the account number plus the bit. The universe is laid
/// over that of the base, so an even digit comes out as the odd one above it.
pub proof fn lemma_steamid2_fields(universe: u64, auth_server: u64, account_number: u64)
    requires
        universe <= 5,
        auth_server <= 1,
        account_number < 0x8000_0000,
    ensures
        SteamID::unpacked(steamid2_value(universe, auth_server, account_number)) == (SteamID {
            account_id: (2 * account_number + auth_server) as u32,
            account_instance: 1,
            account_type: 1,
            account_universe: (universe | 1) as u8,
        }),
{
    let x = steamid2_value(universe, auth_server, account_number);
    assert(x % 0x1_0000_0000 == 2 * account_number + auth_server && (x / 0x1_0000_0000) % 0x10_0000
        == 1 && (x / 0x10_0000_0000_0000) % 0x10 == 1 && x / 0x100_0000_0000_0000 == (universe | 1)
        && (universe | 1) <= 5) by (bit_vector)
        requires
            universe <= 5,
            auth_server <= 1,
            account_number < 0x8000_0000,
            x == (universe << 56) | auth_server | (account_number << 1) | 76561197960265728u64,
    ;
}

/// What the bracketed notation names, for numbers that fit their fields: the
/// account type, universe and account identifier as given, and instance 0.
pub proof fn lemma_steamid3_fields(account_type: u64, universe: u64, account_id: u64)
    requires
        account_type < 0x10,
        universe < 0x100,
        account_id < 0x1_0000_0000,
    ensures
        SteamID::unpacked(steamid3_value(account_type, universe, account_id)) == (SteamID {
            account_id: account_id as u32,
            account_instance: 0,
            account_type: account_type as u8,
            account_universe: universe as u8,
        }),
{
    let x = steamid3_value(account_type, universe, account_id);
    assert(x % 0x1_0000_0000 == account_id && (x / 0x1_0000_0000) % 0x10_0000 == 0 && (x
        / 0x10_0000_0000_0000) % 0x10 == account_type && x / 0x100_0000_0000_0000 == universe)
        by (bit_vector)
        requires
            account_type < 0x10,
            universe < 0x100,
            account_id < 0x1_0000_0000,
            x == (account_type << 52) | (universe << 56) | account_id,
    ;
}

} // verus!
