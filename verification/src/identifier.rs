//! The four fields of a Steam identifier, their packing into 64 bits and the
//! two notations in which they are written out.

use crate::account_type::{account_type_to_char, SteamIDAccountType};
use crate::decimal::{decimal_digits, push_decimal};
use vstd::prelude::*;
use vstd::string::*;

verus! {

/// A Steam identifier taken apart. In the packed 64-bit form the account
/// identifier is the low 32 bits, above it lie 20 bits of instance, 4 bits of
/// account type and 8 bits of universe.
#[derive(Debug, Clone, Copy, PartialEq, Eq, Structural)]
pub struct SteamID {
    pub account_id: u32,
    pub account_instance: u32,
    pub account_type: u8,
    pub account_universe: u8,
}

/// `value` as a 32-bit field; 1 where it does not fit.
pub fn field_u32(value: u64) -> (r: u32)
    ensures
        r == if value <= u32::MAX { value as u32 } else { 1u32 },
{
    match u32::try_from(value) {
        Ok(v) => v,
        Err(_) => 1,
    }
}

/// `value` as an 8-bit field; 1 where it does not fit.
pub fn field_u8(value: u64) -> (r: u8)
    ensures
        r == if value <= u8::MAX { value as u8 } else { 1u8 },
{
    match u8::try_from(value) {
        Ok(v) => v,
        Err(_) => 1,
    }
}

impl SteamID {
    /// Whether instance and account type fit the 20 and 4 bits that the packed
    /// form has for them. The other two fields fill their types.
    pub open spec fn well_formed(&self) -> bool {
        self.account_instance < 0x10_0000 && self.account_type < 0x10
    }

    /// The packed form: the four fields, each shifted to its place, laid over
    /// one another.
    pub open spec fn packed(&self) -> u64 {
        self.account_id as u64 | (self.account_instance as u64) << 32 | (self.account_type as u64)
            << 52 | (self.account_universe as u64) << 56
    }

    /// The fields that a packed identifier holds.
    pub open spec fn unpacked(steamid_64: u64) -> SteamID {
        SteamID {
            account_id: (steamid_64 % 0x1_0000_0000) as u32,
            account_instance: ((steamid_64 / 0x1_0000_0000) % 0x10_0000) as u32,
            account_type: ((steamid_64 / 0x10_0000_0000_0000) % 0x10) as u8,
            account_universe: (steamid_64 / 0x100_0000_0000_0000) as u8,
        }
    }

    /// The letter of the account type in the bracketed notation.
    pub open spec fn type_char(&self) -> char {
        SteamIDAccountType::spec_from_int(self.account_type).spec_to_char(
            Some(self.account_instance),
        )
    }

    /// The legacy notation: `STEAM_`, the universe, the lowest bit of the
    /// account identifier and the rest of the account identifier.
    pub open spec fn steamid2_text(&self) -> Seq<char> {
        seq!['S', 'T', 'E', 'A', 'M', '_'] + decimal_digits(self.account_universe as nat) + seq![
            ':',
        ] + decimal_digits((self.account_id % 2) as nat) + seq![':'] + decimal_digits(
            (self.account_id / 2) as nat,
        )
    }

    /// The bracketed notation: the letter of the account type, the universe
    /// and the account identifier, between brackets.
    pub open spec fn steamid3_text(&self) -> Seq<char> {
        seq!['[', self.type_char(), ':'] + decimal_digits(self.account_universe as nat) + seq![
            ':',
        ] + decimal_digits(self.account_id as nat) + seq![']']
    }

    /// The account 0 of instance 1, an individual in the public universe.
    pub fn new() -> (id: SteamID)
        ensures
            id == (SteamID {
                account_id: 0,
                account_instance: 1,
                account_type: 1,
                account_universe: 1,
            }),
            id.well_formed(),
    {
        SteamID { account_id: 0, account_instance: 1, account_type: 1, account_universe: 1 }
    }

    /// Takes the fields from a packed identifier. They are well formed, and
    /// packing them gives the identifier back.
    pub fn set_steamid64(&mut self, steamid_64: u64)
        ensures
            *final(self) == SteamID::unpacked(steamid_64),
            final(self).well_formed(),
            final(self).packed() == steamid_64,
    {
        proof {
            lemma_unpack_then_pack(steamid_64);
        }
        assert(steamid_64 & 4294967295 == steamid_64 % 0x1_0000_0000) by (bit_vector);
        assert(steamid_64 >> 32 & 1048575 == (steamid_64 / 0x1_0000_0000) % 0x10_0000)
            by (bit_vector);
        assert(steamid_64 >> 52 & 15 == (steamid_64 / 0x10_0000_0000_0000) % 0x10)
            by (bit_vector);
        assert(steamid_64 >> 56 & 255 == steamid_64 / 0x100_0000_0000_0000) by (bit_vector);
        self.account_id = field_u32(steamid_64 & 4294967295);
        self.account_instance = field_u32(steamid_64 >> 32 & 1048575);
        self.account_type = field_u8(steamid_64 >> 52 & 15);
        self.account_universe = field_u8(steamid_64 >> 56 & 255);
    }

    /// Packs the fields into 64 bits.
    pub fn get_steamid64(&self) -> (steamid_64: u64)
        ensures
            steamid_64 == self.packed(),
    {
        u64::from(self.account_id) | u64::from(self.account_instance) << 32 | u64::from(
            self.account_type,
        ) << 52 | u64::from(self.account_universe) << 56
    }

    /// Writes the identifier in the legacy notation.
    pub fn get_steamid2(&self) -> (text: String)
        ensures
            text@ == self.steamid2_text(),
    {
        let authserver: u32 = self.account_id & 1;
        let accountid: u32 = (self.account_id >> 1) & 2147483647;
        let id: u32 = self.account_id;
        assert(id & 1 == id % 2) by (bit_vector);
        assert((id >> 1) & 2147483647 == id / 2) by (bit_vector);
        let mut text = String::from_str("STEAM_");
        proof {
            reveal_strlit("STEAM_");
        }
        push_decimal(&mut text, u64::from(self.account_universe));
        text.push(':');
        push_decimal(&mut text, u64::from(authserver));
        text.push(':');
        push_decimal(&mut text, u64::from(accountid));
        text
    }

    /// Writes the identifier in the bracketed notation.
    pub fn get_steamid3(&self) -> (text: String)
        ensures
            text@ == self.steamid3_text(),
    {
        let type_char: char = account_type_to_char(self.account_type, Some(self.account_instance));
        let mut text = String::new();
        text.push('[');
        text.push(type_char);
        text.push(':');
        push_decimal(&mut text, u64::from(self.account_universe));
        text.push(':');
        push_decimal(&mut text, u64::from(self.account_id));
        text.push(']');
        text
    }
}

/// Taking a packed identifier apart and packing the fields again gives the
/// identifier back, and the fields taken from it are well formed.
pub proof fn lemma_unpack_then_pack(steamid_64: u64)
    ensures
        SteamID::unpacked(steamid_64).well_formed(),
        SteamID::unpacked(steamid_64).packed() == steamid_64,
{
    let id = SteamID::unpacked(steamid_64);
    let (a, i, t, u) = (
        id.account_id as u64,
        id.account_instance as u64,
        id.account_type as u64,
        id.account_universe as u64,
    );
    assert((a | i << 32 | t << 52 | u << 56) == steamid_64) by (bit_vector)
        requires
            a == steamid_64 % 0x1_0000_0000,
            i == (steamid_64 / 0x1_0000_0000) % 0x10_0000,
            t == (steamid_64 / 0x10_0000_0000_0000) % 0x10,
            u == steamid_64 / 0x100_0000_0000_0000,
    ;
}

/// Packing well-formed fields and taking the result apart gives the fields
/// back.
pub proof fn lemma_pack_then_unpack(id: SteamID)
    requires
        id.well_formed(),
    ensures
        SteamID::unpacked(id.packed()) == id,
{
    let (a, i, t, u) = (
        id.account_id as u64,
        id.account_instance as u64,
        id.account_type as u64,
        id.account_universe as u64,
    );
    let x = id.packed();
    assert(a == x % 0x1_0000_0000 && i == (x / 0x1_0000_0000) % 0x10_0000 && t == (x
        / 0x10_0000_0000_0000) % 0x10 && u == x / 0x100_0000_0000_0000) by (bit_vector)
        requires
            a < 0x1_0000_0000,
            i < 0x10_0000,
            t < 0x10,
            u < 0x100,
            x == (a | i << 32 | t << 52 | u << 56),
    ;
}

/// The packed form of well-formed fields is their sum, each field scaled to
/// its place.
pub proof fn lemma_packed_is_sum(id: SteamID)
    requires
        id.well_formed(),
    ensures
        id.packed() == id.account_id + id.account_instance * 0x1_0000_0000 + id.account_type
            * 0x10_0000_0000_0000 + id.account_universe * 0x100_0000_0000_0000,
{
    let (a, i, t, u) = (
        id.account_id as u64,
        id.account_instance as u64,
        id.account_type as u64,
        id.account_universe as u64,
    );
    assert((a | i << 32 | t << 52 | u << 56) == a + i * 0x1_0000_0000 + t * 0x10_0000_0000_0000 + u
        * 0x100_0000_0000_0000) by (bit_vector)
        requires
            a < 0x1_0000_0000,
            i < 0x10_0000,
            t < 0x10,
            u < 0x100,
    ;
}

} // verus!
