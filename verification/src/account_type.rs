//! Account types and the letters that stand for them in the bracketed notation.

use vstd::prelude::*;

verus! {

/// The role of an account, a four-bit field of the packed identifier.
#[derive(Debug, Clone, Copy, PartialEq, Eq, Structural)]
pub enum SteamIDAccountType {
    Invalid,
    Individual,
    Multiseat,
    GameServer,
    AnonGameServer,
    Pending,
    ContentServer,
    Clan,
    Chat,
    ConsoleUser,
    AnonUser,
}

/// The kind of chat room that an instance value names: its bits 12 to 19.
pub open spec fn chat_subtype(instance: u32) -> int {
    (instance as int / 0x1000) % 0x100
}

/// The letter of a chat account: `T` for a matchmaking lobby, `L` for a lobby,
/// `c` for a clan chat and for every other kind.
pub open spec fn chat_type_char(instance: u32) -> char {
    if chat_subtype(instance) == 1 {
        'T'
    } else if chat_subtype(instance) == 2 {
        'L'
    } else {
        'c'
    }
}

/// The instance that is assumed where none is given.
pub open spec fn instance_or_zero(instance: Option<u32>) -> u32 {
    match instance {
        Some(i) => i,
        None => 0,
    }
}

impl SteamIDAccountType {
    /// The letter that stands for this account type. `ConsoleUser` has no letter
    /// of its own and is written like `Invalid`.
    pub open spec fn spec_to_char(self, instance: Option<u32>) -> char {
        match self {
            SteamIDAccountType::Invalid => 'I',
            SteamIDAccountType::Individual => 'U',
            SteamIDAccountType::Multiseat => 'M',
            SteamIDAccountType::GameServer => 'G',
            SteamIDAccountType::AnonGameServer => 'A',
            SteamIDAccountType::Pending => 'P',
            SteamIDAccountType::ContentServer => 'C',
            SteamIDAccountType::Clan => 'g',
            SteamIDAccountType::Chat => chat_type_char(instance_or_zero(instance)),
            SteamIDAccountType::ConsoleUser => 'I',
            SteamIDAccountType::AnonUser => 'a',
        }
    }

    /// The number of this account type in the packed identifier.
    pub open spec fn spec_to_int(self) -> u32 {
        match self {
            SteamIDAccountType::Invalid => 0,
            SteamIDAccountType::Individual => 1,
            SteamIDAccountType::Multiseat => 2,
            SteamIDAccountType::GameServer => 3,
            SteamIDAccountType::AnonGameServer => 4,
            SteamIDAccountType::Pending => 5,
            SteamIDAccountType::ContentServer => 6,
            SteamIDAccountType::Clan => 7,
            SteamIDAccountType::Chat => 8,
            SteamIDAccountType::ConsoleUser => 9,
            SteamIDAccountType::AnonUser => 10,
        }
    }

    /// The account type that a letter names. The three chat letters all name
    /// `Chat`; a letter that names nothing gives `Invalid`.
    pub open spec fn spec_from_char(account_type: char) -> SteamIDAccountType {
        if account_type == 'U' {
            SteamIDAccountType::Individual
        } else if account_type == 'M' {
            SteamIDAccountType::Multiseat
        } else if account_type == 'G' {
            SteamIDAccountType::GameServer
        } else if account_type == 'A' {
            SteamIDAccountType::AnonGameServer
        } else if account_type == 'P' {
            SteamIDAccountType::Pending
        } else if account_type == 'C' {
            SteamIDAccountType::ContentServer
        } else if account_type == 'g' {
            SteamIDAccountType::Clan
        } else if account_type == 'c' || account_type == 'T' || account_type == 'L' {
            SteamIDAccountType::Chat
        } else if account_type == 'a' {
            SteamIDAccountType::AnonUser
        } else {
            SteamIDAccountType::Invalid
        }
    }

    /// The account type with the given number; `Invalid` where there is none.
    pub open spec fn spec_from_int(account_type: u8) -> SteamIDAccountType {
        match account_type {
            1 => SteamIDAccountType::Individual,
            2 => SteamIDAccountType::Multiseat,
            3 => SteamIDAccountType::GameServer,
            4 => SteamIDAccountType::AnonGameServer,
            5 => SteamIDAccountType::Pending,
            6 => SteamIDAccountType::ContentServer,
            7 => SteamIDAccountType::Clan,
            8 => SteamIDAccountType::Chat,
            9 => SteamIDAccountType::ConsoleUser,
            10 => SteamIDAccountType::AnonUser,
            _ => SteamIDAccountType::Invalid,
        }
    }

    #[verifier::when_used_as_spec(spec_to_char)]
    pub fn to_char(self, instance: Option<u32>) -> (c: char)
        ensures
            c == self.spec_to_char(instance),
    {
        match self {
            SteamIDAccountType::Invalid => 'I',
            SteamIDAccountType::Individual => 'U',
            SteamIDAccountType::Multiseat => 'M',
            SteamIDAccountType::GameServer => 'G',
            SteamIDAccountType::AnonGameServer => 'A',
            SteamIDAccountType::Pending => 'P',
            SteamIDAccountType::ContentServer => 'C',
            SteamIDAccountType::Clan => 'g',
            SteamIDAccountType::Chat => {
                let instance: u32 = instance.unwrap_or(0);
                let subtype: u32 = (instance >> 12) & 255;
                assert((instance >> 12) & 255 == (instance / 0x1000) % 0x100) by (bit_vector);
                if subtype == 1 {
                    'T'
                } else if subtype == 2 {
                    'L'
                } else {
                    'c'
                }
            },
            SteamIDAccountType::ConsoleUser => 'I',
            SteamIDAccountType::AnonUser => 'a',
        }
    }

    #[verifier::when_used_as_spec(spec_to_int)]
    pub fn to_int(self) -> (n: u32)
        ensures
            n == self.spec_to_int(),
    {
        match self {
            SteamIDAccountType::Invalid => 0,
            SteamIDAccountType::Individual => 1,
            SteamIDAccountType::Multiseat => 2,
            SteamIDAccountType::GameServer => 3,
            SteamIDAccountType::AnonGameServer => 4,
            SteamIDAccountType::Pending => 5,
            SteamIDAccountType::ContentServer => 6,
            SteamIDAccountType::Clan => 7,
            SteamIDAccountType::Chat => 8,
            SteamIDAccountType::ConsoleUser => 9,
            SteamIDAccountType::AnonUser => 10,
        }
    }

    #[verifier::when_used_as_spec(spec_from_char)]
    pub fn from_char(account_type: char) -> (t: SteamIDAccountType)
        ensures
            t == Self::spec_from_char(account_type),
    {
        match account_type {
            'I' => SteamIDAccountType::Invalid,
            'U' => SteamIDAccountType::Individual,
            'M' => SteamIDAccountType::Multiseat,
            'G' => SteamIDAccountType::GameServer,
            'A' => SteamIDAccountType::AnonGameServer,
            'P' => SteamIDAccountType::Pending,
            'C' => SteamIDAccountType::ContentServer,
            'g' => SteamIDAccountType::Clan,
            'c' => SteamIDAccountType::Chat,
            'T' => SteamIDAccountType::Chat,
            'L' => SteamIDAccountType::Chat,
            'a' => SteamIDAccountType::AnonUser,
            _ => SteamIDAccountType::Invalid,
        }
    }

    #[verifier::when_used_as_spec(spec_from_int)]
    pub fn from_int(account_type: u8) -> (t: SteamIDAccountType)
        ensures
            t == Self::spec_from_int(account_type),
    {
        match account_type {
            0 => SteamIDAccountType::Invalid,
            1 => SteamIDAccountType::Individual,
            2 => SteamIDAccountType::Multiseat,
            3 => SteamIDAccountType::GameServer,
            4 => SteamIDAccountType::AnonGameServer,
            5 => SteamIDAccountType::Pending,
            6 => SteamIDAccountType::ContentServer,
            7 => SteamIDAccountType::Clan,
            8 => SteamIDAccountType::Chat,
            9 => SteamIDAccountType::ConsoleUser,
            10 => SteamIDAccountType::AnonUser,
            _ => SteamIDAccountType::Invalid,
        }
    }
}

/// The letter for an account type given by its number: that of the account
/// type with that number.
pub fn account_type_to_char(account_type: u8, instance: Option<u32>) -> (c: char)
    ensures
        c == SteamIDAccountType::spec_from_int(account_type).spec_to_char(instance),
{
    SteamIDAccountType::from_int(account_type).to_char(instance)
}

/// The number of an account type names that account type.
pub proof fn lemma_from_int_to_int(account_type: SteamIDAccountType)
    ensures
        account_type.spec_to_int() <= 10,
        SteamIDAccountType::spec_from_int(account_type.spec_to_int() as u8) == account_type,
{
}

/// The letter of an account type names that account type, whatever the
/// instance, with one exception: the letter of `ConsoleUser` names `Invalid`.
pub proof fn lemma_from_char_to_char(account_type: SteamIDAccountType, instance: Option<u32>)
    ensures
        SteamIDAccountType::spec_from_char(account_type.spec_to_char(instance)) == if account_type
            == SteamIDAccountType::ConsoleUser {
            SteamIDAccountType::Invalid
        } else {
            account_type
        },
{
}

} // verus!
