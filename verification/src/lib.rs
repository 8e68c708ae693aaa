//! Conversion between the three notations of a Steam identifier: the packed
//! 64-bit number, the legacy `STEAM_X:Y:Z` text and the bracketed `[T:U:A]`
//! text.

pub mod account_type;
pub mod convert;
pub mod decimal;
pub mod detect;
pub mod error;
pub mod identifier;
pub mod pattern;

pub use account_type::{account_type_to_char, SteamIDAccountType};
pub use convert::{steamid2_to_steamid64, steamid3_to_steamid64, string_to_steamid64};
pub use detect::{string_to_steamid_type, SteamIDFormat};
pub use error::SteamIDError;
pub use identifier::SteamID;
