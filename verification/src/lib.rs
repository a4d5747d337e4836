//! Mapping between ISO 3166 territory codes and E.164 international
//! calling codes, in both directions.
//!
//! Given a numeric phone number, [`TerritoryCode::from_phone_number`]
//! determines which territory issued it by longest-prefix matching over a
//! fixed table of calling-code prefixes; given a territory,
//! [`TerritoryCode::calling_codes`] returns the calling code(s) assigned to
//! it, and [`TerritoryCode::name`] / [`TerritoryCode::from_name`] convert
//! between territories and their canonical two-letter names.

pub mod calling;
pub mod compat;
pub mod digits;
pub mod names;
pub mod resolve;
pub mod table;
pub mod territory;

pub use calling::CallingCodes;
pub use compat::find_iso_3166;
pub use compat::find_phone_cc;
pub use resolve::FromPhoneError;
pub use territory::TerritoryCode;
