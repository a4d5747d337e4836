//! The prefix resolution engine: maps a raw phone number to the territory
//! that issued it, by longest-prefix matching over the static table in
//! [`crate::table`], with a fast path for the shared North American prefix.

use vstd::prelude::*;

use crate::digits::count_digits;
use crate::digits::digit_count;
use crate::digits::leading;
use crate::digits::leading_digits;
use crate::digits::lemma_digit_count_bounds;
use crate::digits::lemma_pow10_increases;
use crate::digits::pow10;
use crate::table::lookup_spec;
use crate::table::lookup_table;
use crate::territory::TerritoryCode;

verus! {

/// Why a phone number failed to resolve. The two kinds stay distinguishable:
/// a structurally bad input is the caller's to correct, while an unmatched
/// prefix marks a gap in the table's coverage.
#[derive(Clone, Debug, Eq, Hash, PartialEq, Structural)]
pub enum FromPhoneError {
    /// The input is zero, or supplies fewer than ten decimal digits.
    InvalidPhoneNumber,
    /// The input is well formed, but no table entry matches any prefix.
    NotFound,
}

/// The fixed human-readable message of each error kind.
pub open spec fn message_spec(e: FromPhoneError) -> Seq<char> {
    match e {
        FromPhoneError::InvalidPhoneNumber => "Invalid phone. Must be at least 10 digits"@,
        FromPhoneError::NotFound => "Did not match any territory code"@,
    }
}

impl FromPhoneError {
    /// The fixed human-readable message for display.
    pub fn message(&self) -> (r: &'static str)
        ensures
            r@ == message_spec(*self),
    {
        match *self {
            Self::InvalidPhoneNumber => "Invalid phone. Must be at least 10 digits",
            Self::NotFound => "Did not match any territory code",
        }
    }
}

/// A structurally acceptable input: positive, with at least ten decimal
/// digits. Ten digits is the minimum plausible length for any number that
/// could resolve through this scheme.
pub open spec fn phone_valid(phone: u64) -> bool {
    phone >= 1 && digit_count(phone as nat) >= 10
}

/// The territory of the longest prefix of `phone` of length at most `k`
/// that the table assigns, longer prefixes tried first.
pub open spec fn longest_match_from(phone: u64, k: nat) -> Option<TerritoryCode>
    decreases k,
{
    if k == 0 {
        None
    } else if lookup_spec(leading(phone as nat, k)) is Some {
        lookup_spec(leading(phone as nat, k))
    } else {
        longest_match_from(phone, (k - 1) as nat)
    }
}

/// What resolution returns, input by input. An invalid input is rejected;
/// a number opening with the shared North American prefix `1` is decided by
/// its four-digit prefix alone, with no fallback to shorter prefixes; any
/// other number takes the territory of its longest assigned prefix, trying
/// seven digits down to one.
pub open spec fn resolve_spec(phone: u64) -> Result<TerritoryCode, FromPhoneError> {
    if !phone_valid(phone) {
        Err(FromPhoneError::InvalidPhoneNumber)
    } else if leading(phone as nat, 1) == 1 {
        match lookup_spec(leading(phone as nat, 4)) {
            Some(t) => Ok(t),
            None => Err(FromPhoneError::NotFound),
        }
    } else {
        match longest_match_from(phone, 7) {
            Some(t) => Ok(t),
            None => Err(FromPhoneError::NotFound),
        }
    }
}

impl TerritoryCode {
    /// Attempts to find the territory code from a phone number, given as the
    /// dialed digits without the leading international-call symbol.
    pub fn from_phone_number(phone: u64) -> (r: Result<Self, FromPhoneError>)
        ensures
            r == resolve_spec(phone),
            r == Err::<Self, FromPhoneError>(FromPhoneError::InvalidPhoneNumber) <==> !phone_valid(
                phone,
            ),
    {
        if phone == 0 {
            return Err(FromPhoneError::InvalidPhoneNumber);
        }
        let len = count_digits(phone);
        if len < 10 {
            return Err(FromPhoneError::InvalidPhoneNumber);
        }
        // Shortcut for the shared +1 calling code: the North American plan
        // is fully enumerated at exactly four digits.
        if leading_digits(phone, len, 1) == 1 {
            match lookup_table(leading_digits(phone, len, 4)) {
                Some(t) => Ok(t),
                None => Err(FromPhoneError::NotFound),
            }
        } else {
            // Longest match wins: try prefixes of seven digits down to one.
            let mut k: u32 = 7;
            while k >= 1
                invariant
                    k <= 7,
                    phone >= 1,
                    len as nat == digit_count(phone as nat),
                    10 <= len <= 20,
                    leading(phone as nat, 1) != 1,
                    longest_match_from(phone, 7) == longest_match_from(phone, k as nat),
                decreases k,
            {
                if let Some(t) = lookup_table(leading_digits(phone, len, k)) {
                    return Ok(t);
                }
                k = k - 1;
            }
            Err(FromPhoneError::NotFound)
        }
    }
}

/// Longest match wins: when the table assigns the `k`-digit prefix of
/// `phone` a territory and assigns no longer prefix up to seven digits,
/// resolution returns exactly that territory. A seven-digit entry is thus
/// preferred over any shorter entry that would also match by truncation.
pub proof fn lemma_longest_match_wins(phone: u64, k: nat, t: TerritoryCode)
    requires
        phone_valid(phone),
        leading(phone as nat, 1) != 1,
        1 <= k <= 7,
        lookup_spec(leading(phone as nat, k)) == Some(t),
        forall|j: nat| k < j <= 7 ==> #[trigger] lookup_spec(leading(phone as nat, j)) is None,
    ensures
        resolve_spec(phone) == Ok::<TerritoryCode, FromPhoneError>(t),
{
    lemma_longest_match_from_above(phone, k, 7, t);
}

proof fn lemma_longest_match_from_above(phone: u64, k: nat, m: nat, t: TerritoryCode)
    requires
        1 <= k <= m,
        lookup_spec(leading(phone as nat, k)) == Some(t),
        forall|j: nat| k < j <= m ==> #[trigger] lookup_spec(leading(phone as nat, j)) is None,
    ensures
        longest_match_from(phone, m) == Some(t),
    decreases m,
{
    if m > k {
        lemma_longest_match_from_above(phone, k, (m - 1) as nat, t);
    }
}

/// When no prefix of one through seven digits is assigned, resolution of a
/// number outside the North American fast path reports that nothing was
/// found.
pub proof fn lemma_no_prefix_match(phone: u64)
    requires
        phone_valid(phone),
        leading(phone as nat, 1) != 1,
        forall|j: nat| 1 <= j <= 7 ==> #[trigger] lookup_spec(leading(phone as nat, j)) is None,
    ensures
        resolve_spec(phone) == Err::<TerritoryCode, FromPhoneError>(FromPhoneError::NotFound),
{
    lemma_longest_match_from_none(phone, 7);
}

proof fn lemma_longest_match_from_none(phone: u64, m: nat)
    requires
        forall|j: nat| 1 <= j <= m ==> #[trigger] lookup_spec(leading(phone as nat, j)) is None,
    ensures
        longest_match_from(phone, m) is None,
    decreases m,
{
    if m > 0 {
        lemma_longest_match_from_none(phone, (m - 1) as nat);
    }
}

/// The North American fast path: for a valid number whose first digit is
/// `1`, resolution is decided by the four-digit prefix alone.
pub proof fn lemma_nanp_prefix(phone: u64, t: TerritoryCode)
    requires
        phone_valid(phone),
        leading(phone as nat, 1) == 1,
        lookup_spec(leading(phone as nat, 4)) == Some(t),
    ensures
        resolve_spec(phone) == Ok::<TerritoryCode, FromPhoneError>(t),
{
}

/// The fast path does not fall back: a valid number whose first digit is
/// `1` but whose four-digit prefix is unassigned is reported unfound at
/// once, whatever territories shorter prefixes would name.
pub proof fn lemma_fast_path_no_fallback(phone: u64)
    requires
        phone_valid(phone),
        leading(phone as nat, 1) == 1,
        lookup_spec(leading(phone as nat, 4)) is None,
    ensures
        resolve_spec(phone) == Err::<TerritoryCode, FromPhoneError>(FromPhoneError::NotFound),
{
}

/// The boundary on length: an input is structurally acceptable exactly when
/// it reaches one billion, the smallest ten-digit number. Below that it is
/// rejected as invalid whatever its digits; from there on, success depends
/// on table membership alone.
pub proof fn lemma_length_boundary(phone: u64)
    ensures
        phone_valid(phone) <==> phone >= pow10(9),
{
    let d = digit_count(phone as nat);
    lemma_digit_count_bounds(phone as nat);
    if phone >= 1 && d >= 10 {
        lemma_pow10_increases(9, (d - 1) as nat);
    }
    if phone >= pow10(9) {
        crate::digits::lemma_pow10_positive(9);
        if d < 10 {
            lemma_pow10_increases(d, 9);
        }
    }
}

} // verus!
