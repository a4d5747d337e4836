//! The deprecated string-based surface, retained as compatibility shims for
//! callers migrating from an older API. The shims degrade the typed errors
//! of [`crate::resolve`] to sentinel values: an unmatched number or name
//! becomes an empty string, and an unparsable or invalid number, which made
//! the old surface terminate abnormally, is excluded by precondition here.

use vstd::prelude::*;

use crate::digits::pow10;
use crate::names::from_name_spec;
use crate::names::name_spec;
use crate::resolve::lemma_length_boundary;
use crate::resolve::resolve_spec;
use crate::territory::TerritoryCode;

verus! {

/// Whether `c` is a decimal digit.
pub open spec fn is_digit(c: char) -> bool {
    48 <= c as int <= 57
}

/// The value of one decimal digit.
pub open spec fn digit_val(c: char) -> nat
    recommends
        is_digit(c),
{
    (c as int - 48) as nat
}

/// Whether `s` consists of decimal digits only.
pub open spec fn all_digits(s: Seq<char>) -> bool {
    forall|i: int| 0 <= i < s.len() ==> is_digit(#[trigger] s[i])
}

/// The number that the digit string `s` denotes, read left to right.
pub open spec fn digits_value(s: Seq<char>) -> nat
    recommends
        all_digits(s),
    decreases s.len(),
{
    if s.len() == 0 {
        0
    } else {
        digits_value(s.drop_last()) * 10 + digit_val(s.last())
    }
}

/// Reading one more digit multiplies the value so far by ten and adds it.
proof fn lemma_digits_value_step(s: Seq<char>, i: int)
    requires
        0 <= i < s.len(),
    ensures
        digits_value(s.subrange(0, i + 1)) == digits_value(s.subrange(0, i)) * 10 + digit_val(
            s[i],
        ),
{
    let u = s.subrange(0, i + 1);
    assert(u.drop_last() =~= s.subrange(0, i));
    assert(u.last() == s[i]);
}

/// The value of a digit string dominates the value of each of its prefixes.
proof fn lemma_digits_value_prefix_le(s: Seq<char>, i: int)
    requires
        0 <= i <= s.len(),
    ensures
        digits_value(s.subrange(0, i)) <= digits_value(s),
    decreases s.len() - i,
{
    if i == s.len() {
        assert(s.subrange(0, i) =~= s);
    } else {
        lemma_digits_value_step(s, i);
        lemma_digits_value_prefix_le(s, i + 1);
    }
}

/// Parses a string of decimal digits into the number it denotes.
fn parse_digits(s: &str) -> (r: u64)
    requires
        all_digits(s@),
        digits_value(s@) <= u64::MAX,
    ensures
        r as nat == digits_value(s@),
{
    let n = s.unicode_len();
    let mut i: usize = 0;
    let mut acc: u64 = 0;
    while i < n
        invariant
            0 <= i <= n,
            n == s@.len(),
            all_digits(s@),
            digits_value(s@) <= u64::MAX,
            acc as nat == digits_value(s@.subrange(0, i as int)),
        decreases n - i,
    {
        let c = s.get_char(i);
        let d: u64 = (c as u64) - 48;
        proof {
            lemma_digits_value_step(s@, i as int);
            lemma_digits_value_prefix_le(s@, i as int + 1);
        }
        acc = acc * 10 + d;
        i = i + 1;
    }
    proof {
        assert(s@.subrange(0, n as int) =~= s@);
    }
    acc
}

/// Finds an ISO 3166 territory name from a phone number given as a string.
///
/// A compatibility shim with poor error handling, kept for callers of the
/// older string-based surface: it yields an empty string when no territory
/// matches, and the number must already be a parsable string of at least
/// ten digits — anything else made the old surface panic, so it is ruled
/// out here. New callers should prefer
/// [`TerritoryCode::from_phone_number`].
pub fn find_iso_3166(phone: &str) -> (r: &'static str)
    requires
        all_digits(phone@),
        digits_value(phone@) <= u64::MAX,
        digits_value(phone@) >= pow10(9),
    ensures
        r@ == match resolve_spec(digits_value(phone@) as u64) {
            Ok(t) => name_spec(t),
            Err(_) => Seq::<char>::empty(),
        },
{
    let number = parse_digits(phone);
    proof {
        lemma_length_boundary(number);
    }
    match TerritoryCode::from_phone_number(number) {
        Ok(country) => country.name(),
        Err(_) => {
            proof {
                reveal_strlit("");
                assert(""@ =~= Seq::<char>::empty());
            }
            ""
        },
    }
}

/// The calling-code string that the deprecated reverse lookup returns for
/// each territory: the primary code in decimal, except that the Caribbean
/// Netherlands report only the shared stem 599 of their three codes, and
/// the XV group code reports 882 alone though the typed API carries 883
/// beside it — a known, intentional limitation of this surface.
pub open spec fn legacy_cc_spec(t: TerritoryCode) -> Seq<char> {
    match t {
        TerritoryCode::US => "1"@,
        TerritoryCode::CA => "1"@,
        TerritoryCode::AC => "247"@,
        TerritoryCode::AD => "376"@,
        TerritoryCode::AE => "971"@,
        TerritoryCode::AF => "93"@,
        TerritoryCode::AG => "1"@,
        TerritoryCode::AI => "1"@,
        TerritoryCode::AL => "355"@,
        TerritoryCode::AM => "374"@,
        TerritoryCode::AO => "244"@,
        TerritoryCode::AQ => "672"@,
        TerritoryCode::AR => "54"@,
        TerritoryCode::AS => "1"@,
        TerritoryCode::AT => "43"@,
        TerritoryCode::AU => "61"@,
        TerritoryCode::AW => "297"@,
        TerritoryCode::AX => "35818"@,
        TerritoryCode::AZ => "994"@,
        TerritoryCode::BA => "387"@,
        TerritoryCode::BB => "1"@,
        TerritoryCode::BD => "880"@,
        TerritoryCode::BE => "32"@,
        TerritoryCode::BF => "226"@,
        TerritoryCode::BG => "359"@,
        TerritoryCode::BH => "973"@,
        TerritoryCode::BI => "257"@,
        TerritoryCode::BJ => "229"@,
        TerritoryCode::BM => "1"@,
        TerritoryCode::BN => "673"@,
        TerritoryCode::BO => "591"@,
        TerritoryCode::BQ => "599"@,
        TerritoryCode::BR => "55"@,
        TerritoryCode::BS => "1"@,
        TerritoryCode::BT => "975"@,
        TerritoryCode::BW => "267"@,
        TerritoryCode::BY => "375"@,
        TerritoryCode::BZ => "501"@,
        TerritoryCode::CC => "6189162"@,
        TerritoryCode::CD => "243"@,
        TerritoryCode::CF => "236"@,
        TerritoryCode::CG => "242"@,
        TerritoryCode::CH => "41"@,
        TerritoryCode::CI => "225"@,
        TerritoryCode::CK => "682"@,
        TerritoryCode::CL => "56"@,
        TerritoryCode::CM => "237"@,
        TerritoryCode::CN => "86"@,
        TerritoryCode::CO => "57"@,
        TerritoryCode::CR => "506"@,
        TerritoryCode::CU => "53"@,
        TerritoryCode::CV => "238"@,
        TerritoryCode::CW => "5999"@,
        TerritoryCode::CX => "6189164"@,
        TerritoryCode::CY => "357"@,
        TerritoryCode::CZ => "420"@,
        TerritoryCode::DE => "49"@,
        TerritoryCode::DJ => "253"@,
        TerritoryCode::DK => "45"@,
        TerritoryCode::DM => "1"@,
        TerritoryCode::DO => "1"@,
        TerritoryCode::DZ => "213"@,
        TerritoryCode::EC => "593"@,
        TerritoryCode::EE => "372"@,
        TerritoryCode::EG => "20"@,
        TerritoryCode::ER => "291"@,
        TerritoryCode::ES => "34"@,
        TerritoryCode::ET => "251"@,
        TerritoryCode::FI => "358"@,
        TerritoryCode::FJ => "679"@,
        TerritoryCode::FK => "500"@,
        TerritoryCode::FM => "691"@,
        TerritoryCode::FO => "298"@,
        TerritoryCode::FR => "33"@,
        TerritoryCode::GA => "241"@,
        TerritoryCode::GB => "44"@,
        TerritoryCode::GD => "1"@,
        TerritoryCode::GE => "995"@,
        TerritoryCode::GF => "594"@,
        TerritoryCode::GG => "441481"@,
        TerritoryCode::GH => "233"@,
        TerritoryCode::GI => "350"@,
        TerritoryCode::GL => "299"@,
        TerritoryCode::GM => "220"@,
        TerritoryCode::GN => "224"@,
        TerritoryCode::GP => "590"@,
        TerritoryCode::GQ => "240"@,
        TerritoryCode::GR => "30"@,
        TerritoryCode::GT => "502"@,
        TerritoryCode::GU => "1"@,
        TerritoryCode::GW => "245"@,
        TerritoryCode::GY => "592"@,
        TerritoryCode::HK => "852"@,
        TerritoryCode::HN => "504"@,
        TerritoryCode::HR => "385"@,
        TerritoryCode::HT => "509"@,
        TerritoryCode::HU => "36"@,
        TerritoryCode::ID => "62"@,
        TerritoryCode::IE => "353"@,
        TerritoryCode::IL => "972"@,
        TerritoryCode::IM => "441624"@,
        TerritoryCode::IN => "91"@,
        TerritoryCode::IO => "246"@,
        TerritoryCode::IQ => "964"@,
        TerritoryCode::IR => "98"@,
        TerritoryCode::IS => "354"@,
        TerritoryCode::IT => "39"@,
        TerritoryCode::JE => "441534"@,
        TerritoryCode::JM => "1"@,
        TerritoryCode::JO => "962"@,
        TerritoryCode::JP => "81"@,
        TerritoryCode::KE => "254"@,
        TerritoryCode::KG => "996"@,
        TerritoryCode::KH => "855"@,
        TerritoryCode::KI => "686"@,
        TerritoryCode::KM => "269"@,
        TerritoryCode::KN => "1"@,
        TerritoryCode::KP => "850"@,
        TerritoryCode::KR => "82"@,
        TerritoryCode::KW => "965"@,
        TerritoryCode::KY => "1"@,
        TerritoryCode::KZ => "7"@,
        TerritoryCode::LA => "856"@,
        TerritoryCode::LB => "961"@,
        TerritoryCode::LC => "1"@,
        TerritoryCode::LI => "423"@,
        TerritoryCode::LK => "94"@,
        TerritoryCode::LR => "231"@,
        TerritoryCode::LS => "266"@,
        TerritoryCode::LT => "370"@,
        TerritoryCode::LU => "352"@,
        TerritoryCode::LV => "371"@,
        TerritoryCode::LY => "218"@,
        TerritoryCode::MA => "212"@,
        TerritoryCode::MC => "377"@,
        TerritoryCode::MD => "373"@,
        TerritoryCode::ME => "382"@,
        TerritoryCode::MG => "261"@,
        TerritoryCode::MH => "692"@,
        TerritoryCode::MK => "389"@,
        TerritoryCode::ML => "223"@,
        TerritoryCode::MM => "95"@,
        TerritoryCode::MN => "976"@,
        TerritoryCode::MO => "853"@,
        TerritoryCode::MP => "1"@,
        TerritoryCode::MQ => "596"@,
        TerritoryCode::MR => "222"@,
        TerritoryCode::MS => "1"@,
        TerritoryCode::MT => "356"@,
        TerritoryCode::MU => "230"@,
        TerritoryCode::MV => "960"@,
        TerritoryCode::MW => "265"@,
        TerritoryCode::MX => "52"@,
        TerritoryCode::MY => "60"@,
        TerritoryCode::MZ => "258"@,
        TerritoryCode::NA => "264"@,
        TerritoryCode::NC => "687"@,
        TerritoryCode::NE => "227"@,
        TerritoryCode::NF => "6723"@,
        TerritoryCode::NG => "234"@,
        TerritoryCode::NI => "505"@,
        TerritoryCode::NL => "31"@,
        TerritoryCode::NO => "47"@,
        TerritoryCode::NP => "977"@,
        TerritoryCode::NR => "674"@,
        TerritoryCode::NU => "683"@,
        TerritoryCode::NZ => "64"@,
        TerritoryCode::OM => "968"@,
        TerritoryCode::PA => "507"@,
        TerritoryCode::PE => "51"@,
        TerritoryCode::PF => "689"@,
        TerritoryCode::PG => "675"@,
        TerritoryCode::PH => "63"@,
        TerritoryCode::PK => "92"@,
        TerritoryCode::PL => "48"@,
        TerritoryCode::PM => "508"@,
        TerritoryCode::PR => "1"@,
        TerritoryCode::PS => "970"@,
        TerritoryCode::PT => "351"@,
        TerritoryCode::PW => "680"@,
        TerritoryCode::PY => "595"@,
        TerritoryCode::QA => "974"@,
        TerritoryCode::RE => "262"@,
        TerritoryCode::RO => "40"@,
        TerritoryCode::RS => "381"@,
        TerritoryCode::RU => "7"@,
        TerritoryCode::RW => "250"@,
        TerritoryCode::SA => "966"@,
        TerritoryCode::SB => "677"@,
        TerritoryCode::SC => "248"@,
        TerritoryCode::SD => "249"@,
        TerritoryCode::SE => "46"@,
        TerritoryCode::SG => "65"@,
        TerritoryCode::SH => "290"@,
        TerritoryCode::SI => "386"@,
        TerritoryCode::SJ => "4779"@,
        TerritoryCode::SK => "421"@,
        TerritoryCode::SL => "232"@,
        TerritoryCode::SM => "378"@,
        TerritoryCode::SN => "221"@,
        TerritoryCode::SO => "252"@,
        TerritoryCode::SR => "597"@,
        TerritoryCode::SS => "211"@,
        TerritoryCode::ST => "239"@,
        TerritoryCode::SV => "503"@,
        TerritoryCode::SX => "1"@,
        TerritoryCode::SY => "963"@,
        TerritoryCode::SZ => "268"@,
        TerritoryCode::TC => "1"@,
        TerritoryCode::TD => "235"@,
        TerritoryCode::TG => "228"@,
        TerritoryCode::TH => "66"@,
        TerritoryCode::TJ => "992"@,
        TerritoryCode::TK => "690"@,
        TerritoryCode::TL => "670"@,
        TerritoryCode::TM => "993"@,
        TerritoryCode::TN => "216"@,
        TerritoryCode::TO => "676"@,
        TerritoryCode::TR => "90"@,
        TerritoryCode::TT => "1"@,
        TerritoryCode::TV => "688"@,
        TerritoryCode::TW => "886"@,
        TerritoryCode::TZ => "255"@,
        TerritoryCode::UA => "380"@,
        TerritoryCode::UG => "256"@,
        TerritoryCode::UY => "598"@,
        TerritoryCode::UZ => "998"@,
        TerritoryCode::VA => "379"@,
        TerritoryCode::VC => "1"@,
        TerritoryCode::VE => "58"@,
        TerritoryCode::VG => "1"@,
        TerritoryCode::VI => "1"@,
        TerritoryCode::VN => "84"@,
        TerritoryCode::VU => "678"@,
        TerritoryCode::WF => "681"@,
        TerritoryCode::WS => "685"@,
        TerritoryCode::XG => "881"@,
        TerritoryCode::XN => "870"@,
        TerritoryCode::XP => "878"@,
        TerritoryCode::XS => "808"@,
        TerritoryCode::XT => "800"@,
        TerritoryCode::XV => "882"@,
        TerritoryCode::YE => "967"@,
        TerritoryCode::YT => "262"@,
        TerritoryCode::ZA => "27"@,
        TerritoryCode::ZM => "260"@,
        TerritoryCode::ZW => "263"@,
    }
}

/// Finds a phone calling code from an ISO 3166 territory name.
///
/// A compatibility shim with poor error handling, kept for callers of the
/// older string-based surface: it yields an empty string for an
/// unrecognized name, and for a territory with several calling codes it
/// yields a single string only. New callers should prefer
/// [`TerritoryCode::calling_codes`].
pub fn find_phone_cc(code: &str) -> (r: &'static str)
    ensures
        r@ == match from_name_spec(code@) {
            Some(t) => legacy_cc_spec(t),
            None => Seq::<char>::empty(),
        },
{
    let country = match TerritoryCode::from_name(code) {
        Some(country) => country,
        None => {
            proof {
                reveal_strlit("");
                assert(""@ =~= Seq::<char>::empty());
            }
            return "";
        },
    };
    match country {
        TerritoryCode::US => "1",
        TerritoryCode::CA => "1",
        TerritoryCode::AC => "247",
        TerritoryCode::AD => "376",
        TerritoryCode::AE => "971",
        TerritoryCode::AF => "93",
        TerritoryCode::AG => "1",
        TerritoryCode::AI => "1",
        TerritoryCode::AL => "355",
        TerritoryCode::AM => "374",
        TerritoryCode::AO => "244",
        TerritoryCode::AQ => "672",
        TerritoryCode::AR => "54",
        TerritoryCode::AS => "1",
        TerritoryCode::AT => "43",
        TerritoryCode::AU => "61",
        TerritoryCode::AW => "297",
        TerritoryCode::AX => "35818",
        TerritoryCode::AZ => "994",
        TerritoryCode::BA => "387",
        TerritoryCode::BB => "1",
        TerritoryCode::BD => "880",
        TerritoryCode::BE => "32",
        TerritoryCode::BF => "226",
        TerritoryCode::BG => "359",
        TerritoryCode::BH => "973",
        TerritoryCode::BI => "257",
        TerritoryCode::BJ => "229",
        TerritoryCode::BM => "1",
        TerritoryCode::BN => "673",
        TerritoryCode::BO => "591",
        TerritoryCode::BQ => "599",
        TerritoryCode::BR => "55",
        TerritoryCode::BS => "1",
        TerritoryCode::BT => "975",
        TerritoryCode::BW => "267",
        TerritoryCode::BY => "375",
        TerritoryCode::BZ => "501",
        TerritoryCode::CC => "6189162",
        TerritoryCode::CD => "243",
        TerritoryCode::CF => "236",
        TerritoryCode::CG => "242",
        TerritoryCode::CH => "41",
        TerritoryCode::CI => "225",
        TerritoryCode::CK => "682",
        TerritoryCode::CL => "56",
        TerritoryCode::CM => "237",
        TerritoryCode::CN => "86",
        TerritoryCode::CO => "57",
        TerritoryCode::CR => "506",
        TerritoryCode::CU => "53",
        TerritoryCode::CV => "238",
        TerritoryCode::CW => "5999",
        TerritoryCode::CX => "6189164",
        TerritoryCode::CY => "357",
        TerritoryCode::CZ => "420",
        TerritoryCode::DE => "49",
        TerritoryCode::DJ => "253",
        TerritoryCode::DK => "45",
        TerritoryCode::DM => "1",
        TerritoryCode::DO => "1",
        TerritoryCode::DZ => "213",
        TerritoryCode::EC => "593",
        TerritoryCode::EE => "372",
        TerritoryCode::EG => "20",
        TerritoryCode::ER => "291",
        TerritoryCode::ES => "34",
        TerritoryCode::ET => "251",
        TerritoryCode::FI => "358",
        TerritoryCode::FJ => "679",
        TerritoryCode::FK => "500",
        TerritoryCode::FM => "691",
        TerritoryCode::FO => "298",
        TerritoryCode::FR => "33",
        TerritoryCode::GA => "241",
        TerritoryCode::GB => "44",
        TerritoryCode::GD => "1",
        TerritoryCode::GE => "995",
        TerritoryCode::GF => "594",
        TerritoryCode::GG => "441481",
        TerritoryCode::GH => "233",
        TerritoryCode::GI => "350",
        TerritoryCode::GL => "299",
        TerritoryCode::GM => "220",
        TerritoryCode::GN => "224",
        TerritoryCode::GP => "590",
        TerritoryCode::GQ => "240",
        TerritoryCode::GR => "30",
        TerritoryCode::GT => "502",
        TerritoryCode::GU => "1",
        TerritoryCode::GW => "245",
        TerritoryCode::GY => "592",
        TerritoryCode::HK => "852",
        TerritoryCode::HN => "504",
        TerritoryCode::HR => "385",
        TerritoryCode::HT => "509",
        TerritoryCode::HU => "36",
        TerritoryCode::ID => "62",
        TerritoryCode::IE => "353",
        TerritoryCode::IL => "972",
        TerritoryCode::IM => "441624",
        TerritoryCode::IN => "91",
        TerritoryCode::IO => "246",
        TerritoryCode::IQ => "964",
        TerritoryCode::IR => "98",
        TerritoryCode::IS => "354",
        TerritoryCode::IT => "39",
        TerritoryCode::JE => "441534",
        TerritoryCode::JM => "1",
        TerritoryCode::JO => "962",
        TerritoryCode::JP => "81",
        TerritoryCode::KE => "254",
        TerritoryCode::KG => "996",
        TerritoryCode::KH => "855",
        TerritoryCode::KI => "686",
        TerritoryCode::KM => "269",
        TerritoryCode::KN => "1",
        TerritoryCode::KP => "850",
        TerritoryCode::KR => "82",
        TerritoryCode::KW => "965",
        TerritoryCode::KY => "1",
        TerritoryCode::KZ => "7",
        TerritoryCode::LA => "856",
        TerritoryCode::LB => "961",
        TerritoryCode::LC => "1",
        TerritoryCode::LI => "423",
        TerritoryCode::LK => "94",
        TerritoryCode::LR => "231",
        TerritoryCode::LS => "266",
        TerritoryCode::LT => "370",
        TerritoryCode::LU => "352",
        TerritoryCode::LV => "371",
        TerritoryCode::LY => "218",
        TerritoryCode::MA => "212",
        TerritoryCode::MC => "377",
        TerritoryCode::MD => "373",
        TerritoryCode::ME => "382",
        TerritoryCode::MG => "261",
        TerritoryCode::MH => "692",
        TerritoryCode::MK => "389",
        TerritoryCode::ML => "223",
        TerritoryCode::MM => "95",
        TerritoryCode::MN => "976",
        TerritoryCode::MO => "853",
        TerritoryCode::MP => "1",
        TerritoryCode::MQ => "596",
        TerritoryCode::MR => "222",
        TerritoryCode::MS => "1",
        TerritoryCode::MT => "356",
        TerritoryCode::MU => "230",
        TerritoryCode::MV => "960",
        TerritoryCode::MW => "265",
        TerritoryCode::MX => "52",
        TerritoryCode::MY => "60",
        TerritoryCode::MZ => "258",
        TerritoryCode::NA => "264",
        TerritoryCode::NC => "687",
        TerritoryCode::NE => "227",
        TerritoryCode::NF => "6723",
        TerritoryCode::NG => "234",
        TerritoryCode::NI => "505",
        TerritoryCode::NL => "31",
        TerritoryCode::NO => "47",
        TerritoryCode::NP => "977",
        TerritoryCode::NR => "674",
        TerritoryCode::NU => "683",
        TerritoryCode::NZ => "64",
        TerritoryCode::OM => "968",
        TerritoryCode::PA => "507",
        TerritoryCode::PE => "51",
        TerritoryCode::PF => "689",
        TerritoryCode::PG => "675",
        TerritoryCode::PH => "63",
        TerritoryCode::PK => "92",
        TerritoryCode::PL => "48",
        TerritoryCode::PM => "508",
        TerritoryCode::PR => "1",
        TerritoryCode::PS => "970",
        TerritoryCode::PT => "351",
        TerritoryCode::PW => "680",
        TerritoryCode::PY => "595",
        TerritoryCode::QA => "974",
        TerritoryCode::RE => "262",
        TerritoryCode::RO => "40",
        TerritoryCode::RS => "381",
        TerritoryCode::RU => "7",
        TerritoryCode::RW => "250",
        TerritoryCode::SA => "966",
        TerritoryCode::SB => "677",
        TerritoryCode::SC => "248",
        TerritoryCode::SD => "249",
        TerritoryCode::SE => "46",
        TerritoryCode::SG => "65",
        TerritoryCode::SH => "290",
        TerritoryCode::SI => "386",
        TerritoryCode::SJ => "4779",
        TerritoryCode::SK => "421",
        TerritoryCode::SL => "232",
        TerritoryCode::SM => "378",
        TerritoryCode::SN => "221",
        TerritoryCode::SO => "252",
        TerritoryCode::SR => "597",
        TerritoryCode::SS => "211",
        TerritoryCode::ST => "239",
        TerritoryCode::SV => "503",
        TerritoryCode::SX => "1",
        TerritoryCode::SY => "963",
        TerritoryCode::SZ => "268",
        TerritoryCode::TC => "1",
        TerritoryCode::TD => "235",
        TerritoryCode::TG => "228",
        TerritoryCode::TH => "66",
        TerritoryCode::TJ => "992",
        TerritoryCode::TK => "690",
        TerritoryCode::TL => "670",
        TerritoryCode::TM => "993",
        TerritoryCode::TN => "216",
        TerritoryCode::TO => "676",
        TerritoryCode::TR => "90",
        TerritoryCode::TT => "1",
        TerritoryCode::TV => "688",
        TerritoryCode::TW => "886",
        TerritoryCode::TZ => "255",
        TerritoryCode::UA => "380",
        TerritoryCode::UG => "256",
        TerritoryCode::UY => "598",
        TerritoryCode::UZ => "998",
        TerritoryCode::VA => "379",
        TerritoryCode::VC => "1",
        TerritoryCode::VE => "58",
        TerritoryCode::VG => "1",
        TerritoryCode::VI => "1",
        TerritoryCode::VN => "84",
        TerritoryCode::VU => "678",
        TerritoryCode::WF => "681",
        TerritoryCode::WS => "685",
        TerritoryCode::XG => "881",
        TerritoryCode::XN => "870",
        TerritoryCode::XP => "878",
        TerritoryCode::XS => "808",
        TerritoryCode::XT => "800",
        TerritoryCode::XV => "882",
        TerritoryCode::YE => "967",
        TerritoryCode::YT => "262",
        TerritoryCode::ZA => "27",
        TerritoryCode::ZM => "260",
        TerritoryCode::ZW => "263",
    }
}

} // verus!
