//! The name table: bidirectional conversion between each territory and its
//! canonical two-letter uppercase name.

use vstd::prelude::*;

use crate::territory::TerritoryCode;

verus! {

/// The canonical two-letter uppercase name of each territory. The mapping
/// between names and territories is a bijection.
pub open spec fn name_spec(t: TerritoryCode) -> Seq<char> {
    match t {
        TerritoryCode::US => "US"@,
        TerritoryCode::CA => "CA"@,
        TerritoryCode::AC => "AC"@,
        TerritoryCode::AD => "AD"@,
        TerritoryCode::AE => "AE"@,
        TerritoryCode::AF => "AF"@,
        TerritoryCode::AG => "AG"@,
        TerritoryCode::AI => "AI"@,
        TerritoryCode::AL => "AL"@,
        TerritoryCode::AM => "AM"@,
        TerritoryCode::AO => "AO"@,
        TerritoryCode::AQ => "AQ"@,
        TerritoryCode::AR => "AR"@,
        TerritoryCode::AS => "AS"@,
        TerritoryCode::AT => "AT"@,
        TerritoryCode::AU => "AU"@,
        TerritoryCode::AW => "AW"@,
        TerritoryCode::AX => "AX"@,
        TerritoryCode::AZ => "AZ"@,
        TerritoryCode::BA => "BA"@,
        TerritoryCode::BB => "BB"@,
        TerritoryCode::BD => "BD"@,
        TerritoryCode::BE => "BE"@,
        TerritoryCode::BF => "BF"@,
        TerritoryCode::BG => "BG"@,
        TerritoryCode::BH => "BH"@,
        TerritoryCode::BI => "BI"@,
        TerritoryCode::BJ => "BJ"@,
        TerritoryCode::BM => "BM"@,
        TerritoryCode::BN => "BN"@,
        TerritoryCode::BO => "BO"@,
        TerritoryCode::BQ => "BQ"@,
        TerritoryCode::BR => "BR"@,
        TerritoryCode::BS => "BS"@,
        TerritoryCode::BT => "BT"@,
        TerritoryCode::BW => "BW"@,
        TerritoryCode::BY => "BY"@,
        TerritoryCode::BZ => "BZ"@,
        TerritoryCode::CC => "CC"@,
        TerritoryCode::CD => "CD"@,
        TerritoryCode::CF => "CF"@,
        TerritoryCode::CG => "CG"@,
        TerritoryCode::CH => "CH"@,
        TerritoryCode::CI => "CI"@,
        TerritoryCode::CK => "CK"@,
        TerritoryCode::CL => "CL"@,
        TerritoryCode::CM => "CM"@,
        TerritoryCode::CN => "CN"@,
        TerritoryCode::CO => "CO"@,
        TerritoryCode::CR => "CR"@,
        TerritoryCode::CU => "CU"@,
        TerritoryCode::CV => "CV"@,
        TerritoryCode::CW => "CW"@,
        TerritoryCode::CX => "CX"@,
        TerritoryCode::CY => "CY"@,
        TerritoryCode::CZ => "CZ"@,
        TerritoryCode::DE => "DE"@,
        TerritoryCode::DJ => "DJ"@,
        TerritoryCode::DK => "DK"@,
        TerritoryCode::DM => "DM"@,
        TerritoryCode::DO => "DO"@,
        TerritoryCode::DZ => "DZ"@,
        TerritoryCode::EC => "EC"@,
        TerritoryCode::EE => "EE"@,
        TerritoryCode::EG => "EG"@,
        TerritoryCode::ER => "ER"@,
        TerritoryCode::ES => "ES"@,
        TerritoryCode::ET => "ET"@,
        TerritoryCode::FI => "FI"@,
        TerritoryCode::FJ => "FJ"@,
        TerritoryCode::FK => "FK"@,
        TerritoryCode::FM => "FM"@,
        TerritoryCode::FO => "FO"@,
        TerritoryCode::FR => "FR"@,
        TerritoryCode::GA => "GA"@,
        TerritoryCode::GB => "GB"@,
        TerritoryCode::GD => "GD"@,
        TerritoryCode::GE => "GE"@,
        TerritoryCode::GF => "GF"@,
        TerritoryCode::GG => "GG"@,
        TerritoryCode::GH => "GH"@,
        TerritoryCode::GI => "GI"@,
        TerritoryCode::GL => "GL"@,
        TerritoryCode::GM => "GM"@,
        TerritoryCode::GN => "GN"@,
        TerritoryCode::GP => "GP"@,
        TerritoryCode::GQ => "GQ"@,
        TerritoryCode::GR => "GR"@,
        TerritoryCode::GT => "GT"@,
        TerritoryCode::GU => "GU"@,
        TerritoryCode::GW => "GW"@,
        TerritoryCode::GY => "GY"@,
        TerritoryCode::HK => "HK"@,
        TerritoryCode::HN => "HN"@,
        TerritoryCode::HR => "HR"@,
        TerritoryCode::HT => "HT"@,
        TerritoryCode::HU => "HU"@,
        TerritoryCode::ID => "ID"@,
        TerritoryCode::IE => "IE"@,
        TerritoryCode::IL => "IL"@,
        TerritoryCode::IM => "IM"@,
        TerritoryCode::IN => "IN"@,
        TerritoryCode::IO => "IO"@,
        TerritoryCode::IQ => "IQ"@,
        TerritoryCode::IR => "IR"@,
        TerritoryCode::IS => "IS"@,
        TerritoryCode::IT => "IT"@,
        TerritoryCode::JE => "JE"@,
        TerritoryCode::JM => "JM"@,
        TerritoryCode::JO => "JO"@,
        TerritoryCode::JP => "JP"@,
        TerritoryCode::KE => "KE"@,
        TerritoryCode::KG => "KG"@,
        TerritoryCode::KH => "KH"@,
        TerritoryCode::KI => "KI"@,
        TerritoryCode::KM => "KM"@,
        TerritoryCode::KN => "KN"@,
        TerritoryCode::KP => "KP"@,
        TerritoryCode::KR => "KR"@,
        TerritoryCode::KW => "KW"@,
        TerritoryCode::KY => "KY"@,
        TerritoryCode::KZ => "KZ"@,
        TerritoryCode::LA => "LA"@,
        TerritoryCode::LB => "LB"@,
        TerritoryCode::LC => "LC"@,
        TerritoryCode::LI => "LI"@,
        TerritoryCode::LK => "LK"@,
        TerritoryCode::LR => "LR"@,
        TerritoryCode::LS => "LS"@,
        TerritoryCode::LT => "LT"@,
        TerritoryCode::LU => "LU"@,
        TerritoryCode::LV => "LV"@,
        TerritoryCode::LY => "LY"@,
        TerritoryCode::MA => "MA"@,
        TerritoryCode::MC => "MC"@,
        TerritoryCode::MD => "MD"@,
        TerritoryCode::ME => "ME"@,
        TerritoryCode::MG => "MG"@,
        TerritoryCode::MH => "MH"@,
        TerritoryCode::MK => "MK"@,
        TerritoryCode::ML => "ML"@,
        TerritoryCode::MM => "MM"@,
        TerritoryCode::MN => "MN"@,
        TerritoryCode::MO => "MO"@,
        TerritoryCode::MP => "MP"@,
        TerritoryCode::MQ => "MQ"@,
        TerritoryCode::MR => "MR"@,
        TerritoryCode::MS => "MS"@,
        TerritoryCode::MT => "MT"@,
        TerritoryCode::MU => "MU"@,
        TerritoryCode::MV => "MV"@,
        TerritoryCode::MW => "MW"@,
        TerritoryCode::MX => "MX"@,
        TerritoryCode::MY => "MY"@,
        TerritoryCode::MZ => "MZ"@,
        TerritoryCode::NA => "NA"@,
        TerritoryCode::NC => "NC"@,
        TerritoryCode::NE => "NE"@,
        TerritoryCode::NF => "NF"@,
        TerritoryCode::NG => "NG"@,
        TerritoryCode::NI => "NI"@,
        TerritoryCode::NL => "NL"@,
        TerritoryCode::NO => "NO"@,
        TerritoryCode::NP => "NP"@,
        TerritoryCode::NR => "NR"@,
        TerritoryCode::NU => "NU"@,
        TerritoryCode::NZ => "NZ"@,
        TerritoryCode::OM => "OM"@,
        TerritoryCode::PA => "PA"@,
        TerritoryCode::PE => "PE"@,
        TerritoryCode::PF => "PF"@,
        TerritoryCode::PG => "PG"@,
        TerritoryCode::PH => "PH"@,
        TerritoryCode::PK => "PK"@,
        TerritoryCode::PL => "PL"@,
        TerritoryCode::PM => "PM"@,
        TerritoryCode::PR => "PR"@,
        TerritoryCode::PS => "PS"@,
        TerritoryCode::PT => "PT"@,
        TerritoryCode::PW => "PW"@,
        TerritoryCode::PY => "PY"@,
        TerritoryCode::QA => "QA"@,
        TerritoryCode::RE => "RE"@,
        TerritoryCode::RO => "RO"@,
        TerritoryCode::RS => "RS"@,
        TerritoryCode::RU => "RU"@,
        TerritoryCode::RW => "RW"@,
        TerritoryCode::SA => "SA"@,
        TerritoryCode::SB => "SB"@,
        TerritoryCode::SC => "SC"@,
        TerritoryCode::SD => "SD"@,
        TerritoryCode::SE => "SE"@,
        TerritoryCode::SG => "SG"@,
        TerritoryCode::SH => "SH"@,
        TerritoryCode::SI => "SI"@,
        TerritoryCode::SJ => "SJ"@,
        TerritoryCode::SK => "SK"@,
        TerritoryCode::SL => "SL"@,
        TerritoryCode::SM => "SM"@,
        TerritoryCode::SN => "SN"@,
        TerritoryCode::SO => "SO"@,
        TerritoryCode::SR => "SR"@,
        TerritoryCode::SS => "SS"@,
        TerritoryCode::ST => "ST"@,
        TerritoryCode::SV => "SV"@,
        TerritoryCode::SX => "SX"@,
        TerritoryCode::SY => "SY"@,
        TerritoryCode::SZ => "SZ"@,
        TerritoryCode::TC => "TC"@,
        TerritoryCode::TD => "TD"@,
        TerritoryCode::TG => "TG"@,
        TerritoryCode::TH => "TH"@,
        TerritoryCode::TJ => "TJ"@,
        TerritoryCode::TK => "TK"@,
        TerritoryCode::TL => "TL"@,
        TerritoryCode::TM => "TM"@,
        TerritoryCode::TN => "TN"@,
        TerritoryCode::TO => "TO"@,
        TerritoryCode::TR => "TR"@,
        TerritoryCode::TT => "TT"@,
        TerritoryCode::TV => "TV"@,
        TerritoryCode::TW => "TW"@,
        TerritoryCode::TZ => "TZ"@,
        TerritoryCode::UA => "UA"@,
        TerritoryCode::UG => "UG"@,
        TerritoryCode::UY => "UY"@,
        TerritoryCode::UZ => "UZ"@,
        TerritoryCode::VA => "VA"@,
        TerritoryCode::VC => "VC"@,
        TerritoryCode::VE => "VE"@,
        TerritoryCode::VG => "VG"@,
        TerritoryCode::VI => "VI"@,
        TerritoryCode::VN => "VN"@,
        TerritoryCode::VU => "VU"@,
        TerritoryCode::WF => "WF"@,
        TerritoryCode::WS => "WS"@,
        TerritoryCode::XG => "XG"@,
        TerritoryCode::XN => "XN"@,
        TerritoryCode::XP => "XP"@,
        TerritoryCode::XS => "XS"@,
        TerritoryCode::XT => "XT"@,
        TerritoryCode::XV => "XV"@,
        TerritoryCode::YE => "YE"@,
        TerritoryCode::YT => "YT"@,
        TerritoryCode::ZA => "ZA"@,
        TerritoryCode::ZM => "ZM"@,
        TerritoryCode::ZW => "ZW"@,
    }
}

/// The territory whose canonical name is the two characters `c0 c1`, if
/// there is one.
pub open spec fn territory_of_chars(c0: char, c1: char) -> Option<TerritoryCode> {
    if c0 == 'U' && c1 == 'S' {
        Some(TerritoryCode::US)
    } else if c0 == 'C' && c1 == 'A' {
        Some(TerritoryCode::CA)
    } else if c0 == 'A' && c1 == 'C' {
        Some(TerritoryCode::AC)
    } else if c0 == 'A' && c1 == 'D' {
        Some(TerritoryCode::AD)
    } else if c0 == 'A' && c1 == 'E' {
        Some(TerritoryCode::AE)
    } else if c0 == 'A' && c1 == 'F' {
        Some(TerritoryCode::AF)
    } else if c0 == 'A' && c1 == 'G' {
        Some(TerritoryCode::AG)
    } else if c0 == 'A' && c1 == 'I' {
        Some(TerritoryCode::AI)
    } else if c0 == 'A' && c1 == 'L' {
        Some(TerritoryCode::AL)
    } else if c0 == 'A' && c1 == 'M' {
        Some(TerritoryCode::AM)
    } else if c0 == 'A' && c1 == 'O' {
        Some(TerritoryCode::AO)
    } else if c0 == 'A' && c1 == 'Q' {
        Some(TerritoryCode::AQ)
    } else if c0 == 'A' && c1 == 'R' {
        Some(TerritoryCode::AR)
    } else if c0 == 'A' && c1 == 'S' {
        Some(TerritoryCode::AS)
    } else if c0 == 'A' && c1 == 'T' {
        Some(TerritoryCode::AT)
    } else if c0 == 'A' && c1 == 'U' {
        Some(TerritoryCode::AU)
    } else if c0 == 'A' && c1 == 'W' {
        Some(TerritoryCode::AW)
    } else if c0 == 'A' && c1 == 'X' {
        Some(TerritoryCode::AX)
    } else if c0 == 'A' && c1 == 'Z' {
        Some(TerritoryCode::AZ)
    } else if c0 == 'B' && c1 == 'A' {
        Some(TerritoryCode::BA)
    } else if c0 == 'B' && c1 == 'B' {
        Some(TerritoryCode::BB)
    } else if c0 == 'B' && c1 == 'D' {
        Some(TerritoryCode::BD)
    } else if c0 == 'B' && c1 == 'E' {
        Some(TerritoryCode::BE)
    } else if c0 == 'B' && c1 == 'F' {
        Some(TerritoryCode::BF)
    } else if c0 == 'B' && c1 == 'G' {
        Some(TerritoryCode::BG)
    } else if c0 == 'B' && c1 == 'H' {
        Some(TerritoryCode::BH)
    } else if c0 == 'B' && c1 == 'I' {
        Some(TerritoryCode::BI)
    } else if c0 == 'B' && c1 == 'J' {
        Some(TerritoryCode::BJ)
    } else if c0 == 'B' && c1 == 'M' {
        Some(TerritoryCode::BM)
    } else if c0 == 'B' && c1 == 'N' {
        Some(TerritoryCode::BN)
    } else if c0 == 'B' && c1 == 'O' {
        Some(TerritoryCode::BO)
    } else if c0 == 'B' && c1 == 'Q' {
        Some(TerritoryCode::BQ)
    } else if c0 == 'B' && c1 == 'R' {
        Some(TerritoryCode::BR)
    } else if c0 == 'B' && c1 == 'S' {
        Some(TerritoryCode::BS)
    } else if c0 == 'B' && c1 == 'T' {
        Some(TerritoryCode::BT)
    } else if c0 == 'B' && c1 == 'W' {
        Some(TerritoryCode::BW)
    } else if c0 == 'B' && c1 == 'Y' {
        Some(TerritoryCode::BY)
    } else if c0 == 'B' && c1 == 'Z' {
        Some(TerritoryCode::BZ)
    } else if c0 == 'C' && c1 == 'C' {
        Some(TerritoryCode::CC)
    } else if c0 == 'C' && c1 == 'D' {
        Some(TerritoryCode::CD)
    } else if c0 == 'C' && c1 == 'F' {
        Some(TerritoryCode::CF)
    } else if c0 == 'C' && c1 == 'G' {
        Some(TerritoryCode::CG)
    } else if c0 == 'C' && c1 == 'H' {
        Some(TerritoryCode::CH)
    } else if c0 == 'C' && c1 == 'I' {
        Some(TerritoryCode::CI)
    } else if c0 == 'C' && c1 == 'K' {
        Some(TerritoryCode::CK)
    } else if c0 == 'C' && c1 == 'L' {
        Some(TerritoryCode::CL)
    } else if c0 == 'C' && c1 == 'M' {
        Some(TerritoryCode::CM)
    } else if c0 == 'C' && c1 == 'N' {
        Some(TerritoryCode::CN)
    } else if c0 == 'C' && c1 == 'O' {
        Some(TerritoryCode::CO)
    } else if c0 == 'C' && c1 == 'R' {
        Some(TerritoryCode::CR)
    } else if c0 == 'C' && c1 == 'U' {
        Some(TerritoryCode::CU)
    } else if c0 == 'C' && c1 == 'V' {
        Some(TerritoryCode::CV)
    } else if c0 == 'C' && c1 == 'W' {
        Some(TerritoryCode::CW)
    } else if c0 == 'C' && c1 == 'X' {
        Some(TerritoryCode::CX)
    } else if c0 == 'C' && c1 == 'Y' {
        Some(TerritoryCode::CY)
    } else if c0 == 'C' && c1 == 'Z' {
        Some(TerritoryCode::CZ)
    } else if c0 == 'D' && c1 == 'E' {
        Some(TerritoryCode::DE)
    } else if c0 == 'D' && c1 == 'J' {
        Some(TerritoryCode::DJ)
    } else if c0 == 'D' && c1 == 'K' {
        Some(TerritoryCode::DK)
    } else if c0 == 'D' && c1 == 'M' {
        Some(TerritoryCode::DM)
    } else if c0 == 'D' && c1 == 'O' {
        Some(TerritoryCode::DO)
    } else if c0 == 'D' && c1 == 'Z' {
        Some(TerritoryCode::DZ)
    } else if c0 == 'E' && c1 == 'C' {
        Some(TerritoryCode::EC)
    } else if c0 == 'E' && c1 == 'E' {
        Some(TerritoryCode::EE)
    } else if c0 == 'E' && c1 == 'G' {
        Some(TerritoryCode::EG)
    } else if c0 == 'E' && c1 == 'R' {
        Some(TerritoryCode::ER)
    } else if c0 == 'E' && c1 == 'S' {
        Some(TerritoryCode::ES)
    } else if c0 == 'E' && c1 == 'T' {
        Some(TerritoryCode::ET)
    } else if c0 == 'F' && c1 == 'I' {
        Some(TerritoryCode::FI)
    } else if c0 == 'F' && c1 == 'J' {
        Some(TerritoryCode::FJ)
    } else if c0 == 'F' && c1 == 'K' {
        Some(TerritoryCode::FK)
    } else if c0 == 'F' && c1 == 'M' {
        Some(TerritoryCode::FM)
    } else if c0 == 'F' && c1 == 'O' {
        Some(TerritoryCode::FO)
    } else if c0 == 'F' && c1 == 'R' {
        Some(TerritoryCode::FR)
    } else if c0 == 'G' && c1 == 'A' {
        Some(TerritoryCode::GA)
    } else if c0 == 'G' && c1 == 'B' {
        Some(TerritoryCode::GB)
    } else if c0 == 'G' && c1 == 'D' {
        Some(TerritoryCode::GD)
    } else if c0 == 'G' && c1 == 'E' {
        Some(TerritoryCode::GE)
    } else if c0 == 'G' && c1 == 'F' {
        Some(TerritoryCode::GF)
    } else if c0 == 'G' && c1 == 'G' {
        Some(TerritoryCode::GG)
    } else if c0 == 'G' && c1 == 'H' {
        Some(TerritoryCode::GH)
    } else if c0 == 'G' && c1 == 'I' {
        Some(TerritoryCode::GI)
    } else if c0 == 'G' && c1 == 'L' {
        Some(TerritoryCode::GL)
    } else if c0 == 'G' && c1 == 'M' {
        Some(TerritoryCode::GM)
    } else if c0 == 'G' && c1 == 'N' {
        Some(TerritoryCode::GN)
    } else if c0 == 'G' && c1 == 'P' {
        Some(TerritoryCode::GP)
    } else if c0 == 'G' && c1 == 'Q' {
        Some(TerritoryCode::GQ)
    } else if c0 == 'G' && c1 == 'R' {
        Some(TerritoryCode::GR)
    } else if c0 == 'G' && c1 == 'T' {
        Some(TerritoryCode::GT)
    } else if c0 == 'G' && c1 == 'U' {
        Some(TerritoryCode::GU)
    } else if c0 == 'G' && c1 == 'W' {
        Some(TerritoryCode::GW)
    } else if c0 == 'G' && c1 == 'Y' {
        Some(TerritoryCode::GY)
    } else if c0 == 'H' && c1 == 'K' {
        Some(TerritoryCode::HK)
    } else if c0 == 'H' && c1 == 'N' {
        Some(TerritoryCode::HN)
    } else if c0 == 'H' && c1 == 'R' {
        Some(TerritoryCode::HR)
    } else if c0 == 'H' && c1 == 'T' {
        Some(TerritoryCode::HT)
    } else if c0 == 'H' && c1 == 'U' {
        Some(TerritoryCode::HU)
    } else if c0 == 'I' && c1 == 'D' {
        Some(TerritoryCode::ID)
    } else if c0 == 'I' && c1 == 'E' {
        Some(TerritoryCode::IE)
    } else if c0 == 'I' && c1 == 'L' {
        Some(TerritoryCode::IL)
    } else if c0 == 'I' && c1 == 'M' {
        Some(TerritoryCode::IM)
    } else if c0 == 'I' && c1 == 'N' {
        Some(TerritoryCode::IN)
    } else if c0 == 'I' && c1 == 'O' {
        Some(TerritoryCode::IO)
    } else if c0 == 'I' && c1 == 'Q' {
        Some(TerritoryCode::IQ)
    } else if c0 == 'I' && c1 == 'R' {
        Some(TerritoryCode::IR)
    } else if c0 == 'I' && c1 == 'S' {
        Some(TerritoryCode::IS)
    } else if c0 == 'I' && c1 == 'T' {
        Some(TerritoryCode::IT)
    } else if c0 == 'J' && c1 == 'E' {
        Some(TerritoryCode::JE)
    } else if c0 == 'J' && c1 == 'M' {
        Some(TerritoryCode::JM)
    } else if c0 == 'J' && c1 == 'O' {
        Some(TerritoryCode::JO)
    } else if c0 == 'J' && c1 == 'P' {
        Some(TerritoryCode::JP)
    } else if c0 == 'K' && c1 == 'E' {
        Some(TerritoryCode::KE)
    } else if c0 == 'K' && c1 == 'G' {
        Some(TerritoryCode::KG)
    } else if c0 == 'K' && c1 == 'H' {
        Some(TerritoryCode::KH)
    } else if c0 == 'K' && c1 == 'I' {
        Some(TerritoryCode::KI)
    } else if c0 == 'K' && c1 == 'M' {
        Some(TerritoryCode::KM)
    } else if c0 == 'K' && c1 == 'N' {
        Some(TerritoryCode::KN)
    } else if c0 == 'K' && c1 == 'P' {
        Some(TerritoryCode::KP)
    } else if c0 == 'K' && c1 == 'R' {
        Some(TerritoryCode::KR)
    } else if c0 == 'K' && c1 == 'W' {
        Some(TerritoryCode::KW)
    } else if c0 == 'K' && c1 == 'Y' {
        Some(TerritoryCode::KY)
    } else if c0 == 'K' && c1 == 'Z' {
        Some(TerritoryCode::KZ)
    } else if c0 == 'L' && c1 == 'A' {
        Some(TerritoryCode::LA)
    } else if c0 == 'L' && c1 == 'B' {
        Some(TerritoryCode::LB)
    } else if c0 == 'L' && c1 == 'C' {
        Some(TerritoryCode::LC)
    } else if c0 == 'L' && c1 == 'I' {
        Some(TerritoryCode::LI)
    } else if c0 == 'L' && c1 == 'K' {
        Some(TerritoryCode::LK)
    } else if c0 == 'L' && c1 == 'R' {
        Some(TerritoryCode::LR)
    } else if c0 == 'L' && c1 == 'S' {
        Some(TerritoryCode::LS)
    } else if c0 == 'L' && c1 == 'T' {
        Some(TerritoryCode::LT)
    } else if c0 == 'L' && c1 == 'U' {
        Some(TerritoryCode::LU)
    } else if c0 == 'L' && c1 == 'V' {
        Some(TerritoryCode::LV)
    } else if c0 == 'L' && c1 == 'Y' {
        Some(TerritoryCode::LY)
    } else if c0 == 'M' && c1 == 'A' {
        Some(TerritoryCode::MA)
    } else if c0 == 'M' && c1 == 'C' {
        Some(TerritoryCode::MC)
    } else if c0 == 'M' && c1 == 'D' {
        Some(TerritoryCode::MD)
    } else if c0 == 'M' && c1 == 'E' {
        Some(TerritoryCode::ME)
    } else if c0 == 'M' && c1 == 'G' {
        Some(TerritoryCode::MG)
    } else if c0 == 'M' && c1 == 'H' {
        Some(TerritoryCode::MH)
    } else if c0 == 'M' && c1 == 'K' {
        Some(TerritoryCode::MK)
    } else if c0 == 'M' && c1 == 'L' {
        Some(TerritoryCode::ML)
    } else if c0 == 'M' && c1 == 'M' {
        Some(TerritoryCode::MM)
    } else if c0 == 'M' && c1 == 'N' {
        Some(TerritoryCode::MN)
    } else if c0 == 'M' && c1 == 'O' {
        Some(TerritoryCode::MO)
    } else if c0 == 'M' && c1 == 'P' {
        Some(TerritoryCode::MP)
    } else if c0 == 'M' && c1 == 'Q' {
        Some(TerritoryCode::MQ)
    } else if c0 == 'M' && c1 == 'R' {
        Some(TerritoryCode::MR)
    } else if c0 == 'M' && c1 == 'S' {
        Some(TerritoryCode::MS)
    } else if c0 == 'M' && c1 == 'T' {
        Some(TerritoryCode::MT)
    } else if c0 == 'M' && c1 == 'U' {
        Some(TerritoryCode::MU)
    } else if c0 == 'M' && c1 == 'V' {
        Some(TerritoryCode::MV)
    } else if c0 == 'M' && c1 == 'W' {
        Some(TerritoryCode::MW)
    } else if c0 == 'M' && c1 == 'X' {
        Some(TerritoryCode::MX)
    } else if c0 == 'M' && c1 == 'Y' {
        Some(TerritoryCode::MY)
    } else if c0 == 'M' && c1 == 'Z' {
        Some(TerritoryCode::MZ)
    } else if c0 == 'N' && c1 == 'A' {
        Some(TerritoryCode::NA)
    } else if c0 == 'N' && c1 == 'C' {
        Some(TerritoryCode::NC)
    } else if c0 == 'N' && c1 == 'E' {
        Some(TerritoryCode::NE)
    } else if c0 == 'N' && c1 == 'F' {
        Some(TerritoryCode::NF)
    } else if c0 == 'N' && c1 == 'G' {
        Some(TerritoryCode::NG)
    } else if c0 == 'N' && c1 == 'I' {
        Some(TerritoryCode::NI)
    } else if c0 == 'N' && c1 == 'L' {
        Some(TerritoryCode::NL)
    } else if c0 == 'N' && c1 == 'O' {
        Some(TerritoryCode::NO)
    } else if c0 == 'N' && c1 == 'P' {
        Some(TerritoryCode::NP)
    } else if c0 == 'N' && c1 == 'R' {
        Some(TerritoryCode::NR)
    } else if c0 == 'N' && c1 == 'U' {
        Some(TerritoryCode::NU)
    } else if c0 == 'N' && c1 == 'Z' {
        Some(TerritoryCode::NZ)
    } else if c0 == 'O' && c1 == 'M' {
        Some(TerritoryCode::OM)
    } else if c0 == 'P' && c1 == 'A' {
        Some(TerritoryCode::PA)
    } else if c0 == 'P' && c1 == 'E' {
        Some(TerritoryCode::PE)
    } else if c0 == 'P' && c1 == 'F' {
        Some(TerritoryCode::PF)
    } else if c0 == 'P' && c1 == 'G' {
        Some(TerritoryCode::PG)
    } else if c0 == 'P' && c1 == 'H' {
        Some(TerritoryCode::PH)
    } else if c0 == 'P' && c1 == 'K' {
        Some(TerritoryCode::PK)
    } else if c0 == 'P' && c1 == 'L' {
        Some(TerritoryCode::PL)
    } else if c0 == 'P' && c1 == 'M' {
        Some(TerritoryCode::PM)
    } else if c0 == 'P' && c1 == 'R' {
        Some(TerritoryCode::PR)
    } else if c0 == 'P' && c1 == 'S' {
        Some(TerritoryCode::PS)
    } else if c0 == 'P' && c1 == 'T' {
        Some(TerritoryCode::PT)
    } else if c0 == 'P' && c1 == 'W' {
        Some(TerritoryCode::PW)
    } else if c0 == 'P' && c1 == 'Y' {
        Some(TerritoryCode::PY)
    } else if c0 == 'Q' && c1 == 'A' {
        Some(TerritoryCode::QA)
    } else if c0 == 'R' && c1 == 'E' {
        Some(TerritoryCode::RE)
    } else if c0 == 'R' && c1 == 'O' {
        Some(TerritoryCode::RO)
    } else if c0 == 'R' && c1 == 'S' {
        Some(TerritoryCode::RS)
    } else if c0 == 'R' && c1 == 'U' {
        Some(TerritoryCode::RU)
    } else if c0 == 'R' && c1 == 'W' {
        Some(TerritoryCode::RW)
    } else if c0 == 'S' && c1 == 'A' {
        Some(TerritoryCode::SA)
    } else if c0 == 'S' && c1 == 'B' {
        Some(TerritoryCode::SB)
    } else if c0 == 'S' && c1 == 'C' {
        Some(TerritoryCode::SC)
    } else if c0 == 'S' && c1 == 'D' {
        Some(TerritoryCode::SD)
    } else if c0 == 'S' && c1 == 'E' {
        Some(TerritoryCode::SE)
    } else if c0 == 'S' && c1 == 'G' {
        Some(TerritoryCode::SG)
    } else if c0 == 'S' && c1 == 'H' {
        Some(TerritoryCode::SH)
    } else if c0 == 'S' && c1 == 'I' {
        Some(TerritoryCode::SI)
    } else if c0 == 'S' && c1 == 'J' {
        Some(TerritoryCode::SJ)
    } else if c0 == 'S' && c1 == 'K' {
        Some(TerritoryCode::SK)
    } else if c0 == 'S' && c1 == 'L' {
        Some(TerritoryCode::SL)
    } else if c0 == 'S' && c1 == 'M' {
        Some(TerritoryCode::SM)
    } else if c0 == 'S' && c1 == 'N' {
        Some(TerritoryCode::SN)
    } else if c0 == 'S' && c1 == 'O' {
        Some(TerritoryCode::SO)
    } else if c0 == 'S' && c1 == 'R' {
        Some(TerritoryCode::SR)
    } else if c0 == 'S' && c1 == 'S' {
        Some(TerritoryCode::SS)
    } else if c0 == 'S' && c1 == 'T' {
        Some(TerritoryCode::ST)
    } else if c0 == 'S' && c1 == 'V' {
        Some(TerritoryCode::SV)
    } else if c0 == 'S' && c1 == 'X' {
        Some(TerritoryCode::SX)
    } else if c0 == 'S' && c1 == 'Y' {
        Some(TerritoryCode::SY)
    } else if c0 == 'S' && c1 == 'Z' {
        Some(TerritoryCode::SZ)
    } else if c0 == 'T' && c1 == 'C' {
        Some(TerritoryCode::TC)
    } else if c0 == 'T' && c1 == 'D' {
        Some(TerritoryCode::TD)
    } else if c0 == 'T' && c1 == 'G' {
        Some(TerritoryCode::TG)
    } else if c0 == 'T' && c1 == 'H' {
        Some(TerritoryCode::TH)
    } else if c0 == 'T' && c1 == 'J' {
        Some(TerritoryCode::TJ)
    } else if c0 == 'T' && c1 == 'K' {
        Some(TerritoryCode::TK)
    } else if c0 == 'T' && c1 == 'L' {
        Some(TerritoryCode::TL)
    } else if c0 == 'T' && c1 == 'M' {
        Some(TerritoryCode::TM)
    } else if c0 == 'T' && c1 == 'N' {
        Some(TerritoryCode::TN)
    } else if c0 == 'T' && c1 == 'O' {
        Some(TerritoryCode::TO)
    } else if c0 == 'T' && c1 == 'R' {
        Some(TerritoryCode::TR)
    } else if c0 == 'T' && c1 == 'T' {
        Some(TerritoryCode::TT)
    } else if c0 == 'T' && c1 == 'V' {
        Some(TerritoryCode::TV)
    } else if c0 == 'T' && c1 == 'W' {
        Some(TerritoryCode::TW)
    } else if c0 == 'T' && c1 == 'Z' {
        Some(TerritoryCode::TZ)
    } else if c0 == 'U' && c1 == 'A' {
        Some(TerritoryCode::UA)
    } else if c0 == 'U' && c1 == 'G' {
        Some(TerritoryCode::UG)
    } else if c0 == 'U' && c1 == 'Y' {
        Some(TerritoryCode::UY)
    } else if c0 == 'U' && c1 == 'Z' {
        Some(TerritoryCode::UZ)
    } else if c0 == 'V' && c1 == 'A' {
        Some(TerritoryCode::VA)
    } else if c0 == 'V' && c1 == 'C' {
        Some(TerritoryCode::VC)
    } else if c0 == 'V' && c1 == 'E' {
        Some(TerritoryCode::VE)
    } else if c0 == 'V' && c1 == 'G' {
        Some(TerritoryCode::VG)
    } else if c0 == 'V' && c1 == 'I' {
        Some(TerritoryCode::VI)
    } else if c0 == 'V' && c1 == 'N' {
        Some(TerritoryCode::VN)
    } else if c0 == 'V' && c1 == 'U' {
        Some(TerritoryCode::VU)
    } else if c0 == 'W' && c1 == 'F' {
        Some(TerritoryCode::WF)
    } else if c0 == 'W' && c1 == 'S' {
        Some(TerritoryCode::WS)
    } else if c0 == 'X' && c1 == 'G' {
        Some(TerritoryCode::XG)
    } else if c0 == 'X' && c1 == 'N' {
        Some(TerritoryCode::XN)
    } else if c0 == 'X' && c1 == 'P' {
        Some(TerritoryCode::XP)
    } else if c0 == 'X' && c1 == 'S' {
        Some(TerritoryCode::XS)
    } else if c0 == 'X' && c1 == 'T' {
        Some(TerritoryCode::XT)
    } else if c0 == 'X' && c1 == 'V' {
        Some(TerritoryCode::XV)
    } else if c0 == 'Y' && c1 == 'E' {
        Some(TerritoryCode::YE)
    } else if c0 == 'Y' && c1 == 'T' {
        Some(TerritoryCode::YT)
    } else if c0 == 'Z' && c1 == 'A' {
        Some(TerritoryCode::ZA)
    } else if c0 == 'Z' && c1 == 'M' {
        Some(TerritoryCode::ZM)
    } else if c0 == 'Z' && c1 == 'W' {
        Some(TerritoryCode::ZW)
    } else {
        None
    }
}

/// What a name lookup returns: an exact, case-sensitive match against the
/// uppercase canonical names only; any other string has no match.
pub open spec fn from_name_spec(s: Seq<char>) -> Option<TerritoryCode> {
    if s.len() == 2 {
        territory_of_chars(s[0], s[1])
    } else {
        None
    }
}

impl TerritoryCode {
    /// Gets the name of this territory code. The value is always uppercase.
    pub fn name(&self) -> (r: &'static str)
        ensures
            r@ == name_spec(*self),
    {
        match *self {
            Self::US => "US",
            Self::CA => "CA",
            Self::AC => "AC",
            Self::AD => "AD",
            Self::AE => "AE",
            Self::AF => "AF",
            Self::AG => "AG",
            Self::AI => "AI",
            Self::AL => "AL",
            Self::AM => "AM",
            Self::AO => "AO",
            Self::AQ => "AQ",
            Self::AR => "AR",
            Self::AS => "AS",
            Self::AT => "AT",
            Self::AU => "AU",
            Self::AW => "AW",
            Self::AX => "AX",
            Self::AZ => "AZ",
            Self::BA => "BA",
            Self::BB => "BB",
            Self::BD => "BD",
            Self::BE => "BE",
            Self::BF => "BF",
            Self::BG => "BG",
            Self::BH => "BH",
            Self::BI => "BI",
            Self::BJ => "BJ",
            Self::BM => "BM",
            Self::BN => "BN",
            Self::BO => "BO",
            Self::BQ => "BQ",
            Self::BR => "BR",
            Self::BS => "BS",
            Self::BT => "BT",
            Self::BW => "BW",
            Self::BY => "BY",
            Self::BZ => "BZ",
            Self::CC => "CC",
            Self::CD => "CD",
            Self::CF => "CF",
            Self::CG => "CG",
            Self::CH => "CH",
            Self::CI => "CI",
            Self::CK => "CK",
            Self::CL => "CL",
            Self::CM => "CM",
            Self::CN => "CN",
            Self::CO => "CO",
            Self::CR => "CR",
            Self::CU => "CU",
            Self::CV => "CV",
            Self::CW => "CW",
            Self::CX => "CX",
            Self::CY => "CY",
            Self::CZ => "CZ",
            Self::DE => "DE",
            Self::DJ => "DJ",
            Self::DK => "DK",
            Self::DM => "DM",
            Self::DO => "DO",
            Self::DZ => "DZ",
            Self::EC => "EC",
            Self::EE => "EE",
            Self::EG => "EG",
            Self::ER => "ER",
            Self::ES => "ES",
            Self::ET => "ET",
            Self::FI => "FI",
            Self::FJ => "FJ",
            Self::FK => "FK",
            Self::FM => "FM",
            Self::FO => "FO",
            Self::FR => "FR",
            Self::GA => "GA",
            Self::GB => "GB",
            Self::GD => "GD",
            Self::GE => "GE",
            Self::GF => "GF",
            Self::GG => "GG",
            Self::GH => "GH",
            Self::GI => "GI",
            Self::GL => "GL",
            Self::GM => "GM",
            Self::GN => "GN",
            Self::GP => "GP",
            Self::GQ => "GQ",
            Self::GR => "GR",
            Self::GT => "GT",
            Self::GU => "GU",
            Self::GW => "GW",
            Self::GY => "GY",
            Self::HK => "HK",
            Self::HN => "HN",
            Self::HR => "HR",
            Self::HT => "HT",
            Self::HU => "HU",
            Self::ID => "ID",
            Self::IE => "IE",
            Self::IL => "IL",
            Self::IM => "IM",
            Self::IN => "IN",
            Self::IO => "IO",
            Self::IQ => "IQ",
            Self::IR => "IR",
            Self::IS => "IS",
            Self::IT => "IT",
            Self::JE => "JE",
            Self::JM => "JM",
            Self::JO => "JO",
            Self::JP => "JP",
            Self::KE => "KE",
            Self::KG => "KG",
            Self::KH => "KH",
            Self::KI => "KI",
            Self::KM => "KM",
            Self::KN => "KN",
            Self::KP => "KP",
            Self::KR => "KR",
            Self::KW => "KW",
            Self::KY => "KY",
            Self::KZ => "KZ",
            Self::LA => "LA",
            Self::LB => "LB",
            Self::LC => "LC",
            Self::LI => "LI",
            Self::LK => "LK",
            Self::LR => "LR",
            Self::LS => "LS",
            Self::LT => "LT",
            Self::LU => "LU",
            Self::LV => "LV",
            Self::LY => "LY",
            Self::MA => "MA",
            Self::MC => "MC",
            Self::MD => "MD",
            Self::ME => "ME",
            Self::MG => "MG",
            Self::MH => "MH",
            Self::MK => "MK",
            Self::ML => "ML",
            Self::MM => "MM",
            Self::MN => "MN",
            Self::MO => "MO",
            Self::MP => "MP",
            Self::MQ => "MQ",
            Self::MR => "MR",
            Self::MS => "MS",
            Self::MT => "MT",
            Self::MU => "MU",
            Self::MV => "MV",
            Self::MW => "MW",
            Self::MX => "MX",
            Self::MY => "MY",
            Self::MZ => "MZ",
            Self::NA => "NA",
            Self::NC => "NC",
            Self::NE => "NE",
            Self::NF => "NF",
            Self::NG => "NG",
            Self::NI => "NI",
            Self::NL => "NL",
            Self::NO => "NO",
            Self::NP => "NP",
            Self::NR => "NR",
            Self::NU => "NU",
            Self::NZ => "NZ",
            Self::OM => "OM",
            Self::PA => "PA",
            Self::PE => "PE",
            Self::PF => "PF",
            Self::PG => "PG",
            Self::PH => "PH",
            Self::PK => "PK",
            Self::PL => "PL",
            Self::PM => "PM",
            Self::PR => "PR",
            Self::PS => "PS",
            Self::PT => "PT",
            Self::PW => "PW",
            Self::PY => "PY",
            Self::QA => "QA",
            Self::RE => "RE",
            Self::RO => "RO",
            Self::RS => "RS",
            Self::RU => "RU",
            Self::RW => "RW",
            Self::SA => "SA",
            Self::SB => "SB",
            Self::SC => "SC",
            Self::SD => "SD",
            Self::SE => "SE",
            Self::SG => "SG",
            Self::SH => "SH",
            Self::SI => "SI",
            Self::SJ => "SJ",
            Self::SK => "SK",
            Self::SL => "SL",
            Self::SM => "SM",
            Self::SN => "SN",
            Self::SO => "SO",
            Self::SR => "SR",
            Self::SS => "SS",
            Self::ST => "ST",
            Self::SV => "SV",
            Self::SX => "SX",
            Self::SY => "SY",
            Self::SZ => "SZ",
            Self::TC => "TC",
            Self::TD => "TD",
            Self::TG => "TG",
            Self::TH => "TH",
            Self::TJ => "TJ",
            Self::TK => "TK",
            Self::TL => "TL",
            Self::TM => "TM",
            Self::TN => "TN",
            Self::TO => "TO",
            Self::TR => "TR",
            Self::TT => "TT",
            Self::TV => "TV",
            Self::TW => "TW",
            Self::TZ => "TZ",
            Self::UA => "UA",
            Self::UG => "UG",
            Self::UY => "UY",
            Self::UZ => "UZ",
            Self::VA => "VA",
            Self::VC => "VC",
            Self::VE => "VE",
            Self::VG => "VG",
            Self::VI => "VI",
            Self::VN => "VN",
            Self::VU => "VU",
            Self::WF => "WF",
            Self::WS => "WS",
            Self::XG => "XG",
            Self::XN => "XN",
            Self::XP => "XP",
            Self::XS => "XS",
            Self::XT => "XT",
            Self::XV => "XV",
            Self::YE => "YE",
            Self::YT => "YT",
            Self::ZA => "ZA",
            Self::ZM => "ZM",
            Self::ZW => "ZW",
        }
    }

    /// Yields a territory code by name. The match is exact and
    /// case-sensitive: lowercase variants are not normalized, and any string
    /// outside the closed set of canonical names yields no match.
    pub fn from_name(name: &str) -> (r: Option<Self>)
        ensures
            r == from_name_spec(name@),
    {
        if name.unicode_len() != 2 {
            return None;
        }
        let c0 = name.get_char(0);
        let c1 = name.get_char(1);
        match (c0, c1) {
            ('U', 'S') => Some(Self::US),
            ('C', 'A') => Some(Self::CA),
            ('A', 'C') => Some(Self::AC),
            ('A', 'D') => Some(Self::AD),
            ('A', 'E') => Some(Self::AE),
            ('A', 'F') => Some(Self::AF),
            ('A', 'G') => Some(Self::AG),
            ('A', 'I') => Some(Self::AI),
            ('A', 'L') => Some(Self::AL),
            ('A', 'M') => Some(Self::AM),
            ('A', 'O') => Some(Self::AO),
            ('A', 'Q') => Some(Self::AQ),
            ('A', 'R') => Some(Self::AR),
            ('A', 'S') => Some(Self::AS),
            ('A', 'T') => Some(Self::AT),
            ('A', 'U') => Some(Self::AU),
            ('A', 'W') => Some(Self::AW),
            ('A', 'X') => Some(Self::AX),
            ('A', 'Z') => Some(Self::AZ),
            ('B', 'A') => Some(Self::BA),
            ('B', 'B') => Some(Self::BB),
            ('B', 'D') => Some(Self::BD),
            ('B', 'E') => Some(Self::BE),
            ('B', 'F') => Some(Self::BF),
            ('B', 'G') => Some(Self::BG),
            ('B', 'H') => Some(Self::BH),
            ('B', 'I') => Some(Self::BI),
            ('B', 'J') => Some(Self::BJ),
            ('B', 'M') => Some(Self::BM),
            ('B', 'N') => Some(Self::BN),
            ('B', 'O') => Some(Self::BO),
            ('B', 'Q') => Some(Self::BQ),
            ('B', 'R') => Some(Self::BR),
            ('B', 'S') => Some(Self::BS),
            ('B', 'T') => Some(Self::BT),
            ('B', 'W') => Some(Self::BW),
            ('B', 'Y') => Some(Self::BY),
            ('B', 'Z') => Some(Self::BZ),
            ('C', 'C') => Some(Self::CC),
            ('C', 'D') => Some(Self::CD),
            ('C', 'F') => Some(Self::CF),
            ('C', 'G') => Some(Self::CG),
            ('C', 'H') => Some(Self::CH),
            ('C', 'I') => Some(Self::CI),
            ('C', 'K') => Some(Self::CK),
            ('C', 'L') => Some(Self::CL),
            ('C', 'M') => Some(Self::CM),
            ('C', 'N') => Some(Self::CN),
            ('C', 'O') => Some(Self::CO),
            ('C', 'R') => Some(Self::CR),
            ('C', 'U') => Some(Self::CU),
            ('C', 'V') => Some(Self::CV),
            ('C', 'W') => Some(Self::CW),
            ('C', 'X') => Some(Self::CX),
            ('C', 'Y') => Some(Self::CY),
            ('C', 'Z') => Some(Self::CZ),
            ('D', 'E') => Some(Self::DE),
            ('D', 'J') => Some(Self::DJ),
            ('D', 'K') => Some(Self::DK),
            ('D', 'M') => Some(Self::DM),
            ('D', 'O') => Some(Self::DO),
            ('D', 'Z') => Some(Self::DZ),
            ('E', 'C') => Some(Self::EC),
            ('E', 'E') => Some(Self::EE),
            ('E', 'G') => Some(Self::EG),
            ('E', 'R') => Some(Self::ER),
            ('E', 'S') => Some(Self::ES),
            ('E', 'T') => Some(Self::ET),
            ('F', 'I') => Some(Self::FI),
            ('F', 'J') => Some(Self::FJ),
            ('F', 'K') => Some(Self::FK),
            ('F', 'M') => Some(Self::FM),
            ('F', 'O') => Some(Self::FO),
            ('F', 'R') => Some(Self::FR),
            ('G', 'A') => Some(Self::GA),
            ('G', 'B') => Some(Self::GB),
            ('G', 'D') => Some(Self::GD),
            ('G', 'E') => Some(Self::GE),
            ('G', 'F') => Some(Self::GF),
            ('G', 'G') => Some(Self::GG),
            ('G', 'H') => Some(Self::GH),
            ('G', 'I') => Some(Self::GI),
            ('G', 'L') => Some(Self::GL),
            ('G', 'M') => Some(Self::GM),
            ('G', 'N') => Some(Self::GN),
            ('G', 'P') => Some(Self::GP),
            ('G', 'Q') => Some(Self::GQ),
            ('G', 'R') => Some(Self::GR),
            ('G', 'T') => Some(Self::GT),
            ('G', 'U') => Some(Self::GU),
            ('G', 'W') => Some(Self::GW),
            ('G', 'Y') => Some(Self::GY),
            ('H', 'K') => Some(Self::HK),
            ('H', 'N') => Some(Self::HN),
            ('H', 'R') => Some(Self::HR),
            ('H', 'T') => Some(Self::HT),
            ('H', 'U') => Some(Self::HU),
            ('I', 'D') => Some(Self::ID),
            ('I', 'E') => Some(Self::IE),
            ('I', 'L') => Some(Self::IL),
            ('I', 'M') => Some(Self::IM),
            ('I', 'N') => Some(Self::IN),
            ('I', 'O') => Some(Self::IO),
            ('I', 'Q') => Some(Self::IQ),
            ('I', 'R') => Some(Self::IR),
            ('I', 'S') => Some(Self::IS),
            ('I', 'T') => Some(Self::IT),
            ('J', 'E') => Some(Self::JE),
            ('J', 'M') => Some(Self::JM),
            ('J', 'O') => Some(Self::JO),
            ('J', 'P') => Some(Self::JP),
            ('K', 'E') => Some(Self::KE),
            ('K', 'G') => Some(Self::KG),
            ('K', 'H') => Some(Self::KH),
            ('K', 'I') => Some(Self::KI),
            ('K', 'M') => Some(Self::KM),
            ('K', 'N') => Some(Self::KN),
            ('K', 'P') => Some(Self::KP),
            ('K', 'R') => Some(Self::KR),
            ('K', 'W') => Some(Self::KW),
            ('K', 'Y') => Some(Self::KY),
            ('K', 'Z') => Some(Self::KZ),
            ('L', 'A') => Some(Self::LA),
            ('L', 'B') => Some(Self::LB),
            ('L', 'C') => Some(Self::LC),
            ('L', 'I') => Some(Self::LI),
            ('L', 'K') => Some(Self::LK),
            ('L', 'R') => Some(Self::LR),
            ('L', 'S') => Some(Self::LS),
            ('L', 'T') => Some(Self::LT),
            ('L', 'U') => Some(Self::LU),
            ('L', 'V') => Some(Self::LV),
            ('L', 'Y') => Some(Self::LY),
            ('M', 'A') => Some(Self::MA),
            ('M', 'C') => Some(Self::MC),
            ('M', 'D') => Some(Self::MD),
            ('M', 'E') => Some(Self::ME),
            ('M', 'G') => Some(Self::MG),
            ('M', 'H') => Some(Self::MH),
            ('M', 'K') => Some(Self::MK),
            ('M', 'L') => Some(Self::ML),
            ('M', 'M') => Some(Self::MM),
            ('M', 'N') => Some(Self::MN),
            ('M', 'O') => Some(Self::MO),
            ('M', 'P') => Some(Self::MP),
            ('M', 'Q') => Some(Self::MQ),
            ('M', 'R') => Some(Self::MR),
            ('M', 'S') => Some(Self::MS),
            ('M', 'T') => Some(Self::MT),
            ('M', 'U') => Some(Self::MU),
            ('M', 'V') => Some(Self::MV),
            ('M', 'W') => Some(Self::MW),
            ('M', 'X') => Some(Self::MX),
            ('M', 'Y') => Some(Self::MY),
            ('M', 'Z') => Some(Self::MZ),
            ('N', 'A') => Some(Self::NA),
            ('N', 'C') => Some(Self::NC),
            ('N', 'E') => Some(Self::NE),
            ('N', 'F') => Some(Self::NF),
            ('N', 'G') => Some(Self::NG),
            ('N', 'I') => Some(Self::NI),
            ('N', 'L') => Some(Self::NL),
            ('N', 'O') => Some(Self::NO),
            ('N', 'P') => Some(Self::NP),
            ('N', 'R') => Some(Self::NR),
            ('N', 'U') => Some(Self::NU),
            ('N', 'Z') => Some(Self::NZ),
            ('O', 'M') => Some(Self::OM),
            ('P', 'A') => Some(Self::PA),
            ('P', 'E') => Some(Self::PE),
            ('P', 'F') => Some(Self::PF),
            ('P', 'G') => Some(Self::PG),
            ('P', 'H') => Some(Self::PH),
            ('P', 'K') => Some(Self::PK),
            ('P', 'L') => Some(Self::PL),
            ('P', 'M') => Some(Self::PM),
            ('P', 'R') => Some(Self::PR),
            ('P', 'S') => Some(Self::PS),
            ('P', 'T') => Some(Self::PT),
            ('P', 'W') => Some(Self::PW),
            ('P', 'Y') => Some(Self::PY),
            ('Q', 'A') => Some(Self::QA),
            ('R', 'E') => Some(Self::RE),
            ('R', 'O') => Some(Self::RO),
            ('R', 'S') => Some(Self::RS),
            ('R', 'U') => Some(Self::RU),
            ('R', 'W') => Some(Self::RW),
            ('S', 'A') => Some(Self::SA),
            ('S', 'B') => Some(Self::SB),
            ('S', 'C') => Some(Self::SC),
            ('S', 'D') => Some(Self::SD),
            ('S', 'E') => Some(Self::SE),
            ('S', 'G') => Some(Self::SG),
            ('S', 'H') => Some(Self::SH),
            ('S', 'I') => Some(Self::SI),
            ('S', 'J') => Some(Self::SJ),
            ('S', 'K') => Some(Self::SK),
            ('S', 'L') => Some(Self::SL),
            ('S', 'M') => Some(Self::SM),
            ('S', 'N') => Some(Self::SN),
            ('S', 'O') => Some(Self::SO),
            ('S', 'R') => Some(Self::SR),
            ('S', 'S') => Some(Self::SS),
            ('S', 'T') => Some(Self::ST),
            ('S', 'V') => Some(Self::SV),
            ('S', 'X') => Some(Self::SX),
            ('S', 'Y') => Some(Self::SY),
            ('S', 'Z') => Some(Self::SZ),
            ('T', 'C') => Some(Self::TC),
            ('T', 'D') => Some(Self::TD),
            ('T', 'G') => Some(Self::TG),
            ('T', 'H') => Some(Self::TH),
            ('T', 'J') => Some(Self::TJ),
            ('T', 'K') => Some(Self::TK),
            ('T', 'L') => Some(Self::TL),
            ('T', 'M') => Some(Self::TM),
            ('T', 'N') => Some(Self::TN),
            ('T', 'O') => Some(Self::TO),
            ('T', 'R') => Some(Self::TR),
            ('T', 'T') => Some(Self::TT),
            ('T', 'V') => Some(Self::TV),
            ('T', 'W') => Some(Self::TW),
            ('T', 'Z') => Some(Self::TZ),
            ('U', 'A') => Some(Self::UA),
            ('U', 'G') => Some(Self::UG),
            ('U', 'Y') => Some(Self::UY),
            ('U', 'Z') => Some(Self::UZ),
            ('V', 'A') => Some(Self::VA),
            ('V', 'C') => Some(Self::VC),
            ('V', 'E') => Some(Self::VE),
            ('V', 'G') => Some(Self::VG),
            ('V', 'I') => Some(Self::VI),
            ('V', 'N') => Some(Self::VN),
            ('V', 'U') => Some(Self::VU),
            ('W', 'F') => Some(Self::WF),
            ('W', 'S') => Some(Self::WS),
            ('X', 'G') => Some(Self::XG),
            ('X', 'N') => Some(Self::XN),
            ('X', 'P') => Some(Self::XP),
            ('X', 'S') => Some(Self::XS),
            ('X', 'T') => Some(Self::XT),
            ('X', 'V') => Some(Self::XV),
            ('Y', 'E') => Some(Self::YE),
            ('Y', 'T') => Some(Self::YT),
            ('Z', 'A') => Some(Self::ZA),
            ('Z', 'M') => Some(Self::ZM),
            ('Z', 'W') => Some(Self::ZW),
            _ => None,
        }
    }
}

/// Every canonical name is exactly two uppercase ASCII letters.
pub proof fn lemma_name_canonical(t: TerritoryCode)
    ensures
        name_spec(t).len() == 2,
        forall|i: int|
            0 <= i < name_spec(t).len() ==> 'A' <= #[trigger] name_spec(t)[i] <= 'Z',
{
    reveal_strlit("US");
    reveal_strlit("CA");
    reveal_strlit("AC");
    reveal_strlit("AD");
    reveal_strlit("AE");
    reveal_strlit("AF");
    reveal_strlit("AG");
    reveal_strlit("AI");
    reveal_strlit("AL");
    reveal_strlit("AM");
    reveal_strlit("AO");
    reveal_strlit("AQ");
    reveal_strlit("AR");
    reveal_strlit("AS");
    reveal_strlit("AT");
    reveal_strlit("AU");
    reveal_strlit("AW");
    reveal_strlit("AX");
    reveal_strlit("AZ");
    reveal_strlit("BA");
    reveal_strlit("BB");
    reveal_strlit("BD");
    reveal_strlit("BE");
    reveal_strlit("BF");
    reveal_strlit("BG");
    reveal_strlit("BH");
    reveal_strlit("BI");
    reveal_strlit("BJ");
    reveal_strlit("BM");
    reveal_strlit("BN");
    reveal_strlit("BO");
    reveal_strlit("BQ");
    reveal_strlit("BR");
    reveal_strlit("BS");
    reveal_strlit("BT");
    reveal_strlit("BW");
    reveal_strlit("BY");
    reveal_strlit("BZ");
    reveal_strlit("CC");
    reveal_strlit("CD");
    reveal_strlit("CF");
    reveal_strlit("CG");
    reveal_strlit("CH");
    reveal_strlit("CI");
    reveal_strlit("CK");
    reveal_strlit("CL");
    reveal_strlit("CM");
    reveal_strlit("CN");
    reveal_strlit("CO");
    reveal_strlit("CR");
    reveal_strlit("CU");
    reveal_strlit("CV");
    reveal_strlit("CW");
    reveal_strlit("CX");
    reveal_strlit("CY");
    reveal_strlit("CZ");
    reveal_strlit("DE");
    reveal_strlit("DJ");
    reveal_strlit("DK");
    reveal_strlit("DM");
    reveal_strlit("DO");
    reveal_strlit("DZ");
    reveal_strlit("EC");
    reveal_strlit("EE");
    reveal_strlit("EG");
    reveal_strlit("ER");
    reveal_strlit("ES");
    reveal_strlit("ET");
    reveal_strlit("FI");
    reveal_strlit("FJ");
    reveal_strlit("FK");
    reveal_strlit("FM");
    reveal_strlit("FO");
    reveal_strlit("FR");
    reveal_strlit("GA");
    reveal_strlit("GB");
    reveal_strlit("GD");
    reveal_strlit("GE");
    reveal_strlit("GF");
    reveal_strlit("GG");
    reveal_strlit("GH");
    reveal_strlit("GI");
    reveal_strlit("GL");
    reveal_strlit("GM");
    reveal_strlit("GN");
    reveal_strlit("GP");
    reveal_strlit("GQ");
    reveal_strlit("GR");
    reveal_strlit("GT");
    reveal_strlit("GU");
    reveal_strlit("GW");
    reveal_strlit("GY");
    reveal_strlit("HK");
    reveal_strlit("HN");
    reveal_strlit("HR");
    reveal_strlit("HT");
    reveal_strlit("HU");
    reveal_strlit("ID");
    reveal_strlit("IE");
    reveal_strlit("IL");
    reveal_strlit("IM");
    reveal_strlit("IN");
    reveal_strlit("IO");
    reveal_strlit("IQ");
    reveal_strlit("IR");
    reveal_strlit("IS");
    reveal_strlit("IT");
    reveal_strlit("JE");
    reveal_strlit("JM");
    reveal_strlit("JO");
    reveal_strlit("JP");
    reveal_strlit("KE");
    reveal_strlit("KG");
    reveal_strlit("KH");
    reveal_strlit("KI");
    reveal_strlit("KM");
    reveal_strlit("KN");
    reveal_strlit("KP");
    reveal_strlit("KR");
    reveal_strlit("KW");
    reveal_strlit("KY");
    reveal_strlit("KZ");
    reveal_strlit("LA");
    reveal_strlit("LB");
    reveal_strlit("LC");
    reveal_strlit("LI");
    reveal_strlit("LK");
    reveal_strlit("LR");
    reveal_strlit("LS");
    reveal_strlit("LT");
    reveal_strlit("LU");
    reveal_strlit("LV");
    reveal_strlit("LY");
    reveal_strlit("MA");
    reveal_strlit("MC");
    reveal_strlit("MD");
    reveal_strlit("ME");
    reveal_strlit("MG");
    reveal_strlit("MH");
    reveal_strlit("MK");
    reveal_strlit("ML");
    reveal_strlit("MM");
    reveal_strlit("MN");
    reveal_strlit("MO");
    reveal_strlit("MP");
    reveal_strlit("MQ");
    reveal_strlit("MR");
    reveal_strlit("MS");
    reveal_strlit("MT");
    reveal_strlit("MU");
    reveal_strlit("MV");
    reveal_strlit("MW");
    reveal_strlit("MX");
    reveal_strlit("MY");
    reveal_strlit("MZ");
    reveal_strlit("NA");
    reveal_strlit("NC");
    reveal_strlit("NE");
    reveal_strlit("NF");
    reveal_strlit("NG");
    reveal_strlit("NI");
    reveal_strlit("NL");
    reveal_strlit("NO");
    reveal_strlit("NP");
    reveal_strlit("NR");
    reveal_strlit("NU");
    reveal_strlit("NZ");
    reveal_strlit("OM");
    reveal_strlit("PA");
    reveal_strlit("PE");
    reveal_strlit("PF");
    reveal_strlit("PG");
    reveal_strlit("PH");
    reveal_strlit("PK");
    reveal_strlit("PL");
    reveal_strlit("PM");
    reveal_strlit("PR");
    reveal_strlit("PS");
    reveal_strlit("PT");
    reveal_strlit("PW");
    reveal_strlit("PY");
    reveal_strlit("QA");
    reveal_strlit("RE");
    reveal_strlit("RO");
    reveal_strlit("RS");
    reveal_strlit("RU");
    reveal_strlit("RW");
    reveal_strlit("SA");
    reveal_strlit("SB");
    reveal_strlit("SC");
    reveal_strlit("SD");
    reveal_strlit("SE");
    reveal_strlit("SG");
    reveal_strlit("SH");
    reveal_strlit("SI");
    reveal_strlit("SJ");
    reveal_strlit("SK");
    reveal_strlit("SL");
    reveal_strlit("SM");
    reveal_strlit("SN");
    reveal_strlit("SO");
    reveal_strlit("SR");
    reveal_strlit("SS");
    reveal_strlit("ST");
    reveal_strlit("SV");
    reveal_strlit("SX");
    reveal_strlit("SY");
    reveal_strlit("SZ");
    reveal_strlit("TC");
    reveal_strlit("TD");
    reveal_strlit("TG");
    reveal_strlit("TH");
    reveal_strlit("TJ");
    reveal_strlit("TK");
    reveal_strlit("TL");
    reveal_strlit("TM");
    reveal_strlit("TN");
    reveal_strlit("TO");
    reveal_strlit("TR");
    reveal_strlit("TT");
    reveal_strlit("TV");
    reveal_strlit("TW");
    reveal_strlit("TZ");
    reveal_strlit("UA");
    reveal_strlit("UG");
    reveal_strlit("UY");
    reveal_strlit("UZ");
    reveal_strlit("VA");
    reveal_strlit("VC");
    reveal_strlit("VE");
    reveal_strlit("VG");
    reveal_strlit("VI");
    reveal_strlit("VN");
    reveal_strlit("VU");
    reveal_strlit("WF");
    reveal_strlit("WS");
    reveal_strlit("XG");
    reveal_strlit("XN");
    reveal_strlit("XP");
    reveal_strlit("XS");
    reveal_strlit("XT");
    reveal_strlit("XV");
    reveal_strlit("YE");
    reveal_strlit("YT");
    reveal_strlit("ZA");
    reveal_strlit("ZM");
    reveal_strlit("ZW");
}

/// Round trip on names: looking a territory's canonical name back up yields
/// that same territory.
pub proof fn lemma_name_round_trip(t: TerritoryCode)
    ensures
        from_name_spec(name_spec(t)) == Some(t),
{
    reveal_strlit("US");
    reveal_strlit("CA");
    reveal_strlit("AC");
    reveal_strlit("AD");
    reveal_strlit("AE");
    reveal_strlit("AF");
    reveal_strlit("AG");
    reveal_strlit("AI");
    reveal_strlit("AL");
    reveal_strlit("AM");
    reveal_strlit("AO");
    reveal_strlit("AQ");
    reveal_strlit("AR");
    reveal_strlit("AS");
    reveal_strlit("AT");
    reveal_strlit("AU");
    reveal_strlit("AW");
    reveal_strlit("AX");
    reveal_strlit("AZ");
    reveal_strlit("BA");
    reveal_strlit("BB");
    reveal_strlit("BD");
    reveal_strlit("BE");
    reveal_strlit("BF");
    reveal_strlit("BG");
    reveal_strlit("BH");
    reveal_strlit("BI");
    reveal_strlit("BJ");
    reveal_strlit("BM");
    reveal_strlit("BN");
    reveal_strlit("BO");
    reveal_strlit("BQ");
    reveal_strlit("BR");
    reveal_strlit("BS");
    reveal_strlit("BT");
    reveal_strlit("BW");
    reveal_strlit("BY");
    reveal_strlit("BZ");
    reveal_strlit("CC");
    reveal_strlit("CD");
    reveal_strlit("CF");
    reveal_strlit("CG");
    reveal_strlit("CH");
    reveal_strlit("CI");
    reveal_strlit("CK");
    reveal_strlit("CL");
    reveal_strlit("CM");
    reveal_strlit("CN");
    reveal_strlit("CO");
    reveal_strlit("CR");
    reveal_strlit("CU");
    reveal_strlit("CV");
    reveal_strlit("CW");
    reveal_strlit("CX");
    reveal_strlit("CY");
    reveal_strlit("CZ");
    reveal_strlit("DE");
    reveal_strlit("DJ");
    reveal_strlit("DK");
    reveal_strlit("DM");
    reveal_strlit("DO");
    reveal_strlit("DZ");
    reveal_strlit("EC");
    reveal_strlit("EE");
    reveal_strlit("EG");
    reveal_strlit("ER");
    reveal_strlit("ES");
    reveal_strlit("ET");
    reveal_strlit("FI");
    reveal_strlit("FJ");
    reveal_strlit("FK");
    reveal_strlit("FM");
    reveal_strlit("FO");
    reveal_strlit("FR");
    reveal_strlit("GA");
    reveal_strlit("GB");
    reveal_strlit("GD");
    reveal_strlit("GE");
    reveal_strlit("GF");
    reveal_strlit("GG");
    reveal_strlit("GH");
    reveal_strlit("GI");
    reveal_strlit("GL");
    reveal_strlit("GM");
    reveal_strlit("GN");
    reveal_strlit("GP");
    reveal_strlit("GQ");
    reveal_strlit("GR");
    reveal_strlit("GT");
    reveal_strlit("GU");
    reveal_strlit("GW");
    reveal_strlit("GY");
    reveal_strlit("HK");
    reveal_strlit("HN");
    reveal_strlit("HR");
    reveal_strlit("HT");
    reveal_strlit("HU");
    reveal_strlit("ID");
    reveal_strlit("IE");
    reveal_strlit("IL");
    reveal_strlit("IM");
    reveal_strlit("IN");
    reveal_strlit("IO");
    reveal_strlit("IQ");
    reveal_strlit("IR");
    reveal_strlit("IS");
    reveal_strlit("IT");
    reveal_strlit("JE");
    reveal_strlit("JM");
    reveal_strlit("JO");
    reveal_strlit("JP");
    reveal_strlit("KE");
    reveal_strlit("KG");
    reveal_strlit("KH");
    reveal_strlit("KI");
    reveal_strlit("KM");
    reveal_strlit("KN");
    reveal_strlit("KP");
    reveal_strlit("KR");
    reveal_strlit("KW");
    reveal_strlit("KY");
    reveal_strlit("KZ");
    reveal_strlit("LA");
    reveal_strlit("LB");
    reveal_strlit("LC");
    reveal_strlit("LI");
    reveal_strlit("LK");
    reveal_strlit("LR");
    reveal_strlit("LS");
    reveal_strlit("LT");
    reveal_strlit("LU");
    reveal_strlit("LV");
    reveal_strlit("LY");
    reveal_strlit("MA");
    reveal_strlit("MC");
    reveal_strlit("MD");
    reveal_strlit("ME");
    reveal_strlit("MG");
    reveal_strlit("MH");
    reveal_strlit("MK");
    reveal_strlit("ML");
    reveal_strlit("MM");
    reveal_strlit("MN");
    reveal_strlit("MO");
    reveal_strlit("MP");
    reveal_strlit("MQ");
    reveal_strlit("MR");
    reveal_strlit("MS");
    reveal_strlit("MT");
    reveal_strlit("MU");
    reveal_strlit("MV");
    reveal_strlit("MW");
    reveal_strlit("MX");
    reveal_strlit("MY");
    reveal_strlit("MZ");
    reveal_strlit("NA");
    reveal_strlit("NC");
    reveal_strlit("NE");
    reveal_strlit("NF");
    reveal_strlit("NG");
    reveal_strlit("NI");
    reveal_strlit("NL");
    reveal_strlit("NO");
    reveal_strlit("NP");
    reveal_strlit("NR");
    reveal_strlit("NU");
    reveal_strlit("NZ");
    reveal_strlit("OM");
    reveal_strlit("PA");
    reveal_strlit("PE");
    reveal_strlit("PF");
    reveal_strlit("PG");
    reveal_strlit("PH");
    reveal_strlit("PK");
    reveal_strlit("PL");
    reveal_strlit("PM");
    reveal_strlit("PR");
    reveal_strlit("PS");
    reveal_strlit("PT");
    reveal_strlit("PW");
    reveal_strlit("PY");
    reveal_strlit("QA");
    reveal_strlit("RE");
    reveal_strlit("RO");
    reveal_strlit("RS");
    reveal_strlit("RU");
    reveal_strlit("RW");
    reveal_strlit("SA");
    reveal_strlit("SB");
    reveal_strlit("SC");
    reveal_strlit("SD");
    reveal_strlit("SE");
    reveal_strlit("SG");
    reveal_strlit("SH");
    reveal_strlit("SI");
    reveal_strlit("SJ");
    reveal_strlit("SK");
    reveal_strlit("SL");
    reveal_strlit("SM");
    reveal_strlit("SN");
    reveal_strlit("SO");
    reveal_strlit("SR");
    reveal_strlit("SS");
    reveal_strlit("ST");
    reveal_strlit("SV");
    reveal_strlit("SX");
    reveal_strlit("SY");
    reveal_strlit("SZ");
    reveal_strlit("TC");
    reveal_strlit("TD");
    reveal_strlit("TG");
    reveal_strlit("TH");
    reveal_strlit("TJ");
    reveal_strlit("TK");
    reveal_strlit("TL");
    reveal_strlit("TM");
    reveal_strlit("TN");
    reveal_strlit("TO");
    reveal_strlit("TR");
    reveal_strlit("TT");
    reveal_strlit("TV");
    reveal_strlit("TW");
    reveal_strlit("TZ");
    reveal_strlit("UA");
    reveal_strlit("UG");
    reveal_strlit("UY");
    reveal_strlit("UZ");
    reveal_strlit("VA");
    reveal_strlit("VC");
    reveal_strlit("VE");
    reveal_strlit("VG");
    reveal_strlit("VI");
    reveal_strlit("VN");
    reveal_strlit("VU");
    reveal_strlit("WF");
    reveal_strlit("WS");
    reveal_strlit("XG");
    reveal_strlit("XN");
    reveal_strlit("XP");
    reveal_strlit("XS");
    reveal_strlit("XT");
    reveal_strlit("XV");
    reveal_strlit("YE");
    reveal_strlit("YT");
    reveal_strlit("ZA");
    reveal_strlit("ZM");
    reveal_strlit("ZW");
    assert(name_spec(t).len() == 2);
}

/// A name that the lookup recognizes is the canonical name of the territory
/// it yields: the other direction of the round trip.
#[verifier::rlimit(100)]
pub proof fn lemma_from_name_inverse(s: Seq<char>, t: TerritoryCode)
    requires
        from_name_spec(s) == Some(t),
    ensures
        name_spec(t) == s,
{
    reveal_strlit("US");
    reveal_strlit("CA");
    reveal_strlit("AC");
    reveal_strlit("AD");
    reveal_strlit("AE");
    reveal_strlit("AF");
    reveal_strlit("AG");
    reveal_strlit("AI");
    reveal_strlit("AL");
    reveal_strlit("AM");
    reveal_strlit("AO");
    reveal_strlit("AQ");
    reveal_strlit("AR");
    reveal_strlit("AS");
    reveal_strlit("AT");
    reveal_strlit("AU");
    reveal_strlit("AW");
    reveal_strlit("AX");
    reveal_strlit("AZ");
    reveal_strlit("BA");
    reveal_strlit("BB");
    reveal_strlit("BD");
    reveal_strlit("BE");
    reveal_strlit("BF");
    reveal_strlit("BG");
    reveal_strlit("BH");
    reveal_strlit("BI");
    reveal_strlit("BJ");
    reveal_strlit("BM");
    reveal_strlit("BN");
    reveal_strlit("BO");
    reveal_strlit("BQ");
    reveal_strlit("BR");
    reveal_strlit("BS");
    reveal_strlit("BT");
    reveal_strlit("BW");
    reveal_strlit("BY");
    reveal_strlit("BZ");
    reveal_strlit("CC");
    reveal_strlit("CD");
    reveal_strlit("CF");
    reveal_strlit("CG");
    reveal_strlit("CH");
    reveal_strlit("CI");
    reveal_strlit("CK");
    reveal_strlit("CL");
    reveal_strlit("CM");
    reveal_strlit("CN");
    reveal_strlit("CO");
    reveal_strlit("CR");
    reveal_strlit("CU");
    reveal_strlit("CV");
    reveal_strlit("CW");
    reveal_strlit("CX");
    reveal_strlit("CY");
    reveal_strlit("CZ");
    reveal_strlit("DE");
    reveal_strlit("DJ");
    reveal_strlit("DK");
    reveal_strlit("DM");
    reveal_strlit("DO");
    reveal_strlit("DZ");
    reveal_strlit("EC");
    reveal_strlit("EE");
    reveal_strlit("EG");
    reveal_strlit("ER");
    reveal_strlit("ES");
    reveal_strlit("ET");
    reveal_strlit("FI");
    reveal_strlit("FJ");
    reveal_strlit("FK");
    reveal_strlit("FM");
    reveal_strlit("FO");
    reveal_strlit("FR");
    reveal_strlit("GA");
    reveal_strlit("GB");
    reveal_strlit("GD");
    reveal_strlit("GE");
    reveal_strlit("GF");
    reveal_strlit("GG");
    reveal_strlit("GH");
    reveal_strlit("GI");
    reveal_strlit("GL");
    reveal_strlit("GM");
    reveal_strlit("GN");
    reveal_strlit("GP");
    reveal_strlit("GQ");
    reveal_strlit("GR");
    reveal_strlit("GT");
    reveal_strlit("GU");
    reveal_strlit("GW");
    reveal_strlit("GY");
    reveal_strlit("HK");
    reveal_strlit("HN");
    reveal_strlit("HR");
    reveal_strlit("HT");
    reveal_strlit("HU");
    reveal_strlit("ID");
    reveal_strlit("IE");
    reveal_strlit("IL");
    reveal_strlit("IM");
    reveal_strlit("IN");
    reveal_strlit("IO");
    reveal_strlit("IQ");
    reveal_strlit("IR");
    reveal_strlit("IS");
    reveal_strlit("IT");
    reveal_strlit("JE");
    reveal_strlit("JM");
    reveal_strlit("JO");
    reveal_strlit("JP");
    reveal_strlit("KE");
    reveal_strlit("KG");
    reveal_strlit("KH");
    reveal_strlit("KI");
    reveal_strlit("KM");
    reveal_strlit("KN");
    reveal_strlit("KP");
    reveal_strlit("KR");
    reveal_strlit("KW");
    reveal_strlit("KY");
    reveal_strlit("KZ");
    reveal_strlit("LA");
    reveal_strlit("LB");
    reveal_strlit("LC");
    reveal_strlit("LI");
    reveal_strlit("LK");
    reveal_strlit("LR");
    reveal_strlit("LS");
    reveal_strlit("LT");
    reveal_strlit("LU");
    reveal_strlit("LV");
    reveal_strlit("LY");
    reveal_strlit("MA");
    reveal_strlit("MC");
    reveal_strlit("MD");
    reveal_strlit("ME");
    reveal_strlit("MG");
    reveal_strlit("MH");
    reveal_strlit("MK");
    reveal_strlit("ML");
    reveal_strlit("MM");
    reveal_strlit("MN");
    reveal_strlit("MO");
    reveal_strlit("MP");
    reveal_strlit("MQ");
    reveal_strlit("MR");
    reveal_strlit("MS");
    reveal_strlit("MT");
    reveal_strlit("MU");
    reveal_strlit("MV");
    reveal_strlit("MW");
    reveal_strlit("MX");
    reveal_strlit("MY");
    reveal_strlit("MZ");
    reveal_strlit("NA");
    reveal_strlit("NC");
    reveal_strlit("NE");
    reveal_strlit("NF");
    reveal_strlit("NG");
    reveal_strlit("NI");
    reveal_strlit("NL");
    reveal_strlit("NO");
    reveal_strlit("NP");
    reveal_strlit("NR");
    reveal_strlit("NU");
    reveal_strlit("NZ");
    reveal_strlit("OM");
    reveal_strlit("PA");
    reveal_strlit("PE");
    reveal_strlit("PF");
    reveal_strlit("PG");
    reveal_strlit("PH");
    reveal_strlit("PK");
    reveal_strlit("PL");
    reveal_strlit("PM");
    reveal_strlit("PR");
    reveal_strlit("PS");
    reveal_strlit("PT");
    reveal_strlit("PW");
    reveal_strlit("PY");
    reveal_strlit("QA");
    reveal_strlit("RE");
    reveal_strlit("RO");
    reveal_strlit("RS");
    reveal_strlit("RU");
    reveal_strlit("RW");
    reveal_strlit("SA");
    reveal_strlit("SB");
    reveal_strlit("SC");
    reveal_strlit("SD");
    reveal_strlit("SE");
    reveal_strlit("SG");
    reveal_strlit("SH");
    reveal_strlit("SI");
    reveal_strlit("SJ");
    reveal_strlit("SK");
    reveal_strlit("SL");
    reveal_strlit("SM");
    reveal_strlit("SN");
    reveal_strlit("SO");
    reveal_strlit("SR");
    reveal_strlit("SS");
    reveal_strlit("ST");
    reveal_strlit("SV");
    reveal_strlit("SX");
    reveal_strlit("SY");
    reveal_strlit("SZ");
    reveal_strlit("TC");
    reveal_strlit("TD");
    reveal_strlit("TG");
    reveal_strlit("TH");
    reveal_strlit("TJ");
    reveal_strlit("TK");
    reveal_strlit("TL");
    reveal_strlit("TM");
    reveal_strlit("TN");
    reveal_strlit("TO");
    reveal_strlit("TR");
    reveal_strlit("TT");
    reveal_strlit("TV");
    reveal_strlit("TW");
    reveal_strlit("TZ");
    reveal_strlit("UA");
    reveal_strlit("UG");
    reveal_strlit("UY");
    reveal_strlit("UZ");
    reveal_strlit("VA");
    reveal_strlit("VC");
    reveal_strlit("VE");
    reveal_strlit("VG");
    reveal_strlit("VI");
    reveal_strlit("VN");
    reveal_strlit("VU");
    reveal_strlit("WF");
    reveal_strlit("WS");
    reveal_strlit("XG");
    reveal_strlit("XN");
    reveal_strlit("XP");
    reveal_strlit("XS");
    reveal_strlit("XT");
    reveal_strlit("XV");
    reveal_strlit("YE");
    reveal_strlit("YT");
    reveal_strlit("ZA");
    reveal_strlit("ZM");
    reveal_strlit("ZW");
    assert(name_spec(t) =~= s);
}

} // verus!
