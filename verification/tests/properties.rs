use e164_phones_countries::find_iso_3166;
use e164_phones_countries::find_phone_cc;
use e164_phones_countries::FromPhoneError;
use e164_phones_countries::TerritoryCode;

fn all_territories() -> Vec<TerritoryCode> {
    vec![
        TerritoryCode::US, TerritoryCode::CA, TerritoryCode::AC, TerritoryCode::AD, TerritoryCode::AE, TerritoryCode::AF, TerritoryCode::AG, TerritoryCode::AI,
        TerritoryCode::AL, TerritoryCode::AM, TerritoryCode::AO, TerritoryCode::AQ, TerritoryCode::AR, TerritoryCode::AS, TerritoryCode::AT, TerritoryCode::AU,
        TerritoryCode::AW, TerritoryCode::AX, TerritoryCode::AZ, TerritoryCode::BA, TerritoryCode::BB, TerritoryCode::BD, TerritoryCode::BE, TerritoryCode::BF,
        TerritoryCode::BG, TerritoryCode::BH, TerritoryCode::BI, TerritoryCode::BJ, TerritoryCode::BM, TerritoryCode::BN, TerritoryCode::BO, TerritoryCode::BQ,
        TerritoryCode::BR, TerritoryCode::BS, TerritoryCode::BT, TerritoryCode::BW, TerritoryCode::BY, TerritoryCode::BZ, TerritoryCode::CC, TerritoryCode::CD,
        TerritoryCode::CF, TerritoryCode::CG, TerritoryCode::CH, TerritoryCode::CI, TerritoryCode::CK, TerritoryCode::CL, TerritoryCode::CM, TerritoryCode::CN,
        TerritoryCode::CO, TerritoryCode::CR, TerritoryCode::CU, TerritoryCode::CV, TerritoryCode::CW, TerritoryCode::CX, TerritoryCode::CY, TerritoryCode::CZ,
        TerritoryCode::DE, TerritoryCode::DJ, TerritoryCode::DK, TerritoryCode::DM, TerritoryCode::DO, TerritoryCode::DZ, TerritoryCode::EC, TerritoryCode::EE,
        TerritoryCode::EG, TerritoryCode::ER, TerritoryCode::ES, TerritoryCode::ET, TerritoryCode::FI, TerritoryCode::FJ, TerritoryCode::FK, TerritoryCode::FM,
        TerritoryCode::FO, TerritoryCode::FR, TerritoryCode::GA, TerritoryCode::GB, TerritoryCode::GD, TerritoryCode::GE, TerritoryCode::GF, TerritoryCode::GG,
        TerritoryCode::GH, TerritoryCode::GI, TerritoryCode::GL, TerritoryCode::GM, TerritoryCode::GN, TerritoryCode::GP, TerritoryCode::GQ, TerritoryCode::GR,
        TerritoryCode::GT, TerritoryCode::GU, TerritoryCode::GW, TerritoryCode::GY, TerritoryCode::HK, TerritoryCode::HN, TerritoryCode::HR, TerritoryCode::HT,
        TerritoryCode::HU, TerritoryCode::ID, TerritoryCode::IE, TerritoryCode::IL, TerritoryCode::IM, TerritoryCode::IN, TerritoryCode::IO, TerritoryCode::IQ,
        TerritoryCode::IR, TerritoryCode::IS, TerritoryCode::IT, TerritoryCode::JE, TerritoryCode::JM, TerritoryCode::JO, TerritoryCode::JP, TerritoryCode::KE,
        TerritoryCode::KG, TerritoryCode::KH, TerritoryCode::KI, TerritoryCode::KM, TerritoryCode::KN, TerritoryCode::KP, TerritoryCode::KR, TerritoryCode::KW,
        TerritoryCode::KY, TerritoryCode::KZ, TerritoryCode::LA, TerritoryCode::LB, TerritoryCode::LC, TerritoryCode::LI, TerritoryCode::LK, TerritoryCode::LR,
        TerritoryCode::LS, TerritoryCode::LT, TerritoryCode::LU, TerritoryCode::LV, TerritoryCode::LY, TerritoryCode::MA, TerritoryCode::MC, TerritoryCode::MD,
        TerritoryCode::ME, TerritoryCode::MG, TerritoryCode::MH, TerritoryCode::MK, TerritoryCode::ML, TerritoryCode::MM, TerritoryCode::MN, TerritoryCode::MO,
        TerritoryCode::MP, TerritoryCode::MQ, TerritoryCode::MR, TerritoryCode::MS, TerritoryCode::MT, TerritoryCode::MU, TerritoryCode::MV, TerritoryCode::MW,
        TerritoryCode::MX, TerritoryCode::MY, TerritoryCode::MZ, TerritoryCode::NA, TerritoryCode::NC, TerritoryCode::NE, TerritoryCode::NF, TerritoryCode::NG,
        TerritoryCode::NI, TerritoryCode::NL, TerritoryCode::NO, TerritoryCode::NP, TerritoryCode::NR, TerritoryCode::NU, TerritoryCode::NZ, TerritoryCode::OM,
        TerritoryCode::PA, TerritoryCode::PE, TerritoryCode::PF, TerritoryCode::PG, TerritoryCode::PH, TerritoryCode::PK, TerritoryCode::PL, TerritoryCode::PM,
        TerritoryCode::PR, TerritoryCode::PS, TerritoryCode::PT, TerritoryCode::PW, TerritoryCode::PY, TerritoryCode::QA, TerritoryCode::RE, TerritoryCode::RO,
        TerritoryCode::RS, TerritoryCode::RU, TerritoryCode::RW, TerritoryCode::SA, TerritoryCode::SB, TerritoryCode::SC, TerritoryCode::SD, TerritoryCode::SE,
        TerritoryCode::SG, TerritoryCode::SH, TerritoryCode::SI, TerritoryCode::SJ, TerritoryCode::SK, TerritoryCode::SL, TerritoryCode::SM, TerritoryCode::SN,
        TerritoryCode::SO, TerritoryCode::SR, TerritoryCode::SS, TerritoryCode::ST, TerritoryCode::SV, TerritoryCode::SX, TerritoryCode::SY, TerritoryCode::SZ,
        TerritoryCode::TC, TerritoryCode::TD, TerritoryCode::TG, TerritoryCode::TH, TerritoryCode::TJ, TerritoryCode::TK, TerritoryCode::TL, TerritoryCode::TM,
        TerritoryCode::TN, TerritoryCode::TO, TerritoryCode::TR, TerritoryCode::TT, TerritoryCode::TV, TerritoryCode::TW, TerritoryCode::TZ, TerritoryCode::UA,
        TerritoryCode::UG, TerritoryCode::UY, TerritoryCode::UZ, TerritoryCode::VA, TerritoryCode::VC, TerritoryCode::VE, TerritoryCode::VG, TerritoryCode::VI,
        TerritoryCode::VN, TerritoryCode::VU, TerritoryCode::WF, TerritoryCode::WS, TerritoryCode::XG, TerritoryCode::XN, TerritoryCode::XP, TerritoryCode::XS,
        TerritoryCode::XT, TerritoryCode::XV, TerritoryCode::YE, TerritoryCode::YT, TerritoryCode::ZA, TerritoryCode::ZM, TerritoryCode::ZW,
    ]
}

#[test]
fn round_trip_on_names() {
    for t in all_territories() {
        let name = t.name();
        assert_eq!(2, name.len());
        assert!(name.chars().all(|c| c.is_ascii_uppercase()));
        assert_eq!(Some(t), TerritoryCode::from_name(name));
    }
}

#[test]
fn from_name_is_exact_and_case_sensitive() {
    assert_eq!(Some(TerritoryCode::IN), TerritoryCode::from_name("IN"));
    assert_eq!(None, TerritoryCode::from_name("in"));
    assert_eq!(None, TerritoryCode::from_name("Us"));
    assert_eq!(None, TerritoryCode::from_name("USA"));
    assert_eq!(None, TerritoryCode::from_name("U"));
    assert_eq!(None, TerritoryCode::from_name(""));
    assert_eq!(None, TerritoryCode::from_name("ZZ"));
}

#[test]
fn nanp_prefix_resolves_to_mapped_territory() {
    // Four-digit entries under the shared 1 prefix, padded to ten digits.
    assert_eq!(Ok(TerritoryCode::US), TerritoryCode::from_phone_number(1201000000));
    assert_eq!(Ok(TerritoryCode::CA), TerritoryCode::from_phone_number(1204000000));
    assert_eq!(Ok(TerritoryCode::BS), TerritoryCode::from_phone_number(1242000000));
    assert_eq!(Ok(TerritoryCode::VG), TerritoryCode::from_phone_number(1284999999));
}

#[test]
fn longest_match_takes_precedence() {
    // Mayotte's sub-ranges inside 262 win over Reunion's three-digit entry.
    assert_eq!(Ok(TerritoryCode::YT), TerritoryCode::from_phone_number(26226992902));
    assert_eq!(Ok(TerritoryCode::YT), TerritoryCode::from_phone_number(2626390000));
    assert_eq!(Ok(TerritoryCode::RE), TerritoryCode::from_phone_number(2620000000));
    // Cocos and Christmas Islands: seven-digit entries inside Australia's 61.
    assert_eq!(Ok(TerritoryCode::CC), TerritoryCode::from_phone_number(6189162000));
    assert_eq!(Ok(TerritoryCode::CX), TerritoryCode::from_phone_number(6189164000));
    assert_eq!(Ok(TerritoryCode::AU), TerritoryCode::from_phone_number(6100000000));
}

#[test]
fn boundary_on_length() {
    // Nine digits fail as invalid, whatever the digits.
    assert_eq!(
        Err(FromPhoneError::InvalidPhoneNumber),
        TerritoryCode::from_phone_number(999999999)
    );
    assert_eq!(
        Err(FromPhoneError::InvalidPhoneNumber),
        TerritoryCode::from_phone_number(0)
    );
    assert_eq!(
        Err(FromPhoneError::InvalidPhoneNumber),
        TerritoryCode::from_phone_number(1)
    );
    // The same digits padded to ten digits go by table membership instead:
    // 9999999999 matches no prefix, 9989999999 opens with Uzbekistan's 998.
    assert_eq!(
        Err(FromPhoneError::NotFound),
        TerritoryCode::from_phone_number(9999999999)
    );
    assert_eq!(
        Ok(TerritoryCode::UZ),
        TerritoryCode::from_phone_number(9989999999)
    );
}

#[test]
fn unassigned_fast_path_prefix_fails_without_fallback() {
    // 1000 is not an assigned area code: the fast path reports NotFound at
    // once instead of falling back to shorter prefixes.
    assert_eq!(
        Err(FromPhoneError::NotFound),
        TerritoryCode::from_phone_number(1000000000)
    );
    assert_eq!(
        Err(FromPhoneError::NotFound),
        TerritoryCode::from_phone_number(1222935929)
    );
}

#[test]
fn error_kinds_stay_distinguishable() {
    assert_ne!(FromPhoneError::InvalidPhoneNumber, FromPhoneError::NotFound);
    assert_eq!(
        "Invalid phone. Must be at least 10 digits",
        FromPhoneError::InvalidPhoneNumber.message()
    );
    assert_eq!(
        "Did not match any territory code",
        FromPhoneError::NotFound.message()
    );
}

#[test]
fn primary_code_orders_numerically() {
    let ru = TerritoryCode::RU.calling_codes();
    let kz = TerritoryCode::KZ.calling_codes();
    let fr = TerritoryCode::FR.calling_codes();
    assert_eq!(7, ru.primary());
    assert_eq!(7, kz.primary());
    assert_eq!(33, fr.primary());
    // Numeric order: 7 before 33, though "33" < "7" as strings.
    assert!(ru < fr);
    assert!(fr > ru);
    assert!("33" < "7");
    assert_eq!(Some(std::cmp::Ordering::Equal), ru.partial_cmp(&kz));
    let mut sorted = vec![fr, ru];
    sorted.sort_by(|a, b| a.partial_cmp(b).unwrap());
    assert_eq!(vec![ru, fr], sorted);
}

#[test]
fn multi_code_territories_report_all_codes() {
    let bq = TerritoryCode::BQ.calling_codes();
    assert!(bq.has_multiple());
    assert!(bq.all().len() > 1);
    assert_eq!(vec![5993, 5994, 5997], bq.all());
    assert_eq!(5993, bq.primary());

    let xv = TerritoryCode::XV.calling_codes();
    assert!(xv.has_multiple());
    assert_eq!(vec![882, 883], xv.all());
    assert_eq!(882, xv.primary());

    let fr = TerritoryCode::FR.calling_codes();
    assert!(!fr.has_multiple());
    assert_eq!(vec![33], fr.all());
}

#[test]
fn every_territory_has_one_to_three_positive_codes() {
    for t in all_territories() {
        let codes = t.calling_codes();
        let all = codes.all();
        assert!(!all.is_empty() && all.len() <= 3);
        assert!(all.iter().all(|&c| c > 0));
        assert_eq!(all[0], codes.primary());
        assert_eq!(all.len() > 1, codes.has_multiple());
    }
}

#[test]
fn legacy_shims_degrade_errors_to_sentinels() {
    // The reverse shim reports one code only for multi-code territories.
    assert_eq!("599", find_phone_cc("BQ"));
    assert_eq!("882", find_phone_cc("XV"));
    assert_eq!("33", find_phone_cc("FR"));
    assert_eq!("", find_phone_cc("zz"));
    // The forward shim degrades NotFound to an empty string.
    assert_eq!("", find_iso_3166("9999999999"));
    assert_eq!("RE", find_iso_3166("2620000000"));
}
