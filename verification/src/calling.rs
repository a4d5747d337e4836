//! The calling-code table: an immutable mapping from each territory to the
//! one, two or three E.164 calling codes assigned to it.

use vstd::prelude::*;

use vstd::std_specs::cmp::PartialOrdSpec;

use crate::territory::TerritoryCode;

verus! {

/// The calling code(s) of one territory: an ordered, non-empty sequence of
/// one to three positive codes. The first element is the *primary* code,
/// used for comparisons and display. Zero is never a valid calling code, so
/// a zero field marks an absent code.
#[derive(Copy, Clone, Debug, Eq, Hash, PartialEq, Structural)]
pub struct CallingCodes {
    first: u32,
    second: u32,
    third: u32,
}

impl View for CallingCodes {
    type V = Seq<u32>;

    closed spec fn view(&self) -> Seq<u32> {
        if self.third != 0 {
            seq![self.first, self.second, self.third]
        } else if self.second != 0 {
            seq![self.first, self.second]
        } else {
            seq![self.first]
        }
    }
}

impl CallingCodes {
    /// Well-formed: there is a primary code and every held code is positive.
    pub closed spec fn wf(&self) -> bool {
        &&& self.first > 0
        &&& self.second != 0 ==> self.first > 0
        &&& self.third != 0 ==> self.second > 0
    }

    /// A territory with a single calling code.
    pub(crate) fn one(a: u32) -> (r: CallingCodes)
        requires
            a > 0,
        ensures
            r@ == seq![a],
            r.wf(),
    {
        let r = CallingCodes { first: a, second: 0, third: 0 };
        proof {
            assert(r@ =~= seq![a]);
        }
        r
    }

    /// A territory with two calling codes.
    pub(crate) fn two(a: u32, b: u32) -> (r: CallingCodes)
        requires
            a > 0,
            b > 0,
        ensures
            r@ == seq![a, b],
            r.wf(),
    {
        let r = CallingCodes { first: a, second: b, third: 0 };
        proof {
            assert(r@ =~= seq![a, b]);
        }
        r
    }

    /// A territory with three calling codes.
    pub(crate) fn three(a: u32, b: u32, c: u32) -> (r: CallingCodes)
        requires
            a > 0,
            b > 0,
            c > 0,
        ensures
            r@ == seq![a, b, c],
            r.wf(),
    {
        let r = CallingCodes { first: a, second: b, third: c };
        proof {
            assert(r@ =~= seq![a, b, c]);
        }
        r
    }

    /// The primary calling code: the first of the sequence. Every territory
    /// has one, so this never fails.
    pub fn primary(&self) -> (r: u32)
        ensures
            r == self@[0],
    {
        self.first
    }

    /// All the calling codes of the territory, in order.
    pub fn all(&self) -> (r: Vec<u32>)
        ensures
            r@ == self@,
    {
        let mut v: Vec<u32> = Vec::new();
        v.push(self.first);
        if self.third != 0 {
            v.push(self.second);
            v.push(self.third);
        } else if self.second != 0 {
            v.push(self.second);
        }
        proof {
            assert(v@ =~= self@);
        }
        v
    }

    /// Whether the territory has more than one calling code.
    pub fn has_multiple(&self) -> (r: bool)
        ensures
            r == (self@.len() > 1),
    {
        self.second != 0 || self.third != 0
    }
}

/// Two `CallingCodes` values order by their primary codes, compared
/// numerically, never as strings: `7` sorts before `33`.
impl PartialOrd for CallingCodes {
    fn partial_cmp(&self, other: &Self) -> (r: Option<core::cmp::Ordering>) {
        if self.first < other.first {
            Some(core::cmp::Ordering::Less)
        } else if self.first == other.first {
            Some(core::cmp::Ordering::Equal)
        } else {
            Some(core::cmp::Ordering::Greater)
        }
    }
}

impl vstd::std_specs::cmp::PartialOrdSpecImpl for CallingCodes {
    open spec fn obeys_partial_cmp_spec() -> bool {
        true
    }

    open spec fn partial_cmp_spec(&self, other: &Self) -> Option<core::cmp::Ordering> {
        if self@[0] < other@[0] {
            Some(core::cmp::Ordering::Less)
        } else if self@[0] == other@[0] {
            Some(core::cmp::Ordering::Equal)
        } else {
            Some(core::cmp::Ordering::Greater)
        }
    }
}

/// Calling codes order by their primary codes, numerically: the value with
/// the smaller primary sorts first, and values with equal primaries compare
/// equal, whatever their remaining codes.
pub proof fn lemma_order_by_primary(a: CallingCodes, b: CallingCodes)
    ensures
        a.partial_cmp_spec(&b) == Some(core::cmp::Ordering::Less) <==> a@[0] < b@[0],
        a.partial_cmp_spec(&b) == Some(core::cmp::Ordering::Equal) <==> a@[0] == b@[0],
        a.partial_cmp_spec(&b) == Some(core::cmp::Ordering::Greater) <==> a@[0] > b@[0],
{
}

/// The calling codes assigned to each territory, as the reference dataset
/// fixes them.
pub open spec fn codes_spec(t: TerritoryCode) -> Seq<u32> {
    match t {
        TerritoryCode::US => seq![1u32],
        TerritoryCode::CA => seq![1u32],
        TerritoryCode::AC => seq![247u32],
        TerritoryCode::AD => seq![376u32],
        TerritoryCode::AE => seq![971u32],
        TerritoryCode::AF => seq![93u32],
        TerritoryCode::AG => seq![1u32],
        TerritoryCode::AI => seq![1u32],
        TerritoryCode::AL => seq![355u32],
        TerritoryCode::AM => seq![374u32],
        TerritoryCode::AO => seq![244u32],
        TerritoryCode::AQ => seq![672u32],
        TerritoryCode::AR => seq![54u32],
        TerritoryCode::AS => seq![1u32],
        TerritoryCode::AT => seq![43u32],
        TerritoryCode::AU => seq![61u32],
        TerritoryCode::AW => seq![297u32],
        TerritoryCode::AX => seq![35818u32],
        TerritoryCode::AZ => seq![994u32],
        TerritoryCode::BA => seq![387u32],
        TerritoryCode::BB => seq![1u32],
        TerritoryCode::BD => seq![880u32],
        TerritoryCode::BE => seq![32u32],
        TerritoryCode::BF => seq![226u32],
        TerritoryCode::BG => seq![359u32],
        TerritoryCode::BH => seq![973u32],
        TerritoryCode::BI => seq![257u32],
        TerritoryCode::BJ => seq![229u32],
        TerritoryCode::BM => seq![1u32],
        TerritoryCode::BN => seq![673u32],
        TerritoryCode::BO => seq![591u32],
        TerritoryCode::BQ => seq![5993u32, 5994u32, 5997u32],
        TerritoryCode::BR => seq![55u32],
        TerritoryCode::BS => seq![1u32],
        TerritoryCode::BT => seq![975u32],
        TerritoryCode::BW => seq![267u32],
        TerritoryCode::BY => seq![375u32],
        TerritoryCode::BZ => seq![501u32],
        TerritoryCode::CC => seq![6189162u32],
        TerritoryCode::CD => seq![243u32],
        TerritoryCode::CF => seq![236u32],
        TerritoryCode::CG => seq![242u32],
        TerritoryCode::CH => seq![41u32],
        TerritoryCode::CI => seq![225u32],
        TerritoryCode::CK => seq![682u32],
        TerritoryCode::CL => seq![56u32],
        TerritoryCode::CM => seq![237u32],
        TerritoryCode::CN => seq![86u32],
        TerritoryCode::CO => seq![57u32],
        TerritoryCode::CR => seq![506u32],
        TerritoryCode::CU => seq![53u32],
        TerritoryCode::CV => seq![238u32],
        TerritoryCode::CW => seq![5999u32],
        TerritoryCode::CX => seq![6189164u32],
        TerritoryCode::CY => seq![357u32],
        TerritoryCode::CZ => seq![420u32],
        TerritoryCode::DE => seq![49u32],
        TerritoryCode::DJ => seq![253u32],
        TerritoryCode::DK => seq![45u32],
        TerritoryCode::DM => seq![1u32],
        TerritoryCode::DO => seq![1u32],
        TerritoryCode::DZ => seq![213u32],
        TerritoryCode::EC => seq![593u32],
        TerritoryCode::EE => seq![372u32],
        TerritoryCode::EG => seq![20u32],
        TerritoryCode::ER => seq![291u32],
        TerritoryCode::ES => seq![34u32],
        TerritoryCode::ET => seq![251u32],
        TerritoryCode::FI => seq![358u32],
        TerritoryCode::FJ => seq![679u32],
        TerritoryCode::FK => seq![500u32],
        TerritoryCode::FM => seq![691u32],
        TerritoryCode::FO => seq![298u32],
        TerritoryCode::FR => seq![33u32],
        TerritoryCode::GA => seq![241u32],
        TerritoryCode::GB => seq![44u32],
        TerritoryCode::GD => seq![1u32],
        TerritoryCode::GE => seq![995u32],
        TerritoryCode::GF => seq![594u32],
        TerritoryCode::GG => seq![441481u32],
        TerritoryCode::GH => seq![233u32],
        TerritoryCode::GI => seq![350u32],
        TerritoryCode::GL => seq![299u32],
        TerritoryCode::GM => seq![220u32],
        TerritoryCode::GN => seq![224u32],
        TerritoryCode::GP => seq![590u32],
        TerritoryCode::GQ => seq![240u32],
        TerritoryCode::GR => seq![30u32],
        TerritoryCode::GT => seq![502u32],
        TerritoryCode::GU => seq![1u32],
        TerritoryCode::GW => seq![245u32],
        TerritoryCode::GY => seq![592u32],
        TerritoryCode::HK => seq![852u32],
        TerritoryCode::HN => seq![504u32],
        TerritoryCode::HR => seq![385u32],
        TerritoryCode::HT => seq![509u32],
        TerritoryCode::HU => seq![36u32],
        TerritoryCode::ID => seq![62u32],
        TerritoryCode::IE => seq![353u32],
        TerritoryCode::IL => seq![972u32],
        TerritoryCode::IM => seq![441624u32],
        TerritoryCode::IN => seq![91u32],
        TerritoryCode::IO => seq![246u32],
        TerritoryCode::IQ => seq![964u32],
        TerritoryCode::IR => seq![98u32],
        TerritoryCode::IS => seq![354u32],
        TerritoryCode::IT => seq![39u32],
        TerritoryCode::JE => seq![441534u32],
        TerritoryCode::JM => seq![1u32],
        TerritoryCode::JO => seq![962u32],
        TerritoryCode::JP => seq![81u32],
        TerritoryCode::KE => seq![254u32],
        TerritoryCode::KG => seq![996u32],
        TerritoryCode::KH => seq![855u32],
        TerritoryCode::KI => seq![686u32],
        TerritoryCode::KM => seq![269u32],
        TerritoryCode::KN => seq![1u32],
        TerritoryCode::KP => seq![850u32],
        TerritoryCode::KR => seq![82u32],
        TerritoryCode::KW => seq![965u32],
        TerritoryCode::KY => seq![1u32],
        TerritoryCode::KZ => seq![7u32],
        TerritoryCode::LA => seq![856u32],
        TerritoryCode::LB => seq![961u32],
        TerritoryCode::LC => seq![1u32],
        TerritoryCode::LI => seq![423u32],
        TerritoryCode::LK => seq![94u32],
        TerritoryCode::LR => seq![231u32],
        TerritoryCode::LS => seq![266u32],
        TerritoryCode::LT => seq![370u32],
        TerritoryCode::LU => seq![352u32],
        TerritoryCode::LV => seq![371u32],
        TerritoryCode::LY => seq![218u32],
        TerritoryCode::MA => seq![212u32],
        TerritoryCode::MC => seq![377u32],
        TerritoryCode::MD => seq![373u32],
        TerritoryCode::ME => seq![382u32],
        TerritoryCode::MG => seq![261u32],
        TerritoryCode::MH => seq![692u32],
        TerritoryCode::MK => seq![389u32],
        TerritoryCode::ML => seq![223u32],
        TerritoryCode::MM => seq![95u32],
        TerritoryCode::MN => seq![976u32],
        TerritoryCode::MO => seq![853u32],
        TerritoryCode::MP => seq![1u32],
        TerritoryCode::MQ => seq![596u32],
        TerritoryCode::MR => seq![222u32],
        TerritoryCode::MS => seq![1u32],
        TerritoryCode::MT => seq![356u32],
        TerritoryCode::MU => seq![230u32],
        TerritoryCode::MV => seq![960u32],
        TerritoryCode::MW => seq![265u32],
        TerritoryCode::MX => seq![52u32],
        TerritoryCode::MY => seq![60u32],
        TerritoryCode::MZ => seq![258u32],
        TerritoryCode::NA => seq![264u32],
        TerritoryCode::NC => seq![687u32],
        TerritoryCode::NE => seq![227u32],
        TerritoryCode::NF => seq![6723u32],
        TerritoryCode::NG => seq![234u32],
        TerritoryCode::NI => seq![505u32],
        TerritoryCode::NL => seq![31u32],
        TerritoryCode::NO => seq![47u32],
        TerritoryCode::NP => seq![977u32],
        TerritoryCode::NR => seq![674u32],
        TerritoryCode::NU => seq![683u32],
        TerritoryCode::NZ => seq![64u32],
        TerritoryCode::OM => seq![968u32],
        TerritoryCode::PA => seq![507u32],
        TerritoryCode::PE => seq![51u32],
        TerritoryCode::PF => seq![689u32],
        TerritoryCode::PG => seq![675u32],
        TerritoryCode::PH => seq![63u32],
        TerritoryCode::PK => seq![92u32],
        TerritoryCode::PL => seq![48u32],
        TerritoryCode::PM => seq![508u32],
        TerritoryCode::PR => seq![1u32],
        TerritoryCode::PS => seq![970u32],
        TerritoryCode::PT => seq![351u32],
        TerritoryCode::PW => seq![680u32],
        TerritoryCode::PY => seq![595u32],
        TerritoryCode::QA => seq![974u32],
        TerritoryCode::RE => seq![262u32],
        TerritoryCode::RO => seq![40u32],
        TerritoryCode::RS => seq![381u32],
        TerritoryCode::RU => seq![7u32],
        TerritoryCode::RW => seq![250u32],
        TerritoryCode::SA => seq![966u32],
        TerritoryCode::SB => seq![677u32],
        TerritoryCode::SC => seq![248u32],
        TerritoryCode::SD => seq![249u32],
        TerritoryCode::SE => seq![46u32],
        TerritoryCode::SG => seq![65u32],
        TerritoryCode::SH => seq![290u32],
        TerritoryCode::SI => seq![386u32],
        TerritoryCode::SJ => seq![4779u32],
        TerritoryCode::SK => seq![421u32],
        TerritoryCode::SL => seq![232u32],
        TerritoryCode::SM => seq![378u32],
        TerritoryCode::SN => seq![221u32],
        TerritoryCode::SO => seq![252u32],
        TerritoryCode::SR => seq![597u32],
        TerritoryCode::SS => seq![211u32],
        TerritoryCode::ST => seq![239u32],
        TerritoryCode::SV => seq![503u32],
        TerritoryCode::SX => seq![1u32],
        TerritoryCode::SY => seq![963u32],
        TerritoryCode::SZ => seq![268u32],
        TerritoryCode::TC => seq![1u32],
        TerritoryCode::TD => seq![235u32],
        TerritoryCode::TG => seq![228u32],
        TerritoryCode::TH => seq![66u32],
        TerritoryCode::TJ => seq![992u32],
        TerritoryCode::TK => seq![690u32],
        TerritoryCode::TL => seq![670u32],
        TerritoryCode::TM => seq![993u32],
        TerritoryCode::TN => seq![216u32],
        TerritoryCode::TO => seq![676u32],
        TerritoryCode::TR => seq![90u32],
        TerritoryCode::TT => seq![1u32],
        TerritoryCode::TV => seq![688u32],
        TerritoryCode::TW => seq![886u32],
        TerritoryCode::TZ => seq![255u32],
        TerritoryCode::UA => seq![380u32],
        TerritoryCode::UG => seq![256u32],
        TerritoryCode::UY => seq![598u32],
        TerritoryCode::UZ => seq![998u32],
        TerritoryCode::VA => seq![379u32],
        TerritoryCode::VC => seq![1u32],
        TerritoryCode::VE => seq![58u32],
        TerritoryCode::VG => seq![1u32],
        TerritoryCode::VI => seq![1u32],
        TerritoryCode::VN => seq![84u32],
        TerritoryCode::VU => seq![678u32],
        TerritoryCode::WF => seq![681u32],
        TerritoryCode::WS => seq![685u32],
        TerritoryCode::XG => seq![881u32],
        TerritoryCode::XN => seq![870u32],
        TerritoryCode::XP => seq![878u32],
        TerritoryCode::XS => seq![808u32],
        TerritoryCode::XT => seq![800u32],
        TerritoryCode::XV => seq![882u32, 883u32],
        TerritoryCode::YE => seq![967u32],
        TerritoryCode::YT => seq![262u32],
        TerritoryCode::ZA => seq![27u32],
        TerritoryCode::ZM => seq![260u32],
        TerritoryCode::ZW => seq![263u32],
    }
}

/// Every territory has at least one and at most three calling codes, all
/// positive.
pub proof fn lemma_codes_spec_wf(t: TerritoryCode)
    ensures
        1 <= codes_spec(t).len() <= 3,
        forall|i: int| 0 <= i < codes_spec(t).len() ==> codes_spec(t)[i] > 0,
{
}

impl TerritoryCode {
    /// Yields the associated calling codes. Most territories have only one
    /// code, in which case [`CallingCodes::primary`] will suffice.
    pub fn calling_codes(&self) -> (r: CallingCodes)
        ensures
            r@ == codes_spec(*self),
            r.wf(),
    {
        match *self {
            Self::US => CallingCodes::one(1),
            Self::CA => CallingCodes::one(1),
            Self::AC => CallingCodes::one(247),
            Self::AD => CallingCodes::one(376),
            Self::AE => CallingCodes::one(971),
            Self::AF => CallingCodes::one(93),
            Self::AG => CallingCodes::one(1),
            Self::AI => CallingCodes::one(1),
            Self::AL => CallingCodes::one(355),
            Self::AM => CallingCodes::one(374),
            Self::AO => CallingCodes::one(244),
            Self::AQ => CallingCodes::one(672),
            Self::AR => CallingCodes::one(54),
            Self::AS => CallingCodes::one(1),
            Self::AT => CallingCodes::one(43),
            Self::AU => CallingCodes::one(61),
            Self::AW => CallingCodes::one(297),
            Self::AX => CallingCodes::one(35818),
            Self::AZ => CallingCodes::one(994),
            Self::BA => CallingCodes::one(387),
            Self::BB => CallingCodes::one(1),
            Self::BD => CallingCodes::one(880),
            Self::BE => CallingCodes::one(32),
            Self::BF => CallingCodes::one(226),
            Self::BG => CallingCodes::one(359),
            Self::BH => CallingCodes::one(973),
            Self::BI => CallingCodes::one(257),
            Self::BJ => CallingCodes::one(229),
            Self::BM => CallingCodes::one(1),
            Self::BN => CallingCodes::one(673),
            Self::BO => CallingCodes::one(591),
            Self::BQ => CallingCodes::three(5993, 5994, 5997),
            Self::BR => CallingCodes::one(55),
            Self::BS => CallingCodes::one(1),
            Self::BT => CallingCodes::one(975),
            Self::BW => CallingCodes::one(267),
            Self::BY => CallingCodes::one(375),
            Self::BZ => CallingCodes::one(501),
            Self::CC => CallingCodes::one(6189162),
            Self::CD => CallingCodes::one(243),
            Self::CF => CallingCodes::one(236),
            Self::CG => CallingCodes::one(242),
            Self::CH => CallingCodes::one(41),
            Self::CI => CallingCodes::one(225),
            Self::CK => CallingCodes::one(682),
            Self::CL => CallingCodes::one(56),
            Self::CM => CallingCodes::one(237),
            Self::CN => CallingCodes::one(86),
            Self::CO => CallingCodes::one(57),
            Self::CR => CallingCodes::one(506),
            Self::CU => CallingCodes::one(53),
            Self::CV => CallingCodes::one(238),
            Self::CW => CallingCodes::one(5999),
            Self::CX => CallingCodes::one(6189164),
            Self::CY => CallingCodes::one(357),
            Self::CZ => CallingCodes::one(420),
            Self::DE => CallingCodes::one(49),
            Self::DJ => CallingCodes::one(253),
            Self::DK => CallingCodes::one(45),
            Self::DM => CallingCodes::one(1),
            Self::DO => CallingCodes::one(1),
            Self::DZ => CallingCodes::one(213),
            Self::EC => CallingCodes::one(593),
            Self::EE => CallingCodes::one(372),
            Self::EG => CallingCodes::one(20),
            Self::ER => CallingCodes::one(291),
            Self::ES => CallingCodes::one(34),
            Self::ET => CallingCodes::one(251),
            Self::FI => CallingCodes::one(358),
            Self::FJ => CallingCodes::one(679),
            Self::FK => CallingCodes::one(500),
            Self::FM => CallingCodes::one(691),
            Self::FO => CallingCodes::one(298),
            Self::FR => CallingCodes::one(33),
            Self::GA => CallingCodes::one(241),
            Self::GB => CallingCodes::one(44),
            Self::GD => CallingCodes::one(1),
            Self::GE => CallingCodes::one(995),
            Self::GF => CallingCodes::one(594),
            Self::GG => CallingCodes::one(441481),
            Self::GH => CallingCodes::one(233),
            Self::GI => CallingCodes::one(350),
            Self::GL => CallingCodes::one(299),
            Self::GM => CallingCodes::one(220),
            Self::GN => CallingCodes::one(224),
            Self::GP => CallingCodes::one(590),
            Self::GQ => CallingCodes::one(240),
            Self::GR => CallingCodes::one(30),
            Self::GT => CallingCodes::one(502),
            Self::GU => CallingCodes::one(1),
            Self::GW => CallingCodes::one(245),
            Self::GY => CallingCodes::one(592),
            Self::HK => CallingCodes::one(852),
            Self::HN => CallingCodes::one(504),
            Self::HR => CallingCodes::one(385),
            Self::HT => CallingCodes::one(509),
            Self::HU => CallingCodes::one(36),
            Self::ID => CallingCodes::one(62),
            Self::IE => CallingCodes::one(353),
            Self::IL => CallingCodes::one(972),
            Self::IM => CallingCodes::one(441624),
            Self::IN => CallingCodes::one(91),
            Self::IO => CallingCodes::one(246),
            Self::IQ => CallingCodes::one(964),
            Self::IR => CallingCodes::one(98),
            Self::IS => CallingCodes::one(354),
            Self::IT => CallingCodes::one(39),
            Self::JE => CallingCodes::one(441534),
            Self::JM => CallingCodes::one(1),
            Self::JO => CallingCodes::one(962),
            Self::JP => CallingCodes::one(81),
            Self::KE => CallingCodes::one(254),
            Self::KG => CallingCodes::one(996),
            Self::KH => CallingCodes::one(855),
            Self::KI => CallingCodes::one(686),
            Self::KM => CallingCodes::one(269),
            Self::KN => CallingCodes::one(1),
            Self::KP => CallingCodes::one(850),
            Self::KR => CallingCodes::one(82),
            Self::KW => CallingCodes::one(965),
            Self::KY => CallingCodes::one(1),
            Self::KZ => CallingCodes::one(7),
            Self::LA => CallingCodes::one(856),
            Self::LB => CallingCodes::one(961),
            Self::LC => CallingCodes::one(1),
            Self::LI => CallingCodes::one(423),
            Self::LK => CallingCodes::one(94),
            Self::LR => CallingCodes::one(231),
            Self::LS => CallingCodes::one(266),
            Self::LT => CallingCodes::one(370),
            Self::LU => CallingCodes::one(352),
            Self::LV => CallingCodes::one(371),
            Self::LY => CallingCodes::one(218),
            Self::MA => CallingCodes::one(212),
            Self::MC => CallingCodes::one(377),
            Self::MD => CallingCodes::one(373),
            Self::ME => CallingCodes::one(382),
            Self::MG => CallingCodes::one(261),
            Self::MH => CallingCodes::one(692),
            Self::MK => CallingCodes::one(389),
            Self::ML => CallingCodes::one(223),
            Self::MM => CallingCodes::one(95),
            Self::MN => CallingCodes::one(976),
            Self::MO => CallingCodes::one(853),
            Self::MP => CallingCodes::one(1),
            Self::MQ => CallingCodes::one(596),
            Self::MR => CallingCodes::one(222),
            Self::MS => CallingCodes::one(1),
            Self::MT => CallingCodes::one(356),
            Self::MU => CallingCodes::one(230),
            Self::MV => CallingCodes::one(960),
            Self::MW => CallingCodes::one(265),
            Self::MX => CallingCodes::one(52),
            Self::MY => CallingCodes::one(60),
            Self::MZ => CallingCodes::one(258),
            Self::NA => CallingCodes::one(264),
            Self::NC => CallingCodes::one(687),
            Self::NE => CallingCodes::one(227),
            Self::NF => CallingCodes::one(6723),
            Self::NG => CallingCodes::one(234),
            Self::NI => CallingCodes::one(505),
            Self::NL => CallingCodes::one(31),
            Self::NO => CallingCodes::one(47),
            Self::NP => CallingCodes::one(977),
            Self::NR => CallingCodes::one(674),
            Self::NU => CallingCodes::one(683),
            Self::NZ => CallingCodes::one(64),
            Self::OM => CallingCodes::one(968),
            Self::PA => CallingCodes::one(507),
            Self::PE => CallingCodes::one(51),
            Self::PF => CallingCodes::one(689),
            Self::PG => CallingCodes::one(675),
            Self::PH => CallingCodes::one(63),
            Self::PK => CallingCodes::one(92),
            Self::PL => CallingCodes::one(48),
            Self::PM => CallingCodes::one(508),
            Self::PR => CallingCodes::one(1),
            Self::PS => CallingCodes::one(970),
            Self::PT => CallingCodes::one(351),
            Self::PW => CallingCodes::one(680),
            Self::PY => CallingCodes::one(595),
            Self::QA => CallingCodes::one(974),
            Self::RE => CallingCodes::one(262),
            Self::RO => CallingCodes::one(40),
            Self::RS => CallingCodes::one(381),
            Self::RU => CallingCodes::one(7),
            Self::RW => CallingCodes::one(250),
            Self::SA => CallingCodes::one(966),
            Self::SB => CallingCodes::one(677),
            Self::SC => CallingCodes::one(248),
            Self::SD => CallingCodes::one(249),
            Self::SE => CallingCodes::one(46),
            Self::SG => CallingCodes::one(65),
            Self::SH => CallingCodes::one(290),
            Self::SI => CallingCodes::one(386),
            Self::SJ => CallingCodes::one(4779),
            Self::SK => CallingCodes::one(421),
            Self::SL => CallingCodes::one(232),
            Self::SM => CallingCodes::one(378),
            Self::SN => CallingCodes::one(221),
            Self::SO => CallingCodes::one(252),
            Self::SR => CallingCodes::one(597),
            Self::SS => CallingCodes::one(211),
            Self::ST => CallingCodes::one(239),
            Self::SV => CallingCodes::one(503),
            Self::SX => CallingCodes::one(1),
            Self::SY => CallingCodes::one(963),
            Self::SZ => CallingCodes::one(268),
            Self::TC => CallingCodes::one(1),
            Self::TD => CallingCodes::one(235),
            Self::TG => CallingCodes::one(228),
            Self::TH => CallingCodes::one(66),
            Self::TJ => CallingCodes::one(992),
            Self::TK => CallingCodes::one(690),
            Self::TL => CallingCodes::one(670),
            Self::TM => CallingCodes::one(993),
            Self::TN => CallingCodes::one(216),
            Self::TO => CallingCodes::one(676),
            Self::TR => CallingCodes::one(90),
            Self::TT => CallingCodes::one(1),
            Self::TV => CallingCodes::one(688),
            Self::TW => CallingCodes::one(886),
            Self::TZ => CallingCodes::one(255),
            Self::UA => CallingCodes::one(380),
            Self::UG => CallingCodes::one(256),
            Self::UY => CallingCodes::one(598),
            Self::UZ => CallingCodes::one(998),
            Self::VA => CallingCodes::one(379),
            Self::VC => CallingCodes::one(1),
            Self::VE => CallingCodes::one(58),
            Self::VG => CallingCodes::one(1),
            Self::VI => CallingCodes::one(1),
            Self::VN => CallingCodes::one(84),
            Self::VU => CallingCodes::one(678),
            Self::WF => CallingCodes::one(681),
            Self::WS => CallingCodes::one(685),
            Self::XG => CallingCodes::one(881),
            Self::XN => CallingCodes::one(870),
            Self::XP => CallingCodes::one(878),
            Self::XS => CallingCodes::one(808),
            Self::XT => CallingCodes::one(800),
            Self::XV => CallingCodes::two(882, 883),
            Self::YE => CallingCodes::one(967),
            Self::YT => CallingCodes::one(262),
            Self::ZA => CallingCodes::one(27),
            Self::ZM => CallingCodes::one(260),
            Self::ZW => CallingCodes::one(263),
        }
    }
}

} // verus!
