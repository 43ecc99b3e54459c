//! The enumerated state and territory codes that may stand in the state
//! field of a packed code.
//!
//! The numeric codes follow the standard FIPS state numbering for the fifty
//! states and the District of Columbia. The five territories fill the gaps
//! that the standard numbering leaves below 57, in alphabetical order, and
//! the Hawaiian coastal zone sits above the states at 59. Every recognized
//! code is at least 1 and at most 63, so a state always fits the six-bit
//! state field and a validly constructed packed code is never zero.

use vstd::prelude::*;

verus! {

/// A US state, the District of Columbia, a territory, or a coastal zone,
/// as enumerated by the synthetic-population dataset.
#[derive(Copy, Clone, PartialEq, Eq, Structural, Hash, Debug)]
pub enum USState {
    AL,
    AK,
    AmericanSamoa,
    AZ,
    AR,
    CA,
    Guam,
    CO,
    CT,
    DE,
    DC,
    FL,
    GA,
    NorthernMarianaIslands,
    HI,
    ID,
    IL,
    IN,
    IA,
    KS,
    KY,
    LA,
    ME,
    MD,
    MA,
    MI,
    MN,
    MS,
    MO,
    MT,
    NE,
    NV,
    NH,
    NJ,
    NM,
    NY,
    NC,
    ND,
    OH,
    OK,
    OR,
    PA,
    PuertoRico,
    RI,
    SC,
    SD,
    TN,
    TX,
    UT,
    VT,
    VA,
    VirginIslandsOfTheUS,
    WA,
    WV,
    WI,
    WY,
    HawaiianCoast,
}

impl USState {
    /// The numeric state code of this state.
    pub open spec fn spec_encode(self) -> u8 {
        match self {
            USState::AL => 1,
            USState::AK => 2,
            USState::AmericanSamoa => 3,
            USState::AZ => 4,
            USState::AR => 5,
            USState::CA => 6,
            USState::Guam => 7,
            USState::CO => 8,
            USState::CT => 9,
            USState::DE => 10,
            USState::DC => 11,
            USState::FL => 12,
            USState::GA => 13,
            USState::NorthernMarianaIslands => 14,
            USState::HI => 15,
            USState::ID => 16,
            USState::IL => 17,
            USState::IN => 18,
            USState::IA => 19,
            USState::KS => 20,
            USState::KY => 21,
            USState::LA => 22,
            USState::ME => 23,
            USState::MD => 24,
            USState::MA => 25,
            USState::MI => 26,
            USState::MN => 27,
            USState::MS => 28,
            USState::MO => 29,
            USState::MT => 30,
            USState::NE => 31,
            USState::NV => 32,
            USState::NH => 33,
            USState::NJ => 34,
            USState::NM => 35,
            USState::NY => 36,
            USState::NC => 37,
            USState::ND => 38,
            USState::OH => 39,
            USState::OK => 40,
            USState::OR => 41,
            USState::PA => 42,
            USState::PuertoRico => 43,
            USState::RI => 44,
            USState::SC => 45,
            USState::SD => 46,
            USState::TN => 47,
            USState::TX => 48,
            USState::UT => 49,
            USState::VT => 50,
            USState::VA => 51,
            USState::VirginIslandsOfTheUS => 52,
            USState::WA => 53,
            USState::WV => 54,
            USState::WI => 55,
            USState::WY => 56,
            USState::HawaiianCoast => 59,
        }
    }

    /// The state enumerated by a numeric code, if the code is recognized.
    pub open spec fn spec_decode(code: u8) -> Option<USState> {
        match code {
            1 => Some(USState::AL),
            2 => Some(USState::AK),
            3 => Some(USState::AmericanSamoa),
            4 => Some(USState::AZ),
            5 => Some(USState::AR),
            6 => Some(USState::CA),
            7 => Some(USState::Guam),
            8 => Some(USState::CO),
            9 => Some(USState::CT),
            10 => Some(USState::DE),
            11 => Some(USState::DC),
            12 => Some(USState::FL),
            13 => Some(USState::GA),
            14 => Some(USState::NorthernMarianaIslands),
            15 => Some(USState::HI),
            16 => Some(USState::ID),
            17 => Some(USState::IL),
            18 => Some(USState::IN),
            19 => Some(USState::IA),
            20 => Some(USState::KS),
            21 => Some(USState::KY),
            22 => Some(USState::LA),
            23 => Some(USState::ME),
            24 => Some(USState::MD),
            25 => Some(USState::MA),
            26 => Some(USState::MI),
            27 => Some(USState::MN),
            28 => Some(USState::MS),
            29 => Some(USState::MO),
            30 => Some(USState::MT),
            31 => Some(USState::NE),
            32 => Some(USState::NV),
            33 => Some(USState::NH),
            34 => Some(USState::NJ),
            35 => Some(USState::NM),
            36 => Some(USState::NY),
            37 => Some(USState::NC),
            38 => Some(USState::ND),
            39 => Some(USState::OH),
            40 => Some(USState::OK),
            41 => Some(USState::OR),
            42 => Some(USState::PA),
            43 => Some(USState::PuertoRico),
            44 => Some(USState::RI),
            45 => Some(USState::SC),
            46 => Some(USState::SD),
            47 => Some(USState::TN),
            48 => Some(USState::TX),
            49 => Some(USState::UT),
            50 => Some(USState::VT),
            51 => Some(USState::VA),
            52 => Some(USState::VirginIslandsOfTheUS),
            53 => Some(USState::WA),
            54 => Some(USState::WV),
            55 => Some(USState::WI),
            56 => Some(USState::WY),
            59 => Some(USState::HawaiianCoast),
            _ => None,
        }
    }

    /// Encode this state as its numeric state code.
    pub fn encode(self) -> (code: u8)
        ensures
            code == self.spec_encode(),
    {
        match self {
            USState::AL => 1,
            USState::AK => 2,
            USState::AmericanSamoa => 3,
            USState::AZ => 4,
            USState::AR => 5,
            USState::CA => 6,
            USState::Guam => 7,
            USState::CO => 8,
            USState::CT => 9,
            USState::DE => 10,
            USState::DC => 11,
            USState::FL => 12,
            USState::GA => 13,
            USState::NorthernMarianaIslands => 14,
            USState::HI => 15,
            USState::ID => 16,
            USState::IL => 17,
            USState::IN => 18,
            USState::IA => 19,
            USState::KS => 20,
            USState::KY => 21,
            USState::LA => 22,
            USState::ME => 23,
            USState::MD => 24,
            USState::MA => 25,
            USState::MI => 26,
            USState::MN => 27,
            USState::MS => 28,
            USState::MO => 29,
            USState::MT => 30,
            USState::NE => 31,
            USState::NV => 32,
            USState::NH => 33,
            USState::NJ => 34,
            USState::NM => 35,
            USState::NY => 36,
            USState::NC => 37,
            USState::ND => 38,
            USState::OH => 39,
            USState::OK => 40,
            USState::OR => 41,
            USState::PA => 42,
            USState::PuertoRico => 43,
            USState::RI => 44,
            USState::SC => 45,
            USState::SD => 46,
            USState::TN => 47,
            USState::TX => 48,
            USState::UT => 49,
            USState::VT => 50,
            USState::VA => 51,
            USState::VirginIslandsOfTheUS => 52,
            USState::WA => 53,
            USState::WV => 54,
            USState::WI => 55,
            USState::WY => 56,
            USState::HawaiianCoast => 59,
        }
    }

    /// Decode a numeric state code to the state it enumerates, or `None`
    /// if the code is not recognized.
    pub fn decode(code: u8) -> (state: Option<USState>)
        ensures
            state == USState::spec_decode(code),
    {
        match code {
            1 => Some(USState::AL),
            2 => Some(USState::AK),
            3 => Some(USState::AmericanSamoa),
            4 => Some(USState::AZ),
            5 => Some(USState::AR),
            6 => Some(USState::CA),
            7 => Some(USState::Guam),
            8 => Some(USState::CO),
            9 => Some(USState::CT),
            10 => Some(USState::DE),
            11 => Some(USState::DC),
            12 => Some(USState::FL),
            13 => Some(USState::GA),
            14 => Some(USState::NorthernMarianaIslands),
            15 => Some(USState::HI),
            16 => Some(USState::ID),
            17 => Some(USState::IL),
            18 => Some(USState::IN),
            19 => Some(USState::IA),
            20 => Some(USState::KS),
            21 => Some(USState::KY),
            22 => Some(USState::LA),
            23 => Some(USState::ME),
            24 => Some(USState::MD),
            25 => Some(USState::MA),
            26 => Some(USState::MI),
            27 => Some(USState::MN),
            28 => Some(USState::MS),
            29 => Some(USState::MO),
            30 => Some(USState::MT),
            31 => Some(USState::NE),
            32 => Some(USState::NV),
            33 => Some(USState::NH),
            34 => Some(USState::NJ),
            35 => Some(USState::NM),
            36 => Some(USState::NY),
            37 => Some(USState::NC),
            38 => Some(USState::ND),
            39 => Some(USState::OH),
            40 => Some(USState::OK),
            41 => Some(USState::OR),
            42 => Some(USState::PA),
            43 => Some(USState::PuertoRico),
            44 => Some(USState::RI),
            45 => Some(USState::SC),
            46 => Some(USState::SD),
            47 => Some(USState::TN),
            48 => Some(USState::TX),
            49 => Some(USState::UT),
            50 => Some(USState::VT),
            51 => Some(USState::VA),
            52 => Some(USState::VirginIslandsOfTheUS),
            53 => Some(USState::WA),
            54 => Some(USState::WV),
            55 => Some(USState::WI),
            56 => Some(USState::WY),
            59 => Some(USState::HawaiianCoast),
            _ => None,
        }
    }

    /// Whether a numeric code is a recognized state code.
    pub fn valid_code(code: u8) -> (valid: bool)
        ensures
            valid == USState::spec_decode(code) is Some,
    {
        USState::decode(code).is_some()
    }
}

/// Every recognized state code is at least 1 and fits the six-bit state
/// field, so a packed code with a valid state field is never zero.
pub proof fn lemma_state_code_bounds(state: USState)
    ensures
        1 <= state.spec_encode() <= 63,
{
}

/// Encoding a state and decoding the result gives the state back.
pub proof fn lemma_state_encode_decode(state: USState)
    ensures
        USState::spec_decode(state.spec_encode()) == Some(state),
{
}

/// Decoding a recognized code and encoding the result gives the code back.
pub proof fn lemma_state_decode_encode(code: u8)
    requires
        USState::spec_decode(code) is Some,
    ensures
        USState::spec_decode(code).unwrap().spec_encode() == code,
{
}

} // verus!
