//! Types and parsers for the synthetic population dataset.
//!
//! The dataset encodes home, school, and workplace identifiers as decimal
//! digit strings with a FIPS geographic prefix. Each row of a data file
//! describes one person: an age, then a home identifier (11-digit tract plus
//! a 4-digit sequential id), a school identifier (public: 11-digit tract
//! plus a 3-digit id; private: 5-digit county, the marker `xprvx`, and a
//! 4-digit id), and a workplace identifier (11-digit tract plus a 5-digit
//! id).

use vstd::prelude::*;
use crate::fips_code::FIPSCode;
use crate::parser::digit_prefix_len;
use crate::parser::digits_value;
use crate::parser::parse_integer;

pub mod errors;
pub mod parser;

use parser::home_parse_ok;
use parser::is_home_code;
use parser::is_school_code;
use parser::is_workplace_code;
use parser::parse_fips_home_id;
use parser::parse_fips_school_id;
use parser::parse_fips_workplace_id;
use parser::school_parse_ok;
use parser::workplace_parse_ok;

verus! {

/// The identifier space a packed code belongs to. Not part of the FIPS
/// scheme itself; implicit in the synthetic population dataset.
#[derive(Copy, Clone, PartialEq, Eq, Structural, Hash, Debug)]
pub enum SettingCategory {
    /// Applications that do not use the category leave the field zeroed.
    Unspecified,
    Home,
    Workplace,
    PublicSchool,
    PrivateSchool,
    CensusTract,
}

impl SettingCategory {
    /// The numeric tag of this category in the packed code's category field.
    pub open spec fn spec_encode(self) -> u8 {
        match self {
            SettingCategory::Unspecified => 0,
            SettingCategory::Home => 1,
            SettingCategory::Workplace => 2,
            SettingCategory::PublicSchool => 3,
            SettingCategory::PrivateSchool => 4,
            SettingCategory::CensusTract => 5,
        }
    }

    /// The category a numeric tag stands for, if the tag is in range.
    pub open spec fn spec_decode(value: u8) -> Option<SettingCategory> {
        match value {
            0 => Some(SettingCategory::Unspecified),
            1 => Some(SettingCategory::Home),
            2 => Some(SettingCategory::Workplace),
            3 => Some(SettingCategory::PublicSchool),
            4 => Some(SettingCategory::PrivateSchool),
            5 => Some(SettingCategory::CensusTract),
            _ => None,
        }
    }

    /// Decode a numeric tag to a `SettingCategory`; tags outside the known
    /// range decode to `None`.
    pub fn decode(value: u8) -> (category: Option<SettingCategory>)
        ensures
            category == SettingCategory::spec_decode(value),
    {
        match value {
            0 => Some(SettingCategory::Unspecified),
            1 => Some(SettingCategory::Home),
            2 => Some(SettingCategory::Workplace),
            3 => Some(SettingCategory::PublicSchool),
            4 => Some(SettingCategory::PrivateSchool),
            5 => Some(SettingCategory::CensusTract),
            _ => None,
        }
    }

    /// The display label of this category.
    pub open spec fn spec_label(self) -> Seq<char> {
        match self {
            SettingCategory::Unspecified => "Unspecified"@,
            SettingCategory::Home => "Home"@,
            SettingCategory::Workplace => "Workplace"@,
            SettingCategory::PublicSchool => "Public School"@,
            SettingCategory::PrivateSchool => "Private School"@,
            SettingCategory::CensusTract => "Census Tract"@,
        }
    }

    /// The display label of this category, for diagnostics.
    pub fn label(self) -> (label: &'static str)
        ensures
            label@ == self.spec_label(),
    {
        match self {
            SettingCategory::Unspecified => "Unspecified",
            SettingCategory::Home => "Home",
            SettingCategory::Workplace => "Workplace",
            SettingCategory::PublicSchool => "Public School",
            SettingCategory::PrivateSchool => "Private School",
            SettingCategory::CensusTract => "Census Tract",
        }
    }

    /// Encode a `SettingCategory` as its numeric tag.
    pub fn encode(self) -> (value: u8)
        ensures
            value == self.spec_encode(),
    {
        match self {
            SettingCategory::Unspecified => 0,
            SettingCategory::Home => 1,
            SettingCategory::Workplace => 2,
            SettingCategory::PublicSchool => 3,
            SettingCategory::PrivateSchool => 4,
            SettingCategory::CensusTract => 5,
        }
    }
}

impl Default for SettingCategory {
    /// The default category is `Unspecified`.
    fn default() -> (category: Self)
        ensures
            category == SettingCategory::Unspecified,
    {
        SettingCategory::Unspecified
    }
}

/// Every category tag is at most 5, so a category always fits the four-bit
/// category field of a packed code.
pub proof fn lemma_category_code_bounds(category: SettingCategory)
    ensures
        category.spec_encode() <= 5,
{
}

/// Encoding a category and decoding the result gives the category back.
pub proof fn lemma_category_encode_decode(category: SettingCategory)
    ensures
        SettingCategory::spec_decode(category.spec_encode()) == Some(category),
{
}

/// Decoding an in-range tag and encoding the result gives the tag back.
pub proof fn lemma_category_decode_encode(value: u8)
    requires
        SettingCategory::spec_decode(value) is Some,
    ensures
        SettingCategory::spec_decode(value).unwrap().spec_encode() == value,
{
}

/// One person of the synthetic population dataset. Each identifier is
/// independently absent when its column failed to parse.
#[derive(Copy, Clone, PartialEq, Eq, Hash, Debug)]
pub struct ASPRPersonRecord {
    pub age: u8,
    pub home_id: Option<FIPSCode>,
    pub school_id: Option<FIPSCode>,
    pub work_id: Option<FIPSCode>,
}

/// The age column of a data row is a plain decimal number that fits the
/// age field: nonempty, digits through to its end, and at most 255.
pub open spec fn age_ok(s: Seq<char>) -> bool {
    &&& s.len() >= 1
    &&& digit_prefix_len(s) == s.len()
    &&& digits_value(s) <= 255
}

impl ASPRPersonRecord {
    /// Assemble one person record from the four column values of a data
    /// row. Returns `None` when the age column is not a plain decimal
    /// number fitting the age field - a malformed row rather than a
    /// recoverable error. Each identifier column is parsed with its
    /// category's composite parser; a column that fails to parse leaves
    /// that identifier absent without affecting the others.
    pub fn from_fields(
        age_field: &str,
        home_field: &str,
        school_field: &str,
        work_field: &str,
    ) -> (record: Option<ASPRPersonRecord>)
        ensures
            (match record {
                Some(r) => {
                    &&& age_ok(age_field@)
                    &&& r.age as nat == digits_value(age_field@)
                    &&& (match r.home_id {
                        Some(code) => home_parse_ok(home_field@) && is_home_code(
                            home_field@,
                            code@,
                        ),
                        None => !home_parse_ok(home_field@),
                    })
                    &&& (match r.school_id {
                        Some(code) => school_parse_ok(school_field@) && is_school_code(
                            school_field@,
                            code@,
                        ),
                        None => !school_parse_ok(school_field@),
                    })
                    &&& (match r.work_id {
                        Some(code) => workplace_parse_ok(work_field@) && is_workplace_code(
                            work_field@,
                            code@,
                        ),
                        None => !workplace_parse_ok(work_field@),
                    })
                },
                None => !age_ok(age_field@),
            }),
    {
        proof {
            crate::parser::lemma_digit_prefix_len_spec(age_field@);
            if digit_prefix_len(age_field@) == age_field@.len() {
                assert(age_field@.take(digit_prefix_len(age_field@) as int) =~= age_field@);
            }
        }
        let age = match parse_integer(age_field) {
            Ok((rest, value)) => {
                if rest.is_empty() && value <= 255 {
                    value as u8
                } else {
                    return None;
                }
            },
            Err(_) => {
                return None;
            },
        };
        let home_id = match parse_fips_home_id(home_field) {
            Ok((_, code)) => Some(code),
            Err(_) => None,
        };
        let school_id = match parse_fips_school_id(school_field) {
            Ok((_, code)) => Some(code),
            Err(_) => None,
        };
        let work_id = match parse_fips_workplace_id(work_field) {
            Ok((_, code)) => Some(code),
            Err(_) => None,
        };
        Some(ASPRPersonRecord { age, home_id, school_id, work_id })
    }
}

impl Default for ASPRPersonRecord {
    /// The default record has age zero and no identifiers.
    fn default() -> (record: Self)
        ensures
            record.age == 0,
            record.home_id is None,
            record.school_id is None,
            record.work_id is None,
    {
        ASPRPersonRecord { age: 0, home_id: None, school_id: None, work_id: None }
    }
}

} // verus!
