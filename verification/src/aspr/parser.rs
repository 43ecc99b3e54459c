//! Parsers for the concatenated identifier strings of the synthetic
//! population dataset: the per-field digit parsers and the composite
//! parsers that assemble a packed code for a home, school, or workplace
//! identifier.
//!
//! A composite parser chains the state, county, and remaining field parsers
//! against a shared cursor, threading the unconsumed remainder forward; the
//! first sub-parser failure short-circuits the whole parse, preserving the
//! remainder at the point of failure. Because every sub-parser enforces its
//! field's bit capacity, the final packed-code construction is proven
//! in-range: the capacity violation the dataset format cannot produce is
//! ruled out statically rather than checked at run time.

use vstd::prelude::*;
use crate::CountyCode;
use crate::IdCode;
use crate::TractCode;
use crate::aspr::SettingCategory;
use crate::fips_code::FIPSCode;
use crate::fips_code::category_of;
use crate::fips_code::county_of;
use crate::fips_code::data_of;
use crate::fips_code::id_of;
use crate::fips_code::state_of;
use crate::fips_code::tract_of;
use crate::parser::FIPSParseResult;
use crate::parser::FIPSParserError;
use crate::parser::digits_value;
use crate::parser::fixed_parse_error;
use crate::parser::fixed_parse_ok;
use crate::parser::has_digits;
use crate::parser::lemma_bit_capacity_values;
use crate::parser::lemma_digits_value_bound;
use crate::parser::parse_decimal_digits_to_bits;
use crate::parser::parse_state_code;
use crate::parser::pow10;
use crate::parser::state_parse_error;
use crate::parser::state_parse_ok;
use crate::states::USState;
use crate::states::lemma_state_decode_encode;

verus! {

/// Parses the first three digits of `input` as a county code. Enforces the
/// requirement that the value is representable using 10 bits (which is
/// tautologically always true of three digits).
pub fn parse_county_code<'a>(input: &'a str) -> (result: FIPSParseResult<'a, CountyCode>)
    ensures
        (match result {
            Ok((rest, county)) => {
                &&& fixed_parse_ok(input@, 3, 1023)
                &&& county as nat == digits_value(input@.take(3))
                &&& county <= 1023
                &&& rest@ == input@.skip(3)
            },
            Err((remaining, error)) => {
                &&& !fixed_parse_ok(input@, 3, 1023)
                &&& remaining@ == input@
                &&& error == fixed_parse_error(input@, 3, 1023)
            },
        }),
{
    proof {
        lemma_bit_capacity_values();
    }
    match parse_decimal_digits_to_bits(3, 10, input) {
        Ok((rest, value)) => Ok((rest, value as CountyCode)),
        Err(failure) => Err(failure),
    }
}

/// Parses the first six digits of `input` as a census tract code. Enforces
/// the requirement that the value is representable using 20 bits (which is
/// tautologically always true of six digits).
pub fn parse_tract_code<'a>(input: &'a str) -> (result: FIPSParseResult<'a, TractCode>)
    ensures
        (match result {
            Ok((rest, tract)) => {
                &&& fixed_parse_ok(input@, 6, 1048575)
                &&& tract as nat == digits_value(input@.take(6))
                &&& tract <= 1048575
                &&& rest@ == input@.skip(6)
            },
            Err((remaining, error)) => {
                &&& !fixed_parse_ok(input@, 6, 1048575)
                &&& remaining@ == input@
                &&& error == fixed_parse_error(input@, 6, 1048575)
            },
        }),
{
    proof {
        lemma_bit_capacity_values();
    }
    match parse_decimal_digits_to_bits(6, 20, input) {
        Ok((rest, value)) => Ok((rest, value as TractCode)),
        Err(failure) => Err(failure),
    }
}

/// Parses the first four digits of `input` as a (monotonically increasing)
/// home id number. Enforces the requirement that the value is representable
/// using 14 bits (which is tautologically always true of four digits).
pub fn parse_home_id<'a>(input: &'a str) -> (result: FIPSParseResult<'a, IdCode>)
    ensures
        (match result {
            Ok((rest, id)) => {
                &&& fixed_parse_ok(input@, 4, 16383)
                &&& id as nat == digits_value(input@.take(4))
                &&& id <= 16383
                &&& rest@ == input@.skip(4)
            },
            Err((remaining, error)) => {
                &&& !fixed_parse_ok(input@, 4, 16383)
                &&& remaining@ == input@
                &&& error == fixed_parse_error(input@, 4, 16383)
            },
        }),
{
    proof {
        lemma_bit_capacity_values();
    }
    match parse_decimal_digits_to_bits(4, 14, input) {
        Ok((rest, value)) => Ok((rest, value as IdCode)),
        Err(failure) => Err(failure),
    }
}

/// Parses the first three digits of `input` as a (monotonically increasing)
/// public-school id number. Enforces the requirement that the value is
/// representable using 10 bits (a tautology in this case).
pub fn parse_public_school_id<'a>(input: &'a str) -> (result: FIPSParseResult<'a, IdCode>)
    ensures
        (match result {
            Ok((rest, id)) => {
                &&& fixed_parse_ok(input@, 3, 1023)
                &&& id as nat == digits_value(input@.take(3))
                &&& id <= 1023
                &&& rest@ == input@.skip(3)
            },
            Err((remaining, error)) => {
                &&& !fixed_parse_ok(input@, 3, 1023)
                &&& remaining@ == input@
                &&& error == fixed_parse_error(input@, 3, 1023)
            },
        }),
{
    proof {
        lemma_bit_capacity_values();
    }
    match parse_decimal_digits_to_bits(3, 10, input) {
        Ok((rest, value)) => Ok((rest, value as IdCode)),
        Err(failure) => Err(failure),
    }
}

/// Parses the first five digits of `input` as a (monotonically increasing)
/// workplace id number. Enforces the requirement that the value is
/// representable using 14 bits.
pub fn parse_workplace_id<'a>(input: &'a str) -> (result: FIPSParseResult<'a, IdCode>)
    ensures
        (match result {
            Ok((rest, id)) => {
                &&& fixed_parse_ok(input@, 5, 16383)
                &&& id as nat == digits_value(input@.take(5))
                &&& id <= 16383
                &&& rest@ == input@.skip(5)
            },
            Err((remaining, error)) => {
                &&& !fixed_parse_ok(input@, 5, 16383)
                &&& remaining@ == input@
                &&& error == fixed_parse_error(input@, 5, 16383)
            },
        }),
{
    proof {
        lemma_bit_capacity_values();
    }
    match parse_decimal_digits_to_bits(5, 14, input) {
        Ok((rest, value)) => Ok((rest, value as IdCode)),
        Err(failure) => Err(failure),
    }
}

/// The literal marker that may precede a private-school id.
pub open spec fn private_marker() -> Seq<char> {
    seq!['x', 'p', 'r', 'v', 'x']
}

/// Whether `s` begins with the private-school marker.
pub open spec fn has_private_marker(s: Seq<char>) -> bool {
    s.len() >= 5 && s.take(5) == private_marker()
}

/// What remains of a private-school id string once an optional leading
/// marker is stripped.
pub open spec fn private_school_payload(s: Seq<char>) -> Seq<char> {
    if has_private_marker(s) {
        s.skip(5)
    } else {
        s
    }
}

/// The marker is irrelevant to a private-school parse: prefixing the marker
/// to an input that does not itself begin with the marker leaves the parsed
/// payload unchanged, so both spellings yield identical outcomes.
pub proof fn lemma_private_marker_irrelevant(s: Seq<char>)
    requires
        !has_private_marker(s),
    ensures
        private_school_payload(private_marker() + s) == private_school_payload(s),
        private_school_payload(s) == s,
{
    assert((private_marker() + s).take(5) =~= private_marker());
    assert((private_marker() + s).skip(5) =~= s);
}

/// Strip one leading private-school marker from `input`, if it is there.
fn strip_private_marker<'a>(input: &'a str) -> (stripped: &'a str)
    ensures
        stripped@ == private_school_payload(input@),
{
    let len = input.unicode_len();
    if len >= 5 && input.get_char(0) == 'x' && input.get_char(1) == 'p' && input.get_char(2) == 'r'
        && input.get_char(3) == 'v' && input.get_char(4) == 'x' {
        proof {
            assert(input@.take(5) =~= private_marker());
        }
        input.substring_char(5, len)
    } else {
        proof {
            if has_private_marker(input@) {
                assert(input@.take(5)[0] == input@[0]);
                assert(input@.take(5)[1] == input@[1]);
                assert(input@.take(5)[2] == input@[2]);
                assert(input@.take(5)[3] == input@[3]);
                assert(input@.take(5)[4] == input@[4]);
            }
        }
        input
    }
}

/// Parses the first four digits of `input` as a (monotonically increasing)
/// private-school id number, after stripping one leading `xprvx` marker if
/// it is there. Enforces the requirement that the value is representable
/// using 11 bits.
pub fn parse_private_school_id<'a>(input: &'a str) -> (result: FIPSParseResult<'a, IdCode>)
    ensures
        (match result {
            Ok((rest, id)) => {
                &&& fixed_parse_ok(private_school_payload(input@), 4, 2047)
                &&& id as nat == digits_value(private_school_payload(input@).take(4))
                &&& id <= 2047
                &&& rest@ == private_school_payload(input@).skip(4)
            },
            Err((remaining, error)) => {
                &&& !fixed_parse_ok(private_school_payload(input@), 4, 2047)
                &&& remaining@ == private_school_payload(input@)
                &&& error == fixed_parse_error(private_school_payload(input@), 4, 2047)
            },
        }),
{
    proof {
        lemma_bit_capacity_values();
    }
    let stripped = strip_private_marker(input);
    match parse_decimal_digits_to_bits(4, 11, stripped) {
        Ok((rest, value)) => Ok((rest, value as IdCode)),
        Err(failure) => Err(failure),
    }
}

/// A home identifier parses from `s`: a recognized two-digit state code,
/// then three county digits, six tract digits, and four home-id digits.
pub open spec fn home_parse_ok(s: Seq<char>) -> bool {
    &&& state_parse_ok(s)
    &&& fixed_parse_ok(s.skip(2), 3, 1023)
    &&& fixed_parse_ok(s.skip(5), 6, 1048575)
    &&& fixed_parse_ok(s.skip(11), 4, 16383)
}

/// The remainder and error of the first failing stage of a home parse.
pub open spec fn home_parse_failure(s: Seq<char>) -> (Seq<char>, FIPSParserError) {
    if !state_parse_ok(s) {
        (s, state_parse_error(s))
    } else if !fixed_parse_ok(s.skip(2), 3, 1023) {
        (s.skip(2), fixed_parse_error(s.skip(2), 3, 1023))
    } else if !fixed_parse_ok(s.skip(5), 6, 1048575) {
        (s.skip(5), fixed_parse_error(s.skip(5), 6, 1048575))
    } else {
        (s.skip(11), fixed_parse_error(s.skip(11), 4, 16383))
    }
}

/// The packed value `code` holds exactly the fields a home identifier
/// parse of `s` produces: category Home, data zero, and the state, county,
/// tract, and id digits of `s` at their positions.
pub open spec fn is_home_code(s: Seq<char>, code: u64) -> bool {
    &&& state_of(code) == digits_value(s.take(2)) as u64
    &&& county_of(code) == digits_value(s.skip(2).take(3)) as u64
    &&& tract_of(code) == digits_value(s.skip(5).take(6)) as u64
    &&& category_of(code) == SettingCategory::Home.spec_encode() as u64
    &&& id_of(code) == digits_value(s.skip(11).take(4)) as u64
    &&& data_of(code) == 0
}

/// The encoded numeric state code equals the two parsed state digits.
proof fn lemma_parsed_state_encodes(s: Seq<char>, state: USState)
    requires
        has_digits(s, 2),
        Some(state) == USState::spec_decode(digits_value(s.take(2)) as u8),
    ensures
        state.spec_encode() as u64 == digits_value(s.take(2)) as u64,
{
    lemma_digits_value_bound(s.take(2));
    reveal_with_fuel(pow10, 3);
    assert(digits_value(s.take(2)) < 256);
    lemma_state_decode_encode(digits_value(s.take(2)) as u8);
}

/// Parses the input as a packed code for a home id: state code, county
/// (3 digits), tract (6 digits), then home id (4 digits); the category is
/// Home and the data region is zero. Returns the remaining input after the
/// fifteen digits together with the code. The first failing sub-parser
/// short-circuits the parse, preserving the remainder at the point of
/// failure. Every sub-parser enforces its field's bit capacity, so the
/// packed-code construction is proven in-range.
pub fn parse_fips_home_id<'a>(input: &'a str) -> (result: FIPSParseResult<'a, FIPSCode>)
    ensures
        (match result {
            Ok((rest, code)) => {
                &&& home_parse_ok(input@)
                &&& is_home_code(input@, code@)
                &&& rest@ == input@.skip(15)
            },
            Err((remaining, error)) => {
                &&& !home_parse_ok(input@)
                &&& remaining@ == home_parse_failure(input@).0
                &&& error == home_parse_failure(input@).1
            },
        }),
{
    let (rest, state) = match parse_state_code(input) {
        Ok(parsed) => parsed,
        Err(failure) => {
            return Err(failure);
        },
    };
    let (rest, county) = match parse_county_code(rest) {
        Ok(parsed) => parsed,
        Err(failure) => {
            return Err(failure);
        },
    };
    proof {
        assert(input@.skip(2).skip(3) =~= input@.skip(5));
    }
    let (rest, tract) = match parse_tract_code(rest) {
        Ok(parsed) => parsed,
        Err(failure) => {
            return Err(failure);
        },
    };
    proof {
        assert(input@.skip(5).skip(6) =~= input@.skip(11));
    }
    let (rest, home_id) = match parse_home_id(rest) {
        Ok(parsed) => parsed,
        Err(failure) => {
            return Err(failure);
        },
    };
    proof {
        assert(input@.skip(11).skip(4) =~= input@.skip(15));
        lemma_parsed_state_encodes(input@, state);
    }
    let fips_code = FIPSCode::new(state, county, tract, SettingCategory::Home, home_id, 0);
    Ok((rest, fips_code))
}

/// The school parse takes the private branch: after the five state and
/// county digits, the next character is the marker's leading letter.
pub open spec fn school_private_branch(s: Seq<char>) -> bool {
    s.len() > 5 && s[5] == 'x'
}

/// A school identifier parses from `s`: a recognized state code and three
/// county digits, then either a private-school id (when the character after
/// the county is the marker's leading letter) or a tract and a
/// public-school id.
pub open spec fn school_parse_ok(s: Seq<char>) -> bool {
    &&& state_parse_ok(s)
    &&& fixed_parse_ok(s.skip(2), 3, 1023)
    &&& (if school_private_branch(s) {
        fixed_parse_ok(private_school_payload(s.skip(5)), 4, 2047)
    } else {
        fixed_parse_ok(s.skip(5), 6, 1048575) && fixed_parse_ok(s.skip(11), 3, 1023)
    })
}

/// The remainder and error of the first failing stage of a school parse.
pub open spec fn school_parse_failure(s: Seq<char>) -> (Seq<char>, FIPSParserError) {
    if !state_parse_ok(s) {
        (s, state_parse_error(s))
    } else if !fixed_parse_ok(s.skip(2), 3, 1023) {
        (s.skip(2), fixed_parse_error(s.skip(2), 3, 1023))
    } else if school_private_branch(s) {
        (
            private_school_payload(s.skip(5)),
            fixed_parse_error(private_school_payload(s.skip(5)), 4, 2047),
        )
    } else if !fixed_parse_ok(s.skip(5), 6, 1048575) {
        (s.skip(5), fixed_parse_error(s.skip(5), 6, 1048575))
    } else {
        (s.skip(11), fixed_parse_error(s.skip(11), 3, 1023))
    }
}

/// The packed value `code` holds exactly the fields a school identifier
/// parse of `s` produces. On the private branch the category is
/// PrivateSchool, the tract is forced to zero, and the id digits follow the
/// optional marker; otherwise the category is PublicSchool with tract and
/// id digits at their positions. The data region is zero either way.
pub open spec fn is_school_code(s: Seq<char>, code: u64) -> bool {
    &&& state_of(code) == digits_value(s.take(2)) as u64
    &&& county_of(code) == digits_value(s.skip(2).take(3)) as u64
    &&& data_of(code) == 0
    &&& (if school_private_branch(s) {
        &&& tract_of(code) == 0
        &&& category_of(code) == SettingCategory::PrivateSchool.spec_encode() as u64
        &&& id_of(code) == digits_value(private_school_payload(s.skip(5)).take(4)) as u64
    } else {
        &&& tract_of(code) == digits_value(s.skip(5).take(6)) as u64
        &&& category_of(code) == SettingCategory::PublicSchool.spec_encode() as u64
        &&& id_of(code) == digits_value(s.skip(11).take(3)) as u64
    })
}

/// Parses the input as a packed code for a school id: state code and county
/// (3 digits), then a branch on the next character. The marker's leading
/// letter begins a private-school id (no tract field; the category is
/// PrivateSchool and the tract is zero); otherwise a tract (6 digits) and a
/// public-school id (3 digits) follow (category PublicSchool). The branch
/// cannot be decided before state and county are consumed. The first
/// failing sub-parser short-circuits the parse, preserving the remainder at
/// the point of failure; the construction is proven in-range.
pub fn parse_fips_school_id<'a>(input: &'a str) -> (result: FIPSParseResult<'a, FIPSCode>)
    ensures
        (match result {
            Ok((rest, code)) => {
                &&& school_parse_ok(input@)
                &&& is_school_code(input@, code@)
                &&& rest@ == (if school_private_branch(input@) {
                    private_school_payload(input@.skip(5)).skip(4)
                } else {
                    input@.skip(14)
                })
            },
            Err((remaining, error)) => {
                &&& !school_parse_ok(input@)
                &&& remaining@ == school_parse_failure(input@).0
                &&& error == school_parse_failure(input@).1
            },
        }),
{
    let (rest, state) = match parse_state_code(input) {
        Ok(parsed) => parsed,
        Err(failure) => {
            return Err(failure);
        },
    };
    let (rest, county) = match parse_county_code(rest) {
        Ok(parsed) => parsed,
        Err(failure) => {
            return Err(failure);
        },
    };
    proof {
        assert(input@.skip(2).skip(3) =~= input@.skip(5));
        if input@.skip(5).len() > 0 {
            assert(input@.skip(5)[0] == input@[5]);
        }
    }
    let private = rest.unicode_len() > 0 && rest.get_char(0) == 'x';
    if private {
        let (rest, school_id) = match parse_private_school_id(rest) {
            Ok(parsed) => parsed,
            Err(failure) => {
                return Err(failure);
            },
        };
        proof {
            lemma_parsed_state_encodes(input@, state);
        }
        let fips_code = FIPSCode::new(
            state,
            county,
            0,
            SettingCategory::PrivateSchool,
            school_id,
            0,
        );
        Ok((rest, fips_code))
    } else {
        let (rest, tract) = match parse_tract_code(rest) {
            Ok(parsed) => parsed,
            Err(failure) => {
                return Err(failure);
            },
        };
        proof {
            assert(input@.skip(5).skip(6) =~= input@.skip(11));
        }
        let (rest, school_id) = match parse_public_school_id(rest) {
            Ok(parsed) => parsed,
            Err(failure) => {
                return Err(failure);
            },
        };
        proof {
            assert(input@.skip(11).skip(3) =~= input@.skip(14));
            lemma_parsed_state_encodes(input@, state);
        }
        let fips_code = FIPSCode::new(
            state,
            county,
            tract,
            SettingCategory::PublicSchool,
            school_id,
            0,
        );
        Ok((rest, fips_code))
    }
}

/// A workplace identifier parses from `s`: a recognized two-digit state
/// code, then three county digits, six tract digits, and five workplace-id
/// digits whose value must fit fourteen bits.
pub open spec fn workplace_parse_ok(s: Seq<char>) -> bool {
    &&& state_parse_ok(s)
    &&& fixed_parse_ok(s.skip(2), 3, 1023)
    &&& fixed_parse_ok(s.skip(5), 6, 1048575)
    &&& fixed_parse_ok(s.skip(11), 5, 16383)
}

/// The remainder and error of the first failing stage of a workplace parse.
pub open spec fn workplace_parse_failure(s: Seq<char>) -> (Seq<char>, FIPSParserError) {
    if !state_parse_ok(s) {
        (s, state_parse_error(s))
    } else if !fixed_parse_ok(s.skip(2), 3, 1023) {
        (s.skip(2), fixed_parse_error(s.skip(2), 3, 1023))
    } else if !fixed_parse_ok(s.skip(5), 6, 1048575) {
        (s.skip(5), fixed_parse_error(s.skip(5), 6, 1048575))
    } else {
        (s.skip(11), fixed_parse_error(s.skip(11), 5, 16383))
    }
}

/// The packed value `code` holds exactly the fields a workplace identifier
/// parse of `s` produces: category Workplace, data zero, and the state,
/// county, tract, and id digits of `s` at their positions.
pub open spec fn is_workplace_code(s: Seq<char>, code: u64) -> bool {
    &&& state_of(code) == digits_value(s.take(2)) as u64
    &&& county_of(code) == digits_value(s.skip(2).take(3)) as u64
    &&& tract_of(code) == digits_value(s.skip(5).take(6)) as u64
    &&& category_of(code) == SettingCategory::Workplace.spec_encode() as u64
    &&& id_of(code) == digits_value(s.skip(11).take(5)) as u64
    &&& data_of(code) == 0
}

/// Parses the input as a packed code for a workplace id: state code, county
/// (3 digits), tract (6 digits), then workplace id (5 digits, which must
/// fit fourteen bits); the category is Workplace and the data region is
/// zero. The first failing sub-parser short-circuits the parse, preserving
/// the remainder at the point of failure; the construction is proven
/// in-range.
pub fn parse_fips_workplace_id<'a>(input: &'a str) -> (result: FIPSParseResult<'a, FIPSCode>)
    ensures
        (match result {
            Ok((rest, code)) => {
                &&& workplace_parse_ok(input@)
                &&& is_workplace_code(input@, code@)
                &&& rest@ == input@.skip(16)
            },
            Err((remaining, error)) => {
                &&& !workplace_parse_ok(input@)
                &&& remaining@ == workplace_parse_failure(input@).0
                &&& error == workplace_parse_failure(input@).1
            },
        }),
{
    let (rest, state) = match parse_state_code(input) {
        Ok(parsed) => parsed,
        Err(failure) => {
            return Err(failure);
        },
    };
    let (rest, county) = match parse_county_code(rest) {
        Ok(parsed) => parsed,
        Err(failure) => {
            return Err(failure);
        },
    };
    proof {
        assert(input@.skip(2).skip(3) =~= input@.skip(5));
    }
    let (rest, tract) = match parse_tract_code(rest) {
        Ok(parsed) => parsed,
        Err(failure) => {
            return Err(failure);
        },
    };
    proof {
        assert(input@.skip(5).skip(6) =~= input@.skip(11));
    }
    let (rest, workplace_id) = match parse_workplace_id(rest) {
        Ok(parsed) => parsed,
        Err(failure) => {
            return Err(failure);
        },
    };
    proof {
        assert(input@.skip(11).skip(5) =~= input@.skip(16));
        lemma_parsed_state_encodes(input@, state);
    }
    let fips_code = FIPSCode::new(state, county, tract, SettingCategory::Workplace, workplace_id, 0);
    Ok((rest, fips_code))
}

} // verus!
