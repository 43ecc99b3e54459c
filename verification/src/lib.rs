//! Hierarchical US geographic identifiers (FIPS state/county/census-tract
//! codes), an application-defined setting category, and a sequential id,
//! packed together into a single 64-bit value, with parsers that recover
//! these fields from fixed-format decimal-digit strings.
//!
//! The bit layout is, from the most significant bit down: state (6 bits),
//! county (10 bits), census tract (20 bits), setting category (4 bits),
//! id (14 bits), and a reserved data region (10 bits). The field order
//! mirrors the geographic hierarchy, so comparing two packed values as
//! plain integers - ignoring the data region - orders them consistently
//! with the hierarchy.

use vstd::prelude::*;

pub mod aspr;
pub mod parser;
pub mod fips_code;
pub mod states;

verus! {

// Field masks.
pub const FOUR_BIT_MASK: u8 = 15; // 2^4 - 1
pub const SIX_BIT_MASK: u8 = 63; // 2^6 - 1
pub const TEN_BIT_MASK: u16 = 1023; // 2^10 - 1
pub const FOURTEEN_BIT_MASK: u16 = 16383; // 2^14 - 1
pub const TWENTY_BIT_MASK: u32 = 1048575; // 2^20 - 1

// Offsets of the bit fields in the packed code.
pub const STATE_OFFSET: u64 = 58;
pub const COUNTY_OFFSET: u64 = 48;
pub const TRACT_OFFSET: u64 = 28;
pub const CATEGORY_OFFSET: u64 = 24;
pub const ID_OFFSET: u64 = 10;

/// Numeric FIPS state code: 2 decimal digits, at most 6 bits, never zero.
pub type StateCode = u8;

/// Numeric FIPS county code: 3 decimal digits, at most 10 bits.
pub type CountyCode = u16;

/// Numeric FIPS census tract code: 6 decimal digits, at most 20 bits.
pub type TractCode = u32;

/// Sequential id within a tract or county: at most 14 bits.
pub type IdCode = u16;

/// Application-defined data stored in the reserved low bits: at most 10 bits.
pub type DataCode = u16;

} // verus!
