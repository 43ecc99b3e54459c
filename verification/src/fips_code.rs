//! The packed 64-bit code: six fields at fixed bit offsets, constructors
//! that demand each field fit its declared width, pure accessors, and a
//! comparison that ignores the reserved data region.
//!
//! Because the fields sit in the packed value in hierarchy order (state,
//! county, tract, category, id) above the data region, comparing two packed
//! values as plain integers with the low ten bits masked off orders them
//! exactly as the lexicographic order of their fields.

use vstd::prelude::*;
use core::cmp::Ordering;
use crate::parser::decimal_digits;
use crate::parser::u64_to_decimal_string;
use crate::aspr::SettingCategory;
use crate::aspr::lemma_category_code_bounds;
use crate::aspr::lemma_category_encode_decode;
use crate::states::USState;
use crate::states::lemma_state_code_bounds;
use crate::states::lemma_state_encode_decode;
use crate::CountyCode;
use crate::DataCode;
use crate::IdCode;
use crate::TractCode;
use crate::CATEGORY_OFFSET;
use crate::COUNTY_OFFSET;
use crate::FOURTEEN_BIT_MASK;
use crate::FOUR_BIT_MASK;
use crate::ID_OFFSET;
use crate::STATE_OFFSET;
use crate::TEN_BIT_MASK;
use crate::TRACT_OFFSET;
use crate::TWENTY_BIT_MASK;

verus! {

/// Every bit of the packed value except the ten-bit data region.
pub const NON_DATA_MASK: u64 = 0xffff_ffff_ffff_fc00;

/// The state field: the six most significant bits of the packed value.
pub open spec fn state_of(code: u64) -> u64 {
    code >> STATE_OFFSET
}

/// The county field: ten bits below the state field.
pub open spec fn county_of(code: u64) -> u64 {
    (code >> COUNTY_OFFSET) & (TEN_BIT_MASK as u64)
}

/// The census tract field: twenty bits below the county field.
pub open spec fn tract_of(code: u64) -> u64 {
    (code >> TRACT_OFFSET) & (TWENTY_BIT_MASK as u64)
}

/// The setting category field: four bits below the tract field.
pub open spec fn category_of(code: u64) -> u64 {
    (code >> CATEGORY_OFFSET) & (FOUR_BIT_MASK as u64)
}

/// The sequential id field: fourteen bits below the category field.
pub open spec fn id_of(code: u64) -> u64 {
    (code >> ID_OFFSET) & (FOURTEEN_BIT_MASK as u64)
}

/// The data region: the ten least significant bits.
pub open spec fn data_of(code: u64) -> u64 {
    code & (TEN_BIT_MASK as u64)
}

/// The packed value assembled from the six fields.
pub open spec fn pack_fields(
    state: u64,
    county: u64,
    tract: u64,
    category: u64,
    id: u64,
    data: u64,
) -> u64 {
    (state << STATE_OFFSET) | (county << COUNTY_OFFSET) | (tract << TRACT_OFFSET) | (category
        << CATEGORY_OFFSET) | (id << ID_OFFSET) | data
}

/// The non-data fields of the two packed values are equal.
pub open spec fn same_nondata_fields(a: u64, b: u64) -> bool {
    &&& state_of(a) == state_of(b)
    &&& county_of(a) == county_of(b)
    &&& tract_of(a) == tract_of(b)
    &&& category_of(a) == category_of(b)
    &&& id_of(a) == id_of(b)
}

/// The non-data fields of `a` precede those of `b` lexicographically, in
/// hierarchy order: state, then county, tract, category, and id.
pub open spec fn nondata_lt(a: u64, b: u64) -> bool {
    if state_of(a) != state_of(b) {
        state_of(a) < state_of(b)
    } else if county_of(a) != county_of(b) {
        county_of(a) < county_of(b)
    } else if tract_of(a) != tract_of(b) {
        tract_of(a) < tract_of(b)
    } else if category_of(a) != category_of(b) {
        category_of(a) < category_of(b)
    } else {
        id_of(a) < id_of(b)
    }
}

/// Round-trip law, packing direction: packing six field values that fit
/// their declared bit widths and then extracting each field returns exactly
/// the original values, and the packed value is nonzero whenever the state
/// field is.
pub proof fn lemma_pack_then_extract(
    state: u64,
    county: u64,
    tract: u64,
    category: u64,
    id: u64,
    data: u64,
)
    by (bit_vector)
    requires
        state <= 63,
        county <= 1023,
        tract <= 1048575,
        category <= 15,
        id <= 16383,
        data <= 1023,
    ensures
        state_of(pack_fields(state, county, tract, category, id, data)) == state,
        county_of(pack_fields(state, county, tract, category, id, data)) == county,
        tract_of(pack_fields(state, county, tract, category, id, data)) == tract,
        category_of(pack_fields(state, county, tract, category, id, data)) == category,
        id_of(pack_fields(state, county, tract, category, id, data)) == id,
        data_of(pack_fields(state, county, tract, category, id, data)) == data,
        state >= 1 ==> pack_fields(state, county, tract, category, id, data) != 0,
{
}

/// Round-trip law, expanding direction: every packed value equals the
/// packing of its own extracted fields, so expanding a code and packing the
/// expansion reproduces the code exactly.
pub proof fn lemma_extract_then_pack(code: u64)
    by (bit_vector)
    ensures
        pack_fields(
            state_of(code),
            county_of(code),
            tract_of(code),
            category_of(code),
            id_of(code),
            data_of(code),
        ) == code,
{
}

/// Each extracted field fits its declared bit width.
pub proof fn lemma_field_bounds(code: u64)
    by (bit_vector)
    ensures
        state_of(code) <= 63,
        county_of(code) <= 1023,
        tract_of(code) <= 1048575,
        category_of(code) <= 15,
        id_of(code) <= 16383,
        data_of(code) <= 1023,
{
}

/// Replacing the data region leaves every other field unchanged.
proof fn lemma_replace_data(code: u64, data: u64)
    by (bit_vector)
    requires
        data <= 1023,
    ensures
        state_of((code & NON_DATA_MASK) | data) == state_of(code),
        county_of((code & NON_DATA_MASK) | data) == county_of(code),
        tract_of((code & NON_DATA_MASK) | data) == tract_of(code),
        category_of((code & NON_DATA_MASK) | data) == category_of(code),
        id_of((code & NON_DATA_MASK) | data) == id_of(code),
        data_of((code & NON_DATA_MASK) | data) == data,
{
}

/// Comparing packed values with the data region masked off is exactly the
/// lexicographic comparison of the non-data fields in hierarchy order.
proof fn lemma_nondata_mask_compare(a: u64, b: u64)
    by (bit_vector)
    ensures
        ((a & NON_DATA_MASK) == (b & NON_DATA_MASK)) == same_nondata_fields(a, b),
        ((a & NON_DATA_MASK) < (b & NON_DATA_MASK)) == nondata_lt(a, b),
{
}

/// The data region does not take part in `compare_non_data`, but it does
/// distinguish the full packed values: two codes whose non-data fields are
/// equal have equal masked values (so they compare as equal), yet if their
/// data fields differ the packed values themselves differ.
pub proof fn lemma_reserved_field_ignored(a: u64, b: u64)
    requires
        state_of(a) == state_of(b),
        county_of(a) == county_of(b),
        tract_of(a) == tract_of(b),
        category_of(a) == category_of(b),
        id_of(a) == id_of(b),
    ensures
        same_nondata_fields(a, b),
        data_of(a) != data_of(b) ==> a != b,
{
}

/// Encodes a hierarchical FIPS geographic region code in 64 bits, together
/// with a setting category, a sequential id, and a free data region.
/// Excludes the nonhierarchical codes: places, congressional or state
/// legislative districts, and ZIP code tabulation areas.
#[derive(Copy, Clone, PartialEq, Eq, Structural, PartialOrd, Ord, Hash, Debug)]
pub struct FIPSCode {
    code: u64,
}

impl View for FIPSCode {
    type V = u64;

    closed spec fn view(&self) -> u64 {
        self.code
    }
}

impl FIPSCode {
    /// A validly constructed code always holds a recognized state code and
    /// a decodable category tag, so the accessors that return the enumerated
    /// forms are total.
    #[verifier::type_invariant]
    spec fn inv(self) -> bool {
        &&& USState::spec_decode(state_of(self.code) as u8) is Some
        &&& category_of(self.code) <= 5
    }

    /// A code for the state alone; every other field is zero.
    pub fn with_state(state: USState) -> (result: Self)
        ensures
            state_of(result@) == state.spec_encode() as u64,
            county_of(result@) == 0,
            tract_of(result@) == 0,
            category_of(result@) == 0,
            id_of(result@) == 0,
            data_of(result@) == 0,
    {
        Self::new(state, 0, 0, SettingCategory::default(), 0, 0)
    }

    /// A code for a county; the fields below county are zero.
    pub fn with_county(state: USState, county: CountyCode) -> (result: Self)
        requires
            county <= TEN_BIT_MASK,
        ensures
            state_of(result@) == state.spec_encode() as u64,
            county_of(result@) == county as u64,
            tract_of(result@) == 0,
            category_of(result@) == 0,
            id_of(result@) == 0,
            data_of(result@) == 0,
    {
        Self::new(state, county, 0, SettingCategory::default(), 0, 0)
    }

    /// A code for a census tract; the fields below tract are zero.
    pub fn with_tract(state: USState, county: CountyCode, tract: TractCode) -> (result: Self)
        requires
            county <= TEN_BIT_MASK,
            tract <= TWENTY_BIT_MASK,
        ensures
            state_of(result@) == state.spec_encode() as u64,
            county_of(result@) == county as u64,
            tract_of(result@) == tract as u64,
            category_of(result@) == 0,
            id_of(result@) == 0,
            data_of(result@) == 0,
    {
        Self::new(state, county, tract, SettingCategory::default(), 0, 0)
    }

    /// A code for a census tract with a setting category; id and data are
    /// zero.
    pub fn with_category(
        state: USState,
        county: CountyCode,
        tract: TractCode,
        category: SettingCategory,
    ) -> (result: Self)
        requires
            county <= TEN_BIT_MASK,
            tract <= TWENTY_BIT_MASK,
        ensures
            state_of(result@) == state.spec_encode() as u64,
            county_of(result@) == county as u64,
            tract_of(result@) == tract as u64,
            category_of(result@) == category.spec_encode() as u64,
            id_of(result@) == 0,
            data_of(result@) == 0,
    {
        Self::new(state, county, tract, category, 0, 0)
    }

    /// Pack all six fields. Every field must fit its declared bit width;
    /// the state and category are valid by construction of their types.
    /// The packed value determines each field exactly, and is never zero.
    pub fn new(
        state: USState,
        county: CountyCode,
        tract: TractCode,
        category: SettingCategory,
        id: IdCode,
        data: DataCode,
    ) -> (result: Self)
        requires
            county <= TEN_BIT_MASK,
            tract <= TWENTY_BIT_MASK,
            id <= FOURTEEN_BIT_MASK,
            data <= TEN_BIT_MASK,
        ensures
            state_of(result@) == state.spec_encode() as u64,
            county_of(result@) == county as u64,
            tract_of(result@) == tract as u64,
            category_of(result@) == category.spec_encode() as u64,
            id_of(result@) == id as u64,
            data_of(result@) == data as u64,
            result@ != 0,
    {
        proof {
            lemma_state_code_bounds(state);
            lemma_state_encode_decode(state);
            lemma_category_code_bounds(category);
            lemma_category_encode_decode(category);
            lemma_pack_then_extract(
                state.spec_encode() as u64,
                county as u64,
                tract as u64,
                category.spec_encode() as u64,
                id as u64,
                data as u64,
            );
        }
        let state_code = state.encode();
        let category_code = category.encode();
        let encoded: u64 = Self::encode_state(state_code) | Self::encode_county(county)
            | Self::encode_tract(tract) | Self::encode_category(category_code) | Self::encode_id(id)
            | Self::encode_data(data);
        FIPSCode { code: encoded }
    }

    /// The state as a `USState` variant. Total: a constructed code always
    /// holds a recognized state code.
    pub fn state(&self) -> (state: USState)
        ensures
            Some(state) == USState::spec_decode(state_of(self@) as u8),
    {
        proof {
            use_type_invariant(&*self);
        }
        USState::decode(self.state_code()).unwrap()
    }

    /// The numeric state code: the six most significant bits.
    pub fn state_code(&self) -> (code: u8)
        ensures
            code as u64 == state_of(self@),
    {
        proof {
            lemma_field_bounds(self.code);
        }
        (self.code >> STATE_OFFSET) as u8
    }

    /// The numeric county code: ten bits below the state field.
    pub fn county_code(&self) -> (county: u16)
        ensures
            county as u64 == county_of(self@),
    {
        proof {
            lemma_field_bounds(self.code);
        }
        ((self.code >> COUNTY_OFFSET) & (TEN_BIT_MASK as u64)) as u16
    }

    /// The numeric census tract code: twenty bits below the county field.
    pub fn census_tract_code(&self) -> (tract: u32)
        ensures
            tract as u64 == tract_of(self@),
    {
        proof {
            lemma_field_bounds(self.code);
        }
        ((self.code >> TRACT_OFFSET) & (TWENTY_BIT_MASK as u64)) as u32
    }

    /// The numeric setting category tag: four bits below the tract field.
    pub fn category_code(&self) -> (category: u8)
        ensures
            category as u64 == category_of(self@),
    {
        proof {
            lemma_field_bounds(self.code);
        }
        ((self.code >> CATEGORY_OFFSET) & (FOUR_BIT_MASK as u64)) as u8
    }

    /// The setting category as a `SettingCategory` variant. Total: a
    /// constructed code always holds a decodable category tag.
    pub fn category(&self) -> (category: SettingCategory)
        ensures
            Some(category) == SettingCategory::spec_decode(category_of(self@) as u8),
    {
        proof {
            use_type_invariant(&*self);
        }
        SettingCategory::decode(self.category_code()).unwrap()
    }

    /// The sequential id: fourteen bits below the category field.
    pub fn id(&self) -> (id: u16)
        ensures
            id as u64 == id_of(self@),
    {
        proof {
            lemma_field_bounds(self.code);
        }
        ((self.code >> ID_OFFSET) & (FOURTEEN_BIT_MASK as u64)) as u16
    }

    /// The data region: the ten least significant bits.
    pub fn data(&self) -> (data: u16)
        ensures
            data as u64 == data_of(self@),
    {
        proof {
            lemma_field_bounds(self.code);
        }
        (self.code & (TEN_BIT_MASK as u64)) as u16
    }

    /// Replace the data region, preserving every other field.
    pub fn set_data(&mut self, data: u16)
        requires
            data <= TEN_BIT_MASK,
        ensures
            state_of(final(self)@) == state_of(old(self)@),
            county_of(final(self)@) == county_of(old(self)@),
            tract_of(final(self)@) == tract_of(old(self)@),
            category_of(final(self)@) == category_of(old(self)@),
            id_of(final(self)@) == id_of(old(self)@),
            data_of(final(self)@) == data as u64,
    {
        proof {
            use_type_invariant(&*self);
            lemma_replace_data(self.code, data as u64);
        }
        self.code = (self.code & NON_DATA_MASK) | (data as u64);
    }

    /// Compare two codes without respect to the data region. The result is
    /// the lexicographic comparison of the non-data fields in hierarchy
    /// order, which coincides with integer comparison of the packed values
    /// with the low ten bits masked off.
    pub fn compare_non_data(&self, other: Self) -> (ordering: Ordering)
        ensures
            (ordering == Ordering::Equal) <==> same_nondata_fields(self@, other@),
            (ordering == Ordering::Less) <==> nondata_lt(self@, other@),
            (ordering == Ordering::Greater) <==> nondata_lt(other@, self@),
    {
        proof {
            lemma_nondata_mask_compare(self.code, other.code);
            lemma_nondata_mask_compare(other.code, self.code);
        }
        let this_masked = self.code & NON_DATA_MASK;
        let other_masked = other.code & NON_DATA_MASK;
        if this_masked < other_masked {
            Ordering::Less
        } else if this_masked == other_masked {
            Ordering::Equal
        } else {
            Ordering::Greater
        }
    }

    fn encode_state(state: u8) -> (bits: u64)
        requires
            USState::spec_decode(state) is Some,
        ensures
            bits == (state as u64) << STATE_OFFSET,
    {
        (state as u64) << STATE_OFFSET
    }

    fn encode_county(county: u16) -> (bits: u64)
        requires
            county <= TEN_BIT_MASK,
        ensures
            bits == (county as u64) << COUNTY_OFFSET,
    {
        (county as u64) << COUNTY_OFFSET
    }

    fn encode_tract(tract: u32) -> (bits: u64)
        requires
            tract <= TWENTY_BIT_MASK,
        ensures
            bits == (tract as u64) << TRACT_OFFSET,
    {
        (tract as u64) << TRACT_OFFSET
    }

    fn encode_category(setting_category: u8) -> (bits: u64)
        requires
            setting_category <= FOUR_BIT_MASK,
        ensures
            bits == (setting_category as u64) << CATEGORY_OFFSET,
    {
        (setting_category as u64) << CATEGORY_OFFSET
    }

    fn encode_id(id: u16) -> (bits: u64)
        requires
            id <= FOURTEEN_BIT_MASK,
        ensures
            bits == (id as u64) << ID_OFFSET,
    {
        (id as u64) << ID_OFFSET
    }

    fn encode_data(data: u16) -> (bits: u64)
        requires
            data <= TEN_BIT_MASK,
        ensures
            bits == data as u64,
    {
        data as u64
    }
}

/// The diagnostic rendering of an expanded code: the state name always,
/// then each remaining field only if nonzero or non-default, comma-joined
/// with its label.
pub open spec fn render_expanded(
    state_name: Seq<char>,
    county: nat,
    tract: nat,
    category: SettingCategory,
    id: nat,
    data: nat,
) -> Seq<char> {
    "state: "@ + state_name + (if county != 0 {
        ", county: "@ + decimal_digits(county)
    } else {
        Seq::<char>::empty()
    }) + (if tract != 0 {
        ", tract: "@ + decimal_digits(tract)
    } else {
        Seq::<char>::empty()
    }) + (if category != SettingCategory::Unspecified {
        ", setting: "@ + category.spec_label()
    } else {
        Seq::<char>::empty()
    }) + (if id != 0 {
        ", id: "@ + decimal_digits(id)
    } else {
        Seq::<char>::empty()
    }) + (if data != 0 {
        ", data field: "@ + decimal_digits(data)
    } else {
        Seq::<char>::empty()
    })
}

/// Two codes with the same packed value are the same code.
pub proof fn lemma_view_determines_code(a: FIPSCode, b: FIPSCode)
    requires
        a@ == b@,
    ensures
        a == b,
{
}

/// The fully unpacked structural view of a packed code.
#[derive(Copy, Clone, PartialEq, Eq, Structural, Hash, Debug)]
pub struct ExpandedFIPSCode {
    pub state: USState,
    pub county: CountyCode,
    pub tract: TractCode,
    pub category: SettingCategory,
    pub id: IdCode,
    pub data: DataCode,
}

impl ExpandedFIPSCode {
    /// Unpack every field of a code. Total, and exact: each field of the
    /// expansion is the corresponding field of the packed value.
    pub fn from_fips_code(fips_code: FIPSCode) -> (expanded: Self)
        ensures
            Some(expanded.state) == USState::spec_decode(state_of(fips_code@) as u8),
            expanded.county as u64 == county_of(fips_code@),
            expanded.tract as u64 == tract_of(fips_code@),
            Some(expanded.category) == SettingCategory::spec_decode(category_of(fips_code@) as u8),
            expanded.id as u64 == id_of(fips_code@),
            expanded.data as u64 == data_of(fips_code@),
    {
        Self {
            state: fips_code.state(),
            county: fips_code.county_code(),
            tract: fips_code.census_tract_code(),
            category: fips_code.category(),
            id: fips_code.id(),
            data: fips_code.data(),
        }
    }

    /// Renders the expansion for diagnostics, not for re-parseable output:
    /// the given state name always, then the county, tract, category label,
    /// id, and data region, each only if nonzero or non-default,
    /// comma-joined. The state name itself comes from the caller's state
    /// table.
    #[verifier::rlimit(50)]
    pub fn display_string(&self, state_name: &str) -> (rendered: String)
        ensures
            rendered@ == render_expanded(
                state_name@,
                self.county as nat,
                self.tract as nat,
                self.category,
                self.id as nat,
                self.data as nat,
            ),
    {
        let mut out = String::from_str("state: ");
        out.append(state_name);
        if self.county != 0 {
            out.append(", county: ");
            let digits = u64_to_decimal_string(self.county as u64);
            out.append(digits.as_str());
        }
        if self.tract != 0 {
            out.append(", tract: ");
            let digits = u64_to_decimal_string(self.tract as u64);
            out.append(digits.as_str());
        }
        if self.category != SettingCategory::Unspecified {
            out.append(", setting: ");
            out.append(self.category.label());
        }
        if self.id != 0 {
            out.append(", id: ");
            let digits = u64_to_decimal_string(self.id as u64);
            out.append(digits.as_str());
        }
        if self.data != 0 {
            out.append(", data field: ");
            let digits = u64_to_decimal_string(self.data as u64);
            out.append(digits.as_str());
        }
        proof {
            assert(out@ =~= render_expanded(
                state_name@,
                self.county as nat,
                self.tract as nat,
                self.category,
                self.id as nat,
                self.data as nat,
            ));
        }
        out
    }

    /// Pack the expansion back into a code. Exact: each field of the packed
    /// value is the corresponding field of the expansion, so expanding a
    /// code and packing the expansion reproduces the original code.
    pub fn to_fips_code(&self) -> (fips_code: FIPSCode)
        requires
            self.county <= TEN_BIT_MASK,
            self.tract <= TWENTY_BIT_MASK,
            self.id <= FOURTEEN_BIT_MASK,
            self.data <= TEN_BIT_MASK,
        ensures
            state_of(fips_code@) == self.state.spec_encode() as u64,
            county_of(fips_code@) == self.county as u64,
            tract_of(fips_code@) == self.tract as u64,
            category_of(fips_code@) == self.category.spec_encode() as u64,
            id_of(fips_code@) == self.id as u64,
            data_of(fips_code@) == self.data as u64,
    {
        FIPSCode::new(self.state, self.county, self.tract, self.category, self.id, self.data)
    }
}

} // verus!

