//! The auxiliary state vector: a secondary altitude.
//!
//! Four bytes on the wire, decoded from a 64-bit word.

use crate::bits::{bit_field_u64, bit_range_u64};
use crate::state_vector::{altitude_feet, altitude_from_code};
use crate::text::{push_signed_decimal, signed_decimal};
use vstd::prelude::*;
use vstd::string::*;

verus! {

/// The 64-bit word of an auxiliary state vector.
#[derive(Clone, Copy, Debug, PartialEq, Eq)]
pub struct AuxStateVector(pub u64);

impl AuxStateVector {
    /// The secondary altitude code: bits 63 to 52.
    pub open spec fn spec_raw_secondary_altitude(&self) -> u64 {
        bit_field_u64(self.0, 63, 52)
    }

    /// The secondary altitude in feet.
    pub open spec fn spec_secondary_alt(&self) -> int {
        altitude_feet(self.spec_raw_secondary_altitude() as nat)
    }

    /// The line of the secondary altitude.
    pub open spec fn text(&self) -> Seq<char> {
        " Secondary Altitude:          "@ + signed_decimal(self.spec_secondary_alt())
    }

    /// The field fits the width of its bit range.
    pub proof fn lemma_field_widths(&self)
        ensures
            self.spec_raw_secondary_altitude() <= 0xfff,
    {
        let v = self.0;
        assert(bit_field_u64(v, 63, 52) <= 0xfff) by (bit_vector);
    }

    /// The secondary altitude code: bits 63 to 52.
    #[verifier::when_used_as_spec(spec_raw_secondary_altitude)]
    pub fn raw_secondary_altitude(&self) -> (r: u64)
        ensures
            r == self.spec_raw_secondary_altitude(),
            r <= 0xfff,
    {
        proof {
            self.lemma_field_widths();
        }
        bit_range_u64(self.0, 63, 52)
    }

    /// The secondary altitude in feet: 25 feet for each step of the code, from -1025 feet
    /// on.
    pub fn secondary_alt(&self) -> (r: i32)
        ensures
            r == self.spec_secondary_alt(),
            r == self.spec_raw_secondary_altitude() * 25 - 1025,
    {
        altitude_from_code(self.raw_secondary_altitude() as u128)
    }

    /// The line of the secondary altitude.
    pub fn to_text(&self) -> (r: String)
        ensures
            r@ == self.text(),
    {
        let mut out = String::new();
        out.append(" Secondary Altitude:          ");
        push_signed_decimal(&mut out, self.secondary_alt());
        assert(out@ =~= self.text());
        out
    }
}

} // verus!
