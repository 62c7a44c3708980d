//! The target state: the heading or track and the altitude that the aircraft is set to.
//!
//! Four bytes on the wire, decoded from a 64-bit word. Both fields are reported as the raw
//! codes.

use crate::bits::{bit_field_u64, bit_range_u64};
use crate::text::{decimal, push_decimal};
use vstd::prelude::*;
use vstd::string::*;

verus! {

/// The 64-bit word of a target state.
#[derive(Clone, Copy, Debug, PartialEq, Eq)]
pub struct TargetState(pub u64);

impl TargetState {
    /// The heading or track code: bits 63 to 49.
    pub open spec fn spec_heading_or_track(&self) -> u64 {
        bit_field_u64(self.0, 63, 49)
    }

    /// The target altitude code: bits 48 to 32.
    pub open spec fn spec_target_altitude(&self) -> u64 {
        bit_field_u64(self.0, 48, 32)
    }

    /// The two lines of the target state.
    pub open spec fn text(&self) -> Seq<char> {
        " Heading Or Track raw:          "@ + decimal(self.spec_heading_or_track() as nat)
            + "\n Target Altitude raw:           "@ + decimal(self.spec_target_altitude() as nat)
    }

    /// Every field fits the width of its bit range.
    pub proof fn lemma_field_widths(&self)
        ensures
            self.spec_heading_or_track() <= 0x7fff,
            self.spec_target_altitude() <= 0x1_ffff,
    {
        let v = self.0;
        assert(bit_field_u64(v, 63, 49) <= 0x7fff && bit_field_u64(v, 48, 32) <= 0x1_ffff)
            by (bit_vector);
    }

    /// The heading or track code: bits 63 to 49.
    #[verifier::when_used_as_spec(spec_heading_or_track)]
    pub fn heading_or_track(&self) -> (r: u64)
        ensures
            r == self.spec_heading_or_track(),
            r <= 0x7fff,
    {
        proof {
            self.lemma_field_widths();
        }
        bit_range_u64(self.0, 63, 49)
    }

    /// The target altitude code: bits 48 to 32.
    #[verifier::when_used_as_spec(spec_target_altitude)]
    pub fn target_altitude(&self) -> (r: u64)
        ensures
            r == self.spec_target_altitude(),
            r <= 0x1_ffff,
    {
        proof {
            self.lemma_field_widths();
        }
        bit_range_u64(self.0, 48, 32)
    }

    /// The two lines of the target state.
    pub fn to_text(&self) -> (r: String)
        ensures
            r@ == self.text(),
    {
        let mut out = String::new();
        out.append(" Heading Or Track raw:          ");
        push_decimal(&mut out, self.heading_or_track() as u128);
        out.append("\n Target Altitude raw:           ");
        push_decimal(&mut out, self.target_altitude() as u128);
        assert(out@ =~= self.text());
        out
    }
}

} // verus!
