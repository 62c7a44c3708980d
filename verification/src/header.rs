//! The 32-bit message header: payload type code, address qualifier and aircraft address.

use crate::bits::{bit_field_u32, bit_range_u32};
use crate::text::{decimal, hex_upper, push_decimal, push_hex_upper};
use vstd::prelude::*;
use vstd::string::*;

verus! {

/// What the 24-bit address of a header stands for.
#[derive(Clone, Copy, Debug, PartialEq, Eq)]
pub enum AddressQualifier {
    AdsbStandard,
    AdsbSelfAssigned,
    TisbStandard,
    TisbTrackFile,
    SurfaceVehicle,
    AdsbFixed,
    Reserved1,
    Reserved2,
}

/// The qualifier that a numeric code names; codes above 7 name none.
pub open spec fn qualifier_of(code: u32) -> Option<AddressQualifier> {
    if code == 0 {
        Some(AddressQualifier::AdsbStandard)
    } else if code == 1 {
        Some(AddressQualifier::AdsbSelfAssigned)
    } else if code == 2 {
        Some(AddressQualifier::TisbStandard)
    } else if code == 3 {
        Some(AddressQualifier::TisbTrackFile)
    } else if code == 4 {
        Some(AddressQualifier::SurfaceVehicle)
    } else if code == 5 {
        Some(AddressQualifier::AdsbFixed)
    } else if code == 6 {
        Some(AddressQualifier::Reserved1)
    } else if code == 7 {
        Some(AddressQualifier::Reserved2)
    } else {
        None
    }
}

impl AddressQualifier {
    /// The name of the qualifier as the report prints it.
    pub open spec fn spec_name(&self) -> Seq<char> {
        match self {
            AddressQualifier::AdsbStandard => "AdsbStandard"@,
            AddressQualifier::AdsbSelfAssigned => "AdsbSelfAssigned"@,
            AddressQualifier::TisbStandard => "TisbStandard"@,
            AddressQualifier::TisbTrackFile => "TisbTrackFile"@,
            AddressQualifier::SurfaceVehicle => "SurfaceVehicle"@,
            AddressQualifier::AdsbFixed => "AdsbFixed"@,
            AddressQualifier::Reserved1 => "Reserved1"@,
            AddressQualifier::Reserved2 => "Reserved2"@,
        }
    }

    /// The qualifier with the given numeric code, if there is one.
    pub fn from_code(code: u32) -> (r: Option<AddressQualifier>)
        ensures
            r == qualifier_of(code),
    {
        match code {
            0 => Some(AddressQualifier::AdsbStandard),
            1 => Some(AddressQualifier::AdsbSelfAssigned),
            2 => Some(AddressQualifier::TisbStandard),
            3 => Some(AddressQualifier::TisbTrackFile),
            4 => Some(AddressQualifier::SurfaceVehicle),
            5 => Some(AddressQualifier::AdsbFixed),
            6 => Some(AddressQualifier::Reserved1),
            7 => Some(AddressQualifier::Reserved2),
            _ => None,
        }
    }

    /// The name of the qualifier as the report prints it.
    pub fn name(&self) -> (r: &'static str)
        ensures
            r@ == self.spec_name(),
    {
        match self {
            AddressQualifier::AdsbStandard => "AdsbStandard",
            AddressQualifier::AdsbSelfAssigned => "AdsbSelfAssigned",
            AddressQualifier::TisbStandard => "TisbStandard",
            AddressQualifier::TisbTrackFile => "TisbTrackFile",
            AddressQualifier::SurfaceVehicle => "SurfaceVehicle",
            AddressQualifier::AdsbFixed => "AdsbFixed",
            AddressQualifier::Reserved1 => "Reserved1",
            AddressQualifier::Reserved2 => "Reserved2",
        }
    }
}

/// The header word of a message.
#[derive(Clone, Copy, Debug, PartialEq, Eq)]
pub struct UatHeader(pub u32);

impl UatHeader {
    /// The payload type code: bits 31 to 27.
    pub open spec fn spec_code(&self) -> u32 {
        bit_field_u32(self.0, 31, 27)
    }

    /// The address qualifier code: bits 26 to 24.
    pub open spec fn spec_qualifier(&self) -> u32 {
        bit_field_u32(self.0, 26, 24)
    }

    /// The aircraft address: bits 23 to 0.
    pub open spec fn spec_address(&self) -> u32 {
        bit_field_u32(self.0, 23, 0)
    }

    /// The address qualifier that the qualifier code names.
    pub open spec fn spec_address_qualifier(&self) -> AddressQualifier {
        qualifier_of(self.spec_qualifier()).unwrap()
    }

    /// The header block of the report.
    pub open spec fn text(&self) -> Seq<char> {
        "HDR:\n MDB Type:           "@ + decimal(self.spec_code() as nat)
            + "\n Address:            "@ + hex_upper(self.spec_address() as nat) + " ("@
            + self.spec_address_qualifier().spec_name() + ")\n"@
    }

    /// Every field fits the width of its bit range.
    pub proof fn lemma_field_widths(&self)
        ensures
            self.spec_code() <= 0x1f,
            self.spec_qualifier() <= 0x7,
            self.spec_address() <= 0xff_ffff,
    {
        let v = self.0;
        assert(bit_field_u32(v, 31, 27) <= 0x1f && bit_field_u32(v, 26, 24) <= 0x7 && bit_field_u32(
            v,
            23,
            0,
        ) <= 0xff_ffff) by (bit_vector);
    }

    /// The payload type code: bits 31 to 27.
    #[verifier::when_used_as_spec(spec_code)]
    pub fn code(&self) -> (r: u32)
        ensures
            r == self.spec_code(),
            r <= 0x1f,
    {
        proof {
            self.lemma_field_widths();
        }
        bit_range_u32(self.0, 31, 27)
    }

    /// The address qualifier code: bits 26 to 24.
    #[verifier::when_used_as_spec(spec_qualifier)]
    pub fn qualifier(&self) -> (r: u32)
        ensures
            r == self.spec_qualifier(),
            r <= 0x7,
    {
        proof {
            self.lemma_field_widths();
        }
        bit_range_u32(self.0, 26, 24)
    }

    /// The aircraft address: bits 23 to 0.
    #[verifier::when_used_as_spec(spec_address)]
    pub fn address(&self) -> (r: u32)
        ensures
            r == self.spec_address(),
            r <= 0xff_ffff,
    {
        proof {
            self.lemma_field_widths();
        }
        bit_range_u32(self.0, 23, 0)
    }

    /// The address qualifier that the qualifier code names. Three bits name exactly the
    /// eight qualifiers, so there always is one.
    #[verifier::when_used_as_spec(spec_address_qualifier)]
    pub fn address_qualifier(&self) -> (r: AddressQualifier)
        ensures
            r == self.spec_address_qualifier(),
            qualifier_of(self.spec_qualifier()) == Some(r),
    {
        AddressQualifier::from_code(self.qualifier()).unwrap()
    }

    /// The header block of the report.
    pub fn to_text(&self) -> (r: String)
        ensures
            r@ == self.text(),
    {
        let mut out = String::new();
        out.append("HDR:\n MDB Type:           ");
        push_decimal(&mut out, self.code() as u128);
        out.append("\n Address:            ");
        push_hex_upper(&mut out, self.address() as u128);
        out.append(" (");
        out.append(self.address_qualifier().name());
        out.append(")\n");
        assert(out@ =~= self.text());
        out
    }
}

/// Decoding a header word and putting the three fields back at their bit positions gives
/// the word again: the fields cover all 32 bits and do not overlap.
pub proof fn lemma_header_round_trip(v: u32)
    ensures
        (UatHeader(v).spec_code() << 27) | (UatHeader(v).spec_qualifier() << 24) | UatHeader(
            v,
        ).spec_address() == v,
{
    assert((bit_field_u32(v, 31, 27) << 27) | (bit_field_u32(v, 26, 24) << 24) | bit_field_u32(
        v,
        23,
        0,
    ) == v) by (bit_vector);
}

} // verus!
