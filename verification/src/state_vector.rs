//! The state vector: position, altitude, velocity and vertical rate of the aircraft.
//!
//! Thirteen bytes on the wire, decoded from a 128-bit word whose upper 101 bits carry the
//! fields. Angles are compact codes in units of 360/2^24 degrees; the library reports them
//! in ten-thousandths of a degree, rounded to the nearest (ties to the even neighbour),
//! which is what a report with four decimals shows.

use crate::bits::{bit_at_u128, bit_field_u128, bit_range_u128, bit_u128};
use crate::text::{decimal, fixed4, push_decimal, push_fixed4, push_signed_decimal, signed_decimal};
use vstd::prelude::*;
use vstd::string::*;

verus! {

/// The altitude in feet that a 12-bit altitude code stands for.
pub open spec fn altitude_feet(code: nat) -> int {
    code * 25 - 1025
}

/// `n / d` rounded to the nearest integer, a tie going to the even neighbour.
pub open spec fn round_half_even(n: nat, d: nat) -> nat
    recommends
        d > 0,
{
    let q = n / d;
    let r = n % d;
    if 2 * r < d {
        q
    } else if 2 * r > d {
        q + 1
    } else if q % 2 == 0 {
        q
    } else {
        q + 1
    }
}

/// The angle of a compact code, `code * 360 / 2^24` degrees, in ten-thousandths of a
/// degree.
pub open spec fn angle_e4(code: nat) -> nat {
    round_half_even(code * 3_600_000, 16_777_216)
}

/// The code of the longitude as it is reported: angles beyond 180 degrees are counted
/// from 360 degrees downwards.
pub open spec fn wrapped_longitude_code(code: nat) -> nat {
    if code <= 8_388_608 {
        code
    } else {
        (16_777_216 - code) as nat
    }
}

/// The hemisphere label of a latitude code.
pub open spec fn latitude_hemisphere(code: nat) -> Seq<char> {
    if code <= 4_194_304 {
        "N"@
    } else if code >= 12_582_912 {
        "S"@
    } else {
        "??"@
    }
}

/// The hemisphere label of a longitude code, taken before the angle is wrapped.
pub open spec fn longitude_hemisphere(code: nat) -> Seq<char> {
    if code == 0 {
        "PM"@
    } else if code <= 8_388_607 {
        "E"@
    } else if code == 8_388_608 {
        "EW"@
    } else if code <= 16_777_215 {
        "W"@
    } else {
        "?"@
    }
}

/// The text of a horizontal velocity component. `air_ground` 0 is airborne (steps of one
/// knot), 1 is on the surface (steps of four knots); magnitude 0 and 1023 are the
/// sentinels for "no data" and "beyond the range".
pub open spec fn velocity_text(air_ground: nat, magnitude: nat) -> Seq<char> {
    if air_ground == 0 {
        if magnitude == 0 {
            "Not available"@
        } else if magnitude == 1023 {
            "> 1021.5 kt"@
        } else {
            decimal((magnitude - 1) as nat) + " kt"@
        }
    } else if air_ground == 1 {
        if magnitude == 0 {
            "Not available"@
        } else if magnitude == 1023 {
            "> 4086 kt"@
        } else {
            decimal(((magnitude - 1) * 4) as nat) + " kt"@
        }
    } else {
        "Unknown"@
    }
}

/// The text of the vertical rate: `(magnitude - 1) * 64` feet per minute behind a minus
/// sign when `negative`; magnitude 0 is the sentinel for "no data".
pub open spec fn vertical_rate_text(negative: bool, magnitude: nat) -> Seq<char> {
    if magnitude == 0 {
        "Not available"@
    } else {
        (if negative {
            "-"@
        } else {
            ""@
        }) + decimal(((magnitude - 1) * 64) as nat) + " ft/min (from geometric altitude)"@
    }
}

/// The reported angle is the number of ten-thousandths of a degree nearest to the angle of
/// the code: the two differ by at most half a ten-thousandth, and not at all where the
/// angle of the code is a whole number of ten-thousandths.
pub proof fn lemma_angle_e4_nearest(code: nat)
    ensures
        -16_777_216 <= 2 * (angle_e4(code) * 16_777_216 - code * 3_600_000) <= 16_777_216,
        (code * 3_600_000) % 16_777_216 == 0 ==> angle_e4(code) * 16_777_216 == code * 3_600_000,
{
}

/// The altitude in feet that a 12-bit altitude code stands for.
pub fn altitude_from_code(code: u128) -> (r: i32)
    requires
        code <= 0xfff,
    ensures
        r == altitude_feet(code as nat),
{
    code as i32 * 25 - 1025
}

/// The angle of a 24-bit compact code in ten-thousandths of a degree.
pub fn angle_from_code(code: u128) -> (r: u32)
    requires
        code <= 0xff_ffff,
    ensures
        r == angle_e4(code as nat),
{
    let n: u128 = code * 3_600_000;
    let q: u128 = n / 16_777_216;
    let r: u128 = n % 16_777_216;
    if 2 * r < 16_777_216 {
        q as u32
    } else if 2 * r > 16_777_216 {
        (q + 1) as u32
    } else if q % 2 == 0 {
        q as u32
    } else {
        (q + 1) as u32
    }
}

/// The text of a horizontal velocity component with a 10-bit magnitude.
pub fn velocity_string(air_ground: u128, magnitude: u128) -> (r: String)
    requires
        magnitude <= 1023,
    ensures
        r@ == velocity_text(air_ground as nat, magnitude as nat),
{
    if air_ground == 0 {
        if magnitude == 0 {
            "Not available".to_owned()
        } else if magnitude == 1023 {
            "> 1021.5 kt".to_owned()
        } else {
            let mut out = String::new();
            push_decimal(&mut out, magnitude - 1);
            out.append(" kt");
            assert(out@ =~= velocity_text(air_ground as nat, magnitude as nat));
            out
        }
    } else if air_ground == 1 {
        if magnitude == 0 {
            "Not available".to_owned()
        } else if magnitude == 1023 {
            "> 4086 kt".to_owned()
        } else {
            let mut out = String::new();
            push_decimal(&mut out, (magnitude - 1) * 4);
            out.append(" kt");
            assert(out@ =~= velocity_text(air_ground as nat, magnitude as nat));
            out
        }
    } else {
        "Unknown".to_owned()
    }
}

/// The 128-bit word of a state vector.
#[derive(Clone, Copy, Debug, PartialEq, Eq)]
pub struct StateVector(pub u128);

impl StateVector {
    /// The latitude code: bits 127 to 105.
    pub open spec fn spec_raw_lat(&self) -> u128 {
        bit_field_u128(self.0, 127, 105)
    }

    /// The longitude code: bits 104 to 81.
    pub open spec fn spec_raw_lng(&self) -> u128 {
        bit_field_u128(self.0, 104, 81)
    }

    /// The altitude type flag, set for a geometric altitude: bit 80.
    pub open spec fn spec_raw_alt_type(&self) -> bool {
        bit_at_u128(self.0, 80)
    }

    /// The altitude code: bits 79 to 68.
    pub open spec fn spec_raw_alt(&self) -> u128 {
        bit_field_u128(self.0, 79, 68)
    }

    /// The navigation integrity category: bits 67 to 64.
    pub open spec fn spec_raw_nic(&self) -> u128 {
        bit_field_u128(self.0, 67, 64)
    }

    /// The air/ground status: bits 63 and 62.
    pub open spec fn spec_raw_ag(&self) -> u128 {
        bit_field_u128(self.0, 63, 62)
    }

    /// The sign of the north/south velocity: bit 60.
    pub open spec fn spec_raw_ns(&self) -> bool {
        bit_at_u128(self.0, 60)
    }

    /// The magnitude of the north/south velocity: bits 59 to 50.
    pub open spec fn spec_raw_ns_vel(&self) -> u128 {
        bit_field_u128(self.0, 59, 50)
    }

    /// The sign of the east/west velocity: bit 49.
    pub open spec fn spec_raw_ew(&self) -> bool {
        bit_at_u128(self.0, 49)
    }

    /// The magnitude of the east/west velocity: bits 48 to 39.
    pub open spec fn spec_raw_ew_vel(&self) -> u128 {
        bit_field_u128(self.0, 48, 39)
    }

    /// The source of the vertical rate: bit 38.
    pub open spec fn spec_raw_vv_source(&self) -> bool {
        bit_at_u128(self.0, 38)
    }

    /// The sign of the vertical rate, set for a descent: bit 37.
    pub open spec fn spec_raw_vv_sign(&self) -> bool {
        bit_at_u128(self.0, 37)
    }

    /// The magnitude of the vertical rate: bits 36 to 28.
    pub open spec fn spec_raw_vv(&self) -> u128 {
        bit_field_u128(self.0, 36, 28)
    }

    /// The UTC coupling flag: bit 27.
    pub open spec fn spec_raw_utc(&self) -> bool {
        bit_at_u128(self.0, 27)
    }

    /// The altitude in feet.
    pub open spec fn spec_alt(&self) -> int {
        altitude_feet(self.spec_raw_alt() as nat)
    }

    /// The latitude in ten-thousandths of a degree.
    pub open spec fn spec_lat(&self) -> nat {
        angle_e4(self.spec_raw_lat() as nat)
    }

    /// The longitude in ten-thousandths of a degree, counted from 360 degrees downwards
    /// beyond 180 degrees.
    pub open spec fn spec_lng(&self) -> nat {
        angle_e4(wrapped_longitude_code(self.spec_raw_lng() as nat))
    }

    /// The kind of altitude that the altitude code gives.
    pub open spec fn alt_type_text(&self) -> Seq<char> {
        if self.spec_raw_alt_type() {
            "Geometric"@
        } else {
            "Barometric"@
        }
    }

    /// The line of the navigation integrity category.
    pub open spec fn nic_text(&self) -> Seq<char> {
        "NIC:                "@ + decimal(self.spec_raw_nic() as nat)
    }

    /// The north/south velocity.
    pub open spec fn ns_vel_text(&self) -> Seq<char> {
        velocity_text(self.spec_raw_ag() as nat, self.spec_raw_ns_vel() as nat)
    }

    /// The east/west velocity.
    pub open spec fn ew_vel_text(&self) -> Seq<char> {
        velocity_text(self.spec_raw_ag() as nat, self.spec_raw_ew_vel() as nat)
    }

    /// The line of the latitude: degrees with four decimals and the hemisphere.
    pub open spec fn lat_text(&self) -> Seq<char> {
        "Latitude:           "@ + fixed4(self.spec_lat()) + " "@ + latitude_hemisphere(
            self.spec_raw_lat() as nat,
        )
    }

    /// The vertical rate.
    pub open spec fn vv_text(&self) -> Seq<char> {
        vertical_rate_text(self.spec_raw_vv_sign(), self.spec_raw_vv() as nat)
    }

    /// The two lines of the position: latitude, then longitude with its hemisphere.
    pub open spec fn geo_text(&self) -> Seq<char> {
        " "@ + self.lat_text() + "\n Longitude:          "@ + fixed4(self.spec_lng()) + " "@
            + longitude_hemisphere(self.spec_raw_lng() as nat)
    }

    /// The TIS-B site, which a state vector does not tell.
    pub open spec fn tisb_site_id_text(&self) -> Seq<char> {
        "?"@
    }

    /// The state vector block of the report.
    pub open spec fn text(&self) -> Seq<char> {
        "SV:\n "@ + self.nic_text() + "\n"@ + self.geo_text() + "\n Altitude:           "@
            + signed_decimal(self.spec_alt()) + " ft ("@ + self.alt_type_text()
            + ")\n N/S velocity:       "@ + self.ns_vel_text() + "\n E/W velocity:       "@
            + self.ew_vel_text() + "\n Track: \n Speed: \n Vertical rate:      "@ + self.vv_text()
            + "\n UTC coupling:       "@ + (if self.spec_raw_utc() {
            "yes"@
        } else {
            "no"@
        }) + "\n TIS-B site ID:      "@ + self.tisb_site_id_text() + "\n"@
    }

    /// Every field fits the width of its bit range.
    pub proof fn lemma_field_widths(&self)
        ensures
            self.spec_raw_lat() <= 0x7f_ffff,
            self.spec_raw_lng() <= 0xff_ffff,
            self.spec_raw_alt() <= 0xfff,
            self.spec_raw_nic() <= 0xf,
            self.spec_raw_ag() <= 0x3,
            self.spec_raw_ns_vel() <= 0x3ff,
            self.spec_raw_ew_vel() <= 0x3ff,
            self.spec_raw_vv() <= 0x1ff,
    {
        let v = self.0;
        assert(bit_field_u128(v, 127, 105) <= 0x7f_ffff && bit_field_u128(v, 104, 81) <= 0xff_ffff
            && bit_field_u128(v, 79, 68) <= 0xfff && bit_field_u128(v, 67, 64) <= 0xf
            && bit_field_u128(v, 63, 62) <= 0x3 && bit_field_u128(v, 59, 50) <= 0x3ff
            && bit_field_u128(v, 48, 39) <= 0x3ff && bit_field_u128(v, 36, 28) <= 0x1ff)
            by (bit_vector);
    }

    /// The latitude code: bits 127 to 105.
    #[verifier::when_used_as_spec(spec_raw_lat)]
    pub fn raw_lat(&self) -> (r: u128)
        ensures
            r == self.spec_raw_lat(),
            r <= 0x7f_ffff,
    {
        proof {
            self.lemma_field_widths();
        }
        bit_range_u128(self.0, 127, 105)
    }

    /// The longitude code: bits 104 to 81.
    #[verifier::when_used_as_spec(spec_raw_lng)]
    pub fn raw_lng(&self) -> (r: u128)
        ensures
            r == self.spec_raw_lng(),
            r <= 0xff_ffff,
    {
        proof {
            self.lemma_field_widths();
        }
        bit_range_u128(self.0, 104, 81)
    }

    /// The altitude type flag, set for a geometric altitude: bit 80.
    #[verifier::when_used_as_spec(spec_raw_alt_type)]
    pub fn raw_alt_type(&self) -> (r: bool)
        ensures
            r == self.spec_raw_alt_type(),
    {
        bit_u128(self.0, 80)
    }

    /// The altitude code: bits 79 to 68.
    #[verifier::when_used_as_spec(spec_raw_alt)]
    pub fn raw_alt(&self) -> (r: u128)
        ensures
            r == self.spec_raw_alt(),
            r <= 0xfff,
    {
        proof {
            self.lemma_field_widths();
        }
        bit_range_u128(self.0, 79, 68)
    }

    /// The navigation integrity category: bits 67 to 64.
    #[verifier::when_used_as_spec(spec_raw_nic)]
    pub fn raw_nic(&self) -> (r: u128)
        ensures
            r == self.spec_raw_nic(),
            r <= 0xf,
    {
        proof {
            self.lemma_field_widths();
        }
        bit_range_u128(self.0, 67, 64)
    }

    /// The air/ground status: bits 63 and 62.
    #[verifier::when_used_as_spec(spec_raw_ag)]
    pub fn raw_ag(&self) -> (r: u128)
        ensures
            r == self.spec_raw_ag(),
            r <= 0x3,
    {
        proof {
            self.lemma_field_widths();
        }
        bit_range_u128(self.0, 63, 62)
    }

    /// The sign of the north/south velocity: bit 60.
    #[verifier::when_used_as_spec(spec_raw_ns)]
    pub fn raw_ns(&self) -> (r: bool)
        ensures
            r == self.spec_raw_ns(),
    {
        bit_u128(self.0, 60)
    }

    /// The magnitude of the north/south velocity: bits 59 to 50.
    #[verifier::when_used_as_spec(spec_raw_ns_vel)]
    pub fn raw_ns_vel(&self) -> (r: u128)
        ensures
            r == self.spec_raw_ns_vel(),
            r <= 0x3ff,
    {
        proof {
            self.lemma_field_widths();
        }
        bit_range_u128(self.0, 59, 50)
    }

    /// The sign of the east/west velocity: bit 49.
    #[verifier::when_used_as_spec(spec_raw_ew)]
    pub fn raw_ew(&self) -> (r: bool)
        ensures
            r == self.spec_raw_ew(),
    {
        bit_u128(self.0, 49)
    }

    /// The magnitude of the east/west velocity: bits 48 to 39.
    #[verifier::when_used_as_spec(spec_raw_ew_vel)]
    pub fn raw_ew_vel(&self) -> (r: u128)
        ensures
            r == self.spec_raw_ew_vel(),
            r <= 0x3ff,
    {
        proof {
            self.lemma_field_widths();
        }
        bit_range_u128(self.0, 48, 39)
    }

    /// The source of the vertical rate: bit 38.
    #[verifier::when_used_as_spec(spec_raw_vv_source)]
    pub fn raw_vv_source(&self) -> (r: bool)
        ensures
            r == self.spec_raw_vv_source(),
    {
        bit_u128(self.0, 38)
    }

    /// The sign of the vertical rate, set for a descent: bit 37.
    #[verifier::when_used_as_spec(spec_raw_vv_sign)]
    pub fn raw_vv_sign(&self) -> (r: bool)
        ensures
            r == self.spec_raw_vv_sign(),
    {
        bit_u128(self.0, 37)
    }

    /// The magnitude of the vertical rate: bits 36 to 28.
    #[verifier::when_used_as_spec(spec_raw_vv)]
    pub fn raw_vv(&self) -> (r: u128)
        ensures
            r == self.spec_raw_vv(),
            r <= 0x1ff,
    {
        proof {
            self.lemma_field_widths();
        }
        bit_range_u128(self.0, 36, 28)
    }

    /// The UTC coupling flag: bit 27.
    #[verifier::when_used_as_spec(spec_raw_utc)]
    pub fn raw_utc(&self) -> (r: bool)
        ensures
            r == self.spec_raw_utc(),
    {
        bit_u128(self.0, 27)
    }

    /// The kind of altitude that the altitude code gives.
    pub fn alt_type(&self) -> (r: String)
        ensures
            r@ == self.alt_type_text(),
    {
        if self.raw_alt_type() {
            "Geometric".to_owned()
        } else {
            "Barometric".to_owned()
        }
    }

    /// The altitude in feet: 25 feet for each step of the code, from -1025 feet on.
    pub fn alt(&self) -> (r: i32)
        ensures
            r == self.spec_alt(),
            r == self.spec_raw_alt() * 25 - 1025,
    {
        altitude_from_code(self.raw_alt())
    }

    /// The latitude in ten-thousandths of a degree.
    pub fn lat(&self) -> (r: u32)
        ensures
            r == self.spec_lat(),
    {
        angle_from_code(self.raw_lat())
    }

    /// The longitude in ten-thousandths of a degree. Up to 180 degrees it is the angle of
    /// the code; beyond, it is what is left to 360 degrees.
    pub fn lng(&self) -> (r: u32)
        ensures
            r == self.spec_lng(),
    {
        let code = self.raw_lng();
        if code <= 8_388_608 {
            angle_from_code(code)
        } else {
            angle_from_code(16_777_216 - code)
        }
    }

    /// The line of the navigation integrity category.
    pub fn nic_string(&self) -> (r: String)
        ensures
            r@ == self.nic_text(),
    {
        let mut out = String::new();
        out.append("NIC:                ");
        push_decimal(&mut out, self.raw_nic());
        assert(out@ =~= self.nic_text());
        out
    }

    /// The north/south velocity, in knots or as one of the sentinels.
    pub fn ns_vel(&self) -> (r: String)
        ensures
            r@ == self.ns_vel_text(),
    {
        velocity_string(self.raw_ag(), self.raw_ns_vel())
    }

    /// The east/west velocity, in knots or as one of the sentinels.
    pub fn ew_vel(&self) -> (r: String)
        ensures
            r@ == self.ew_vel_text(),
    {
        velocity_string(self.raw_ag(), self.raw_ew_vel())
    }

    /// The line of the latitude: degrees with four decimals and the hemisphere.
    pub fn lat_string(&self) -> (r: String)
        ensures
            r@ == self.lat_text(),
    {
        let lat = self.raw_lat();
        let ns = if lat <= 4_194_304 {
            "N"
        } else if lat >= 12_582_912 {
            "S"
        } else {
            "??"
        };
        let mut out = String::new();
        out.append("Latitude:           ");
        push_fixed4(&mut out, self.lat() as u128);
        out.append(" ");
        out.append(ns);
        assert(out@ =~= self.lat_text());
        out
    }

    /// The vertical rate in feet per minute, or the sentinel for "no data".
    pub fn vv_string(&self) -> (r: String)
        ensures
            r@ == self.vv_text(),
    {
        let magnitude = self.raw_vv();
        if magnitude == 0 {
            "Not available".to_owned()
        } else {
            let mut out = String::new();
            out.append(if self.raw_vv_sign() {
                "-"
            } else {
                ""
            });
            push_decimal(&mut out, (magnitude - 1) * 64);
            out.append(" ft/min (from geometric altitude)");
            assert(out@ =~= self.vv_text());
            out
        }
    }

    /// The two lines of the position: latitude, then longitude with its hemisphere.
    pub fn geo(&self) -> (r: String)
        ensures
            r@ == self.geo_text(),
    {
        let lng = self.raw_lng();
        let ew = if lng == 0 {
            "PM"
        } else if lng <= 8_388_607 {
            "E"
        } else if lng == 8_388_608 {
            "EW"
        } else if lng <= 16_777_215 {
            "W"
        } else {
            "?"
        };
        let mut out = String::new();
        out.append(" ");
        out.append(self.lat_string().as_str());
        out.append("\n Longitude:          ");
        push_fixed4(&mut out, self.lng() as u128);
        out.append(" ");
        out.append(ew);
        assert(out@ =~= self.geo_text());
        out
    }

    /// The TIS-B site, which a state vector does not tell.
    pub fn tisb_site_id(&self) -> (r: String)
        ensures
            r@ == self.tisb_site_id_text(),
    {
        "?".to_owned()
    }

    /// The state vector block of the report.
    pub fn to_text(&self) -> (r: String)
        ensures
            r@ == self.text(),
    {
        let mut out = String::new();
        out.append("SV:\n ");
        out.append(self.nic_string().as_str());
        out.append("\n");
        out.append(self.geo().as_str());
        out.append("\n Altitude:           ");
        push_signed_decimal(&mut out, self.alt());
        out.append(" ft (");
        out.append(self.alt_type().as_str());
        out.append(")\n N/S velocity:       ");
        out.append(self.ns_vel().as_str());
        out.append("\n E/W velocity:       ");
        out.append(self.ew_vel().as_str());
        out.append("\n Track: \n Speed: \n Vertical rate:      ");
        out.append(self.vv_string().as_str());
        out.append("\n UTC coupling:       ");
        out.append(if self.raw_utc() {
            "yes"
        } else {
            "no"
        });
        out.append("\n TIS-B site ID:      ");
        out.append(self.tisb_site_id().as_str());
        out.append("\n");
        assert(out@ =~= self.text());
        out
    }
}

} // verus!
