//! The mode status: identity of the aircraft, integrity and accuracy levels, capabilities.
//!
//! Eleven bytes on the wire, decoded from a 128-bit word. The first 16-bit word is shared:
//! read in base 40 it holds the emitter category as its leading digit and the first two
//! characters of the call sign as the other two.

use crate::bits::{bit_at_u128, bit_field_u128, bit_range_u128, bit_u128};
use crate::text::{bool_str, bool_text, decimal, push_decimal};
use vstd::prelude::*;
use vstd::string::*;

verus! {

/// The forty characters of a call sign, by digit: figures, letters, four blanks.
pub open spec fn base40_alphabet() -> Seq<char> {
    "0123456789ABCDEFGHIJKLMNOPQRSTUVWXYZ    "@
}

/// The character of a base-40 digit.
pub open spec fn base40_char(digit: nat) -> char
    recommends
        digit < 40,
{
    base40_alphabet()[digit as int]
}

/// The emitter category that the first word holds: its base-40 digit of weight 1600.
pub open spec fn emitter_category_of(word1: nat) -> nat {
    (word1 / 1600) % 40
}

/// The eight characters of the call sign: the two low base-40 digits of the first word,
/// then the three digits of the second and the three of the third, highest first.
pub open spec fn callsign_text(word1: nat, word2: nat, word3: nat) -> Seq<char> {
    seq![
        base40_char((word1 / 40) % 40),
        base40_char(word1 % 40),
        base40_char((word2 / 1600) % 40),
        base40_char((word2 / 40) % 40),
        base40_char(word2 % 40),
        base40_char((word3 / 1600) % 40),
        base40_char((word3 / 40) % 40),
        base40_char(word3 % 40),
    ]
}

/// The line of the capabilities: a token for each flag that is set, each behind a space
/// of its own.
pub open spec fn capabilities_text(cdti: bool, acas: bool) -> Seq<char> {
    "Capabilities:       "@ + (if cdti {
        "CDTI"@
    } else {
        ""@
    }) + " "@ + (if acas {
        "ACAS"@
    } else {
        ""@
    })
}

/// The one-character text of a base-40 digit.
fn base40_str(digit: u128) -> (r: &'static str)
    requires
        digit < 40,
    ensures
        r@ == seq![base40_char(digit as nat)],
{
    let alphabet = "0123456789ABCDEFGHIJKLMNOPQRSTUVWXYZ    ";
    proof {
        reveal_strlit("0123456789ABCDEFGHIJKLMNOPQRSTUVWXYZ    ");
    }
    let r = alphabet.substring_ascii(digit as usize, digit as usize + 1);
    assert(r@ =~= seq![base40_char(digit as nat)]);
    r
}

/// The 128-bit word of a mode status.
#[derive(Clone, Copy, Debug, PartialEq, Eq)]
pub struct ModeStatus(pub u128);

impl ModeStatus {
    /// The word shared by the emitter category and the start of the call sign: bits 127
    /// to 112.
    pub open spec fn spec_raw_emitter_category(&self) -> u128 {
        bit_field_u128(self.0, 127, 112)
    }

    /// The second word of the call sign: bits 111 to 96.
    pub open spec fn spec_raw_call_sign_345(&self) -> u128 {
        bit_field_u128(self.0, 111, 96)
    }

    /// The third word of the call sign: bits 95 to 80.
    pub open spec fn spec_raw_call_sign_678(&self) -> u128 {
        bit_field_u128(self.0, 95, 80)
    }

    /// The emergency/priority status: bits 79 to 77.
    pub open spec fn spec_raw_eps(&self) -> u128 {
        bit_field_u128(self.0, 79, 77)
    }

    /// The UAT version: bits 76 to 74.
    pub open spec fn spec_raw_mops(&self) -> u128 {
        bit_field_u128(self.0, 76, 74)
    }

    /// The source integrity level: bits 73 and 72.
    pub open spec fn spec_raw_sil(&self) -> u128 {
        bit_field_u128(self.0, 73, 72)
    }

    /// The transmit message start opportunity: bits 71 to 66.
    pub open spec fn spec_raw_transmit_mso(&self) -> u128 {
        bit_field_u128(self.0, 71, 66)
    }

    /// The navigation accuracy category for position: bits 63 to 60.
    pub open spec fn spec_raw_nacp(&self) -> u128 {
        bit_field_u128(self.0, 63, 60)
    }

    /// The navigation accuracy category for velocity: bits 59 to 57.
    pub open spec fn spec_raw_nacv(&self) -> u128 {
        bit_field_u128(self.0, 59, 57)
    }

    /// The barometric altitude integrity flag: bit 56.
    pub open spec fn spec_raw_nicbaro(&self) -> bool {
        bit_at_u128(self.0, 56)
    }

    /// The CDTI capability flag: bit 55.
    pub open spec fn spec_raw_cdti(&self) -> bool {
        bit_at_u128(self.0, 55)
    }

    /// The ACAS capability flag: bit 54.
    pub open spec fn spec_raw_acas(&self) -> bool {
        bit_at_u128(self.0, 54)
    }

    /// The operational modes: bits 53 to 51.
    pub open spec fn spec_raw_op_modes(&self) -> u128 {
        bit_field_u128(self.0, 53, 51)
    }

    /// The true/magnetic flag: bit 50.
    pub open spec fn spec_raw_true_msg(&self) -> bool {
        bit_at_u128(self.0, 50)
    }

    /// The call sign identification flag: bit 49.
    pub open spec fn spec_raw_csid(&self) -> bool {
        bit_at_u128(self.0, 49)
    }

    /// The emitter category as the report prints it.
    pub open spec fn emitter_category_text(&self) -> Seq<char> {
        decimal(emitter_category_of(self.spec_raw_emitter_category() as nat))
    }

    /// The call sign.
    pub open spec fn callsign_text(&self) -> Seq<char> {
        callsign_text(
            self.spec_raw_emitter_category() as nat,
            self.spec_raw_call_sign_345() as nat,
            self.spec_raw_call_sign_678() as nat,
        )
    }

    /// The line of the capabilities.
    pub open spec fn capabilities_text(&self) -> Seq<char> {
        capabilities_text(self.spec_raw_cdti(), self.spec_raw_acas())
    }

    /// The mode status block of the report.
    pub open spec fn text(&self) -> Seq<char> {
        " Emitter category:   "@ + self.emitter_category_text() + "\n Callsign:           "@
            + self.callsign_text() + "\n Emergency status:   "@ + decimal(
            self.spec_raw_eps() as nat,
        ) + "\n UAT version:       "@ + decimal(self.spec_raw_mops() as nat)
            + "\n SIL:                "@ + decimal(self.spec_raw_sil() as nat)
            + "\n Transmit MSO:       "@ + decimal(self.spec_raw_transmit_mso() as nat)
            + "\n NACp:        "@ + decimal(self.spec_raw_nacp() as nat) + "\n NACv:            "@
            + decimal(self.spec_raw_nacv() as nat) + "\n NICbaro:          "@ + bool_text(
            self.spec_raw_nicbaro(),
        ) + "\n "@ + self.capabilities_text() + "\n Operational modes:  "@ + decimal(
            self.spec_raw_op_modes() as nat,
        ) + "\n True message:       "@ + bool_text(self.spec_raw_true_msg())
            + "\n Callsign ID:        "@ + bool_text(self.spec_raw_csid())
    }

    /// Every field fits the width of its bit range.
    pub proof fn lemma_field_widths(&self)
        ensures
            self.spec_raw_emitter_category() <= 0xffff,
            self.spec_raw_call_sign_345() <= 0xffff,
            self.spec_raw_call_sign_678() <= 0xffff,
            self.spec_raw_eps() <= 0x7,
            self.spec_raw_mops() <= 0x7,
            self.spec_raw_sil() <= 0x3,
            self.spec_raw_transmit_mso() <= 0x3f,
            self.spec_raw_nacp() <= 0xf,
            self.spec_raw_nacv() <= 0x7,
            self.spec_raw_op_modes() <= 0x7,
    {
        let v = self.0;
        assert(bit_field_u128(v, 127, 112) <= 0xffff && bit_field_u128(v, 111, 96) <= 0xffff
            && bit_field_u128(v, 95, 80) <= 0xffff && bit_field_u128(v, 79, 77) <= 0x7
            && bit_field_u128(v, 76, 74) <= 0x7 && bit_field_u128(v, 73, 72) <= 0x3
            && bit_field_u128(v, 71, 66) <= 0x3f && bit_field_u128(v, 63, 60) <= 0xf
            && bit_field_u128(v, 59, 57) <= 0x7 && bit_field_u128(v, 53, 51) <= 0x7)
            by (bit_vector);
    }

    /// The word shared by the emitter category and the start of the call sign: bits 127
    /// to 112.
    #[verifier::when_used_as_spec(spec_raw_emitter_category)]
    pub fn raw_emitter_category(&self) -> (r: u128)
        ensures
            r == self.spec_raw_emitter_category(),
            r <= 0xffff,
    {
        proof {
            self.lemma_field_widths();
        }
        bit_range_u128(self.0, 127, 112)
    }

    /// The second word of the call sign: bits 111 to 96.
    #[verifier::when_used_as_spec(spec_raw_call_sign_345)]
    pub fn raw_call_sign_345(&self) -> (r: u128)
        ensures
            r == self.spec_raw_call_sign_345(),
            r <= 0xffff,
    {
        proof {
            self.lemma_field_widths();
        }
        bit_range_u128(self.0, 111, 96)
    }

    /// The third word of the call sign: bits 95 to 80.
    #[verifier::when_used_as_spec(spec_raw_call_sign_678)]
    pub fn raw_call_sign_678(&self) -> (r: u128)
        ensures
            r == self.spec_raw_call_sign_678(),
            r <= 0xffff,
    {
        proof {
            self.lemma_field_widths();
        }
        bit_range_u128(self.0, 95, 80)
    }

    /// The emergency/priority status: bits 79 to 77.
    #[verifier::when_used_as_spec(spec_raw_eps)]
    pub fn raw_eps(&self) -> (r: u128)
        ensures
            r == self.spec_raw_eps(),
            r <= 0x7,
    {
        proof {
            self.lemma_field_widths();
        }
        bit_range_u128(self.0, 79, 77)
    }

    /// The UAT version: bits 76 to 74.
    #[verifier::when_used_as_spec(spec_raw_mops)]
    pub fn raw_mops(&self) -> (r: u128)
        ensures
            r == self.spec_raw_mops(),
            r <= 0x7,
    {
        proof {
            self.lemma_field_widths();
        }
        bit_range_u128(self.0, 76, 74)
    }

    /// The source integrity level: bits 73 and 72.
    #[verifier::when_used_as_spec(spec_raw_sil)]
    pub fn raw_sil(&self) -> (r: u128)
        ensures
            r == self.spec_raw_sil(),
            r <= 0x3,
    {
        proof {
            self.lemma_field_widths();
        }
        bit_range_u128(self.0, 73, 72)
    }

    /// The transmit message start opportunity: bits 71 to 66.
    #[verifier::when_used_as_spec(spec_raw_transmit_mso)]
    pub fn raw_transmit_mso(&self) -> (r: u128)
        ensures
            r == self.spec_raw_transmit_mso(),
            r <= 0x3f,
    {
        proof {
            self.lemma_field_widths();
        }
        bit_range_u128(self.0, 71, 66)
    }

    /// The navigation accuracy category for position: bits 63 to 60.
    #[verifier::when_used_as_spec(spec_raw_nacp)]
    pub fn raw_nacp(&self) -> (r: u128)
        ensures
            r == self.spec_raw_nacp(),
            r <= 0xf,
    {
        proof {
            self.lemma_field_widths();
        }
        bit_range_u128(self.0, 63, 60)
    }

    /// The navigation accuracy category for velocity: bits 59 to 57.
    #[verifier::when_used_as_spec(spec_raw_nacv)]
    pub fn raw_nacv(&self) -> (r: u128)
        ensures
            r == self.spec_raw_nacv(),
            r <= 0x7,
    {
        proof {
            self.lemma_field_widths();
        }
        bit_range_u128(self.0, 59, 57)
    }

    /// The barometric altitude integrity flag: bit 56.
    #[verifier::when_used_as_spec(spec_raw_nicbaro)]
    pub fn raw_nicbaro(&self) -> (r: bool)
        ensures
            r == self.spec_raw_nicbaro(),
    {
        bit_u128(self.0, 56)
    }

    /// The CDTI capability flag: bit 55.
    #[verifier::when_used_as_spec(spec_raw_cdti)]
    pub fn raw_cdti(&self) -> (r: bool)
        ensures
            r == self.spec_raw_cdti(),
    {
        bit_u128(self.0, 55)
    }

    /// The ACAS capability flag: bit 54.
    #[verifier::when_used_as_spec(spec_raw_acas)]
    pub fn raw_acas(&self) -> (r: bool)
        ensures
            r == self.spec_raw_acas(),
    {
        bit_u128(self.0, 54)
    }

    /// The operational modes: bits 53 to 51.
    #[verifier::when_used_as_spec(spec_raw_op_modes)]
    pub fn raw_op_modes(&self) -> (r: u128)
        ensures
            r == self.spec_raw_op_modes(),
            r <= 0x7,
    {
        proof {
            self.lemma_field_widths();
        }
        bit_range_u128(self.0, 53, 51)
    }

    /// The true/magnetic flag: bit 50.
    #[verifier::when_used_as_spec(spec_raw_true_msg)]
    pub fn raw_true_msg(&self) -> (r: bool)
        ensures
            r == self.spec_raw_true_msg(),
    {
        bit_u128(self.0, 50)
    }

    /// The call sign identification flag: bit 49.
    #[verifier::when_used_as_spec(spec_raw_csid)]
    pub fn raw_csid(&self) -> (r: bool)
        ensures
            r == self.spec_raw_csid(),
    {
        bit_u128(self.0, 49)
    }

    /// The emitter category, a number from 0 to 39, as the report prints it.
    pub fn emitter_category(&self) -> (r: String)
        ensures
            r@ == self.emitter_category_text(),
    {
        let ec = (self.raw_emitter_category() / 1600) % 40;
        let mut out = String::new();
        push_decimal(&mut out, ec);
        assert(out@ =~= self.emitter_category_text());
        out
    }

    /// The eight characters of the call sign.
    pub fn callsign(&self) -> (r: String)
        ensures
            r@ == self.callsign_text(),
            r@.len() == 8,
    {
        let mut call: Vec<u128> = Vec::new();
        let ec = self.raw_emitter_category();
        call.push((ec / 40) % 40);
        call.push(ec % 40);
        let block2 = self.raw_call_sign_345();
        call.push((block2 / 1600) % 40);
        call.push((block2 / 40) % 40);
        call.push(block2 % 40);
        let block3 = self.raw_call_sign_678();
        call.push((block3 / 1600) % 40);
        call.push((block3 / 40) % 40);
        call.push(block3 % 40);
        let mut out = String::new();
        let mut i: usize = 0;
        while i < 8
            invariant
                i <= 8,
                call@.len() == 8,
                forall|k: int| 0 <= k < 8 ==> call@[k] < 40,
                out@.len() == i,
                forall|k: int| 0 <= k < i ==> out@[k] == base40_char(call@[k] as nat),
            decreases 8 - i,
        {
            out.append(base40_str(call[i]));
            i = i + 1;
        }
        assert(out@ =~= self.callsign_text());
        out
    }

    /// The line of the capabilities.
    pub fn capabilities_string(&self) -> (r: String)
        ensures
            r@ == self.capabilities_text(),
    {
        let mut out = String::new();
        out.append("Capabilities:       ");
        out.append(if self.raw_cdti() {
            "CDTI"
        } else {
            ""
        });
        out.append(" ");
        out.append(if self.raw_acas() {
            "ACAS"
        } else {
            ""
        });
        assert(out@ =~= self.capabilities_text());
        out
    }

    /// The mode status block of the report.
    pub fn to_text(&self) -> (r: String)
        ensures
            r@ == self.text(),
    {
        let mut out = String::new();
        out.append(" Emitter category:   ");
        out.append(self.emitter_category().as_str());
        out.append("\n Callsign:           ");
        out.append(self.callsign().as_str());
        out.append("\n Emergency status:   ");
        push_decimal(&mut out, self.raw_eps());
        out.append("\n UAT version:       ");
        push_decimal(&mut out, self.raw_mops());
        out.append("\n SIL:                ");
        push_decimal(&mut out, self.raw_sil());
        out.append("\n Transmit MSO:       ");
        push_decimal(&mut out, self.raw_transmit_mso());
        out.append("\n NACp:        ");
        push_decimal(&mut out, self.raw_nacp());
        out.append("\n NACv:            ");
        push_decimal(&mut out, self.raw_nacv());
        out.append("\n NICbaro:          ");
        out.append(bool_str(self.raw_nicbaro()));
        out.append("\n ");
        out.append(self.capabilities_string().as_str());
        out.append("\n Operational modes:  ");
        push_decimal(&mut out, self.raw_op_modes());
        out.append("\n True message:       ");
        out.append(bool_str(self.raw_true_msg()));
        out.append("\n Callsign ID:        ");
        out.append(bool_str(self.raw_csid()));
        assert(out@ =~= self.text());
        out
    }
}

} // verus!
