//! A whole downlink message: the header, the sub-structures that the payload type calls
//! for, and the report.
//!
//! The state vector and the mode status belong to the message record; the auxiliary state
//! vector and the target state are kept beside it and reported on lines of their own.

use crate::aux_state_vector::AuxStateVector;
use crate::bytes::{be_value, padded_window, read_be_u32, window_u128, window_u64};
use crate::header::UatHeader;
use crate::layout::{layout_of, resolve_layout, Span};
use crate::mode_status::ModeStatus;
use crate::state_vector::StateVector;
use crate::target_state::TargetState;
use crate::text::{decimal, push_decimal};
use vstd::prelude::*;
use vstd::string::*;

verus! {

/// Why a record could not be decoded.
#[derive(Clone, Copy, Debug, PartialEq, Eq)]
pub enum DecodeError {
    /// The payload text is not an even number of hexadecimal digits.
    MalformedHex,
    /// The message is shorter than the header, or than its payload type requires.
    Truncated,
}

impl DecodeError {
    /// The error in words.
    pub open spec fn text(&self) -> Seq<char> {
        match self {
            DecodeError::MalformedHex => "malformed hex payload"@,
            DecodeError::Truncated => "truncated payload"@,
        }
    }

    /// The error in words.
    pub fn message(&self) -> (r: &'static str)
        ensures
            r@ == self.text(),
    {
        match self {
            DecodeError::MalformedHex => "malformed hex payload",
            DecodeError::Truncated => "truncated payload",
        }
    }
}

/// The message record: the header and the sub-structures that are reported with it.
#[derive(Clone, Copy, Debug, PartialEq, Eq)]
pub struct UatMessage {
    pub header: UatHeader,
    pub state_vector: Option<StateVector>,
    pub mode_status: Option<ModeStatus>,
}

/// A decoded downlink message: the message record and, beside it, the sub-structures
/// that are reported on their own.
#[derive(Clone, Copy, Debug, PartialEq, Eq)]
pub struct Downlink {
    pub message: UatMessage,
    pub aux_state_vector: Option<AuxStateVector>,
    pub target_state: Option<TargetState>,
}

/// The 128-bit word of the sub-structure at `span`: its bytes, zero-padded to sixteen.
pub open spec fn word_u128(data: Seq<u8>, span: Span) -> u128 {
    be_value(padded_window(data, span.offset as nat, span.len as nat, 16)) as u128
}

/// The 64-bit word of the sub-structure at `span`: its bytes, zero-padded to eight.
pub open spec fn word_u64(data: Seq<u8>, span: Span) -> u64 {
    be_value(padded_window(data, span.offset as nat, span.len as nat, 8)) as u64
}

/// The header of a message of at least four bytes.
pub open spec fn header_of(data: Seq<u8>) -> UatHeader {
    UatHeader(be_value(data.subrange(0, 4)) as u32)
}

/// What a message decodes to. The first four bytes are the header; its type code gives
/// the layout; a message that is shorter than the header or than a sub-structure of the
/// layout requires is truncated.
pub open spec fn decoded(data: Seq<u8>) -> Result<Downlink, DecodeError> {
    if data.len() < 4 {
        Err(DecodeError::Truncated)
    } else {
        let header = header_of(data);
        let layout = layout_of(header.spec_code());
        if !layout.fits_in(data.len()) {
            Err(DecodeError::Truncated)
        } else {
            Ok(
                Downlink {
                    message: UatMessage {
                        header,
                        state_vector: match layout.state_vector {
                            Some(span) => Some(StateVector(word_u128(data, span))),
                            None => None,
                        },
                        mode_status: match layout.mode_status {
                            Some(span) => Some(ModeStatus(word_u128(data, span))),
                            None => None,
                        },
                    },
                    aux_state_vector: match layout.aux_state_vector {
                        Some(span) => Some(AuxStateVector(word_u64(data, span))),
                        None => None,
                    },
                    target_state: match layout.target_state {
                        Some(span) => Some(TargetState(word_u64(data, span))),
                        None => None,
                    },
                },
            )
        }
    }
}

impl UatMessage {
    /// The report of the message record. Payload types 0 and 1 give the header block,
    /// then, if there is a state vector, its block and the mode status block; the mode
    /// status block is empty where there is no mode status. Any other type gives a
    /// placeholder.
    pub open spec fn text(&self) -> Seq<char> {
        if self.header.spec_code() <= 1 {
            match self.state_vector {
                Some(sv) => self.header.text() + sv.text() + "\n"@ + (match self.mode_status {
                    Some(ms) => ms.text(),
                    None => Seq::<char>::empty(),
                }) + "\n"@,
                None => self.header.text(),
            }
        } else {
            "ASET"@
        }
    }

    /// The report of the message record.
    pub fn to_text(&self) -> (r: String)
        ensures
            r@ == self.text(),
    {
        if self.header.code() <= 1 {
            let mut out = self.header.to_text();
            match self.state_vector {
                Some(sv) => {
                    out.append(sv.to_text().as_str());
                    out.append("\n");
                    match self.mode_status {
                        Some(ms) => {
                            out.append(ms.to_text().as_str());
                        },
                        None => {},
                    }
                    out.append("\n");
                    assert(out@ =~= self.text());
                },
                None => {},
            }
            out
        } else {
            "ASET".to_owned()
        }
    }
}

impl Downlink {
    /// The report of the message: the type code, a line for the auxiliary state vector
    /// and lines for the target state where the message holds them, then the report of
    /// the message record.
    pub open spec fn text(&self) -> Seq<char> {
        "  Code: "@ + decimal(self.message.header.spec_code() as nat) + "\n"@ + (
        match self.aux_state_vector {
            Some(aux) => aux.text() + "\n"@,
            None => Seq::<char>::empty(),
        }) + (match self.target_state {
            Some(ts) => ts.text() + "\n"@,
            None => Seq::<char>::empty(),
        }) + self.message.text()
    }

    /// The report of the message.
    pub fn to_text(&self) -> (r: String)
        ensures
            r@ == self.text(),
    {
        let mut out = String::new();
        out.append("  Code: ");
        push_decimal(&mut out, self.message.header.code() as u128);
        out.append("\n");
        match self.aux_state_vector {
            Some(aux) => {
                out.append(aux.to_text().as_str());
                out.append("\n");
            },
            None => {},
        }
        match self.target_state {
            Some(ts) => {
                out.append(ts.to_text().as_str());
                out.append("\n");
            },
            None => {},
        }
        out.append(self.message.to_text().as_str());
        assert(out@ =~= self.text());
        out
    }
}

/// Decodes the bytes of a downlink message.
pub fn decode_payload(data: &[u8]) -> (r: Result<Downlink, DecodeError>)
    ensures
        r == decoded(data@),
{
    if data.len() < 4 {
        return Err(DecodeError::Truncated);
    }
    let header = UatHeader(read_be_u32(data));
    let layout = resolve_layout(header.code());
    if !layout.fits(data.len()) {
        return Err(DecodeError::Truncated);
    }
    let state_vector = match layout.state_vector {
        Some(span) => Some(StateVector(window_u128(data, span.offset, span.len))),
        None => None,
    };
    let mode_status = match layout.mode_status {
        Some(span) => Some(ModeStatus(window_u128(data, span.offset, span.len))),
        None => None,
    };
    let aux_state_vector = match layout.aux_state_vector {
        Some(span) => Some(AuxStateVector(window_u64(data, span.offset, span.len))),
        None => None,
    };
    let target_state = match layout.target_state {
        Some(span) => Some(TargetState(window_u64(data, span.offset, span.len))),
        None => None,
    };
    Ok(
        Downlink {
            message: UatMessage { header, state_vector, mode_status },
            aux_state_vector,
            target_state,
        },
    )
}

} // verus!
