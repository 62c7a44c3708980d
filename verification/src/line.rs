//! A line of input: the channel that its first character selects, and its report.
//!
//! `+` marks an uplink line, which is passed on as it is. `-` marks a downlink line: what
//! follows is the message in hexadecimal digits, up to the end of the line or to a `;`
//! that starts a suffix of metadata, which is not read.

use crate::hex_text::{hex_decode, hex_decoded, is_hex_text};
use crate::message::{decode_payload, decoded, DecodeError, Downlink};
use vstd::prelude::*;
use vstd::string::*;
use vstd::utf8::encode_utf8;

verus! {

/// The channel of a line.
#[derive(Clone, Copy, Debug, PartialEq, Eq)]
pub enum Channel {
    Uplink,
    Downlink,
    Unrecognized,
}

/// The channel that the first character of a line selects. An empty line selects none.
pub open spec fn channel_of(line: Seq<char>) -> Channel {
    if line.len() > 0 && line[0] == '+' {
        Channel::Uplink
    } else if line.len() > 0 && line[0] == '-' {
        Channel::Downlink
    } else {
        Channel::Unrecognized
    }
}

/// The number of bytes of a text before its first `;` (the byte 0x3b); all of them where
/// it has none.
pub open spec fn payload_len(text: Seq<u8>) -> nat
    decreases text.len(),
{
    if text.len() == 0 || text[0] == 0x3b {
        0
    } else {
        1 + payload_len(text.drop_first())
    }
}

/// The part of a text before its first `;`.
pub open spec fn payload_of(text: Seq<u8>) -> Seq<u8> {
    text.subrange(0, payload_len(text) as int)
}

/// What the text of a downlink line, without its marker and given as bytes, decodes to.
pub open spec fn downlink_of(text: Seq<u8>) -> Result<Downlink, DecodeError> {
    let payload = payload_of(text);
    if is_hex_text(payload) {
        decoded(hex_decoded(payload))
    } else {
        Err(DecodeError::MalformedHex)
    }
}

/// The report of a line: the channel, the line without its marker and, for a downlink
/// line, the report of the message.
pub open spec fn line_report(line: Seq<char>) -> Result<Seq<char>, DecodeError> {
    match channel_of(line) {
        Channel::Uplink => Ok("UPLINK\n"@ + line.skip(1)),
        Channel::Downlink => match downlink_of(encode_utf8(line.skip(1))) {
            Ok(downlink) => Ok("DOWNLINK\n"@ + line.skip(1) + "\n"@ + downlink.text()),
            Err(e) => Err(e),
        },
        Channel::Unrecognized => Ok("UNKNOWN MESSAGE"@),
    }
}

/// The payload ends at `n` exactly when no byte before `n` is a `;` and `n` is the end of
/// the text or the place of a `;`.
pub proof fn lemma_payload_len(text: Seq<u8>, n: int)
    requires
        0 <= n <= text.len(),
        forall|k: int| 0 <= k < n ==> text[k] != 0x3b,
        n == text.len() || text[n] == 0x3b,
    ensures
        payload_len(text) == n,
    decreases n,
{
    if n > 0 {
        let rest = text.drop_first();
        assert forall|k: int| 0 <= k < n - 1 implies rest[k] != 0x3b by {
            assert(rest[k] == text[k + 1]);
        }
        lemma_payload_len(rest, n - 1);
    }
}

/// The channel that the first character of a line selects.
pub fn channel(line: &str) -> (r: Channel)
    ensures
        r == channel_of(line@),
{
    if line.unicode_len() == 0 {
        Channel::Unrecognized
    } else {
        let first = line.get_char(0);
        if first == '+' {
            Channel::Uplink
        } else if first == '-' {
            Channel::Downlink
        } else {
            Channel::Unrecognized
        }
    }
}

/// Decodes the text of a downlink line, given without its marker.
pub fn decode_downlink(text: &str) -> (r: Result<Downlink, DecodeError>)
    ensures
        r == downlink_of(text.spec_bytes()),
{
    let bytes = text.as_bytes();
    let mut end: usize = 0;
    while end < bytes.len() && bytes[end] != 0x3b
        invariant
            end <= bytes@.len(),
            forall|k: int| 0 <= k < end ==> bytes@[k] != 0x3b,
        decreases bytes@.len() - end,
    {
        end = end + 1;
    }
    proof {
        lemma_payload_len(bytes@, end as int);
    }
    match hex_decode(&bytes[0..end]) {
        Ok(data) => decode_payload(data.as_slice()),
        Err(_) => Err(DecodeError::MalformedHex),
    }
}

/// The report of a line.
pub fn report_line(line: &str) -> (r: Result<String, DecodeError>)
    ensures
        match r {
            Ok(report) => line_report(line@) == Ok::<Seq<char>, DecodeError>(report@),
            Err(e) => line_report(line@) == Err::<Seq<char>, DecodeError>(e),
        },
{
    match channel(line) {
        Channel::Uplink => {
            let rest = line.substring_char(1, line.unicode_len());
            let mut out = String::new();
            out.append("UPLINK\n");
            out.append(rest);
            assert(out@ =~= "UPLINK\n"@ + line@.skip(1));
            Ok(out)
        },
        Channel::Downlink => {
            let rest = line.substring_char(1, line.unicode_len());
            match decode_downlink(rest) {
                Ok(downlink) => {
                    let mut out = String::new();
                    out.append("DOWNLINK\n");
                    out.append(rest);
                    out.append("\n");
                    out.append(downlink.to_text().as_str());
                    assert(out@ =~= "DOWNLINK\n"@ + line@.skip(1) + "\n"@ + downlink.text());
                    Ok(out)
                },
                Err(e) => Err(e),
            }
        },
        Channel::Unrecognized => Ok("UNKNOWN MESSAGE".to_owned()),
    }
}

} // verus!
