//! Decoder for UAT ADS-B downlink messages: header, payload layout, the
//! bit-packed sub-structures and their physical values, and a text report.

pub mod aux_state_vector;
pub mod bits;
pub mod bytes;
pub mod header;
pub mod hex_text;
pub mod layout;
pub mod line;
pub mod message;
pub mod mode_status;
pub mod state_vector;
pub mod target_state;
pub mod text;
