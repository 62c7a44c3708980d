//! Which sub-structures a payload of a given type holds, and where.
//!
//! Byte 0 is the first byte of the header. A payload of type 6 carries its target state
//! in bytes 24 to 27, inside the range where other types carry the mode status.

use vstd::prelude::*;

verus! {

/// A range of bytes in a message.
#[derive(Clone, Copy, Debug, PartialEq, Eq)]
pub struct Span {
    pub offset: usize,
    pub len: usize,
}

impl Span {
    /// Whether the range lies within the first `available` bytes.
    pub open spec fn fits_in(&self, available: nat) -> bool {
        self.offset + self.len <= available
    }

    /// Whether the range lies within the first `available` bytes.
    pub fn fits(&self, available: usize) -> (r: bool)
        ensures
            r == self.fits_in(available as nat),
    {
        self.len <= available && self.offset <= available - self.len
    }
}

/// The ranges of the sub-structures that a payload holds; `None` for one that it lacks.
#[derive(Clone, Copy, Debug, PartialEq, Eq)]
pub struct Layout {
    pub state_vector: Option<Span>,
    pub mode_status: Option<Span>,
    pub aux_state_vector: Option<Span>,
    pub target_state: Option<Span>,
}

/// Whether an optional range, if there is one, lies within the first `available` bytes.
pub open spec fn span_fits_in(span: Option<Span>, available: nat) -> bool {
    match span {
        Some(s) => s.fits_in(available),
        None => true,
    }
}

/// The layout of a payload with the given type code. Type codes above 6 hold nothing
/// that is decoded.
pub open spec fn layout_of(type_code: u32) -> Layout {
    let state_vector = Some(Span { offset: 4, len: 13 });
    let mode_status = Some(Span { offset: 17, len: 11 });
    let trailer = Some(Span { offset: 29, len: 4 });
    if type_code == 0 {
        Layout { state_vector, mode_status: None, aux_state_vector: None, target_state: None }
    } else if type_code == 1 {
        Layout { state_vector, mode_status, aux_state_vector: trailer, target_state: None }
    } else if type_code == 2 {
        Layout {
            state_vector: None,
            mode_status: None,
            aux_state_vector: trailer,
            target_state: None,
        }
    } else if type_code == 3 {
        Layout { state_vector: None, mode_status, aux_state_vector: None, target_state: trailer }
    } else if type_code == 4 {
        Layout {
            state_vector: None,
            mode_status: None,
            aux_state_vector: None,
            target_state: trailer,
        }
    } else if type_code == 5 {
        Layout {
            state_vector: None,
            mode_status: None,
            aux_state_vector: trailer,
            target_state: None,
        }
    } else if type_code == 6 {
        Layout {
            state_vector: None,
            mode_status: None,
            aux_state_vector: trailer,
            target_state: Some(Span { offset: 24, len: 4 }),
        }
    } else {
        Layout {
            state_vector: None,
            mode_status: None,
            aux_state_vector: None,
            target_state: None,
        }
    }
}

impl Layout {
    /// Whether every sub-structure of the layout lies within the first `available` bytes.
    pub open spec fn fits_in(&self, available: nat) -> bool {
        &&& span_fits_in(self.state_vector, available)
        &&& span_fits_in(self.mode_status, available)
        &&& span_fits_in(self.aux_state_vector, available)
        &&& span_fits_in(self.target_state, available)
    }

    /// Whether every sub-structure of the layout lies within the first `available` bytes.
    pub fn fits(&self, available: usize) -> (r: bool)
        ensures
            r == self.fits_in(available as nat),
    {
        option_span_fits(self.state_vector, available) && option_span_fits(
            self.mode_status,
            available,
        ) && option_span_fits(self.aux_state_vector, available) && option_span_fits(
            self.target_state,
            available,
        )
    }
}

/// Whether an optional range, if there is one, lies within the first `available` bytes.
fn option_span_fits(span: Option<Span>, available: usize) -> (r: bool)
    ensures
        r == span_fits_in(span, available as nat),
{
    match span {
        Some(s) => s.fits(available),
        None => true,
    }
}

/// The layout of a payload with the given type code.
pub fn resolve_layout(type_code: u32) -> (r: Layout)
    ensures
        r == layout_of(type_code),
{
    let state_vector = Some(Span { offset: 4, len: 13 });
    let mode_status = Some(Span { offset: 17, len: 11 });
    let trailer = Some(Span { offset: 29, len: 4 });
    match type_code {
        0 => Layout { state_vector, mode_status: None, aux_state_vector: None, target_state: None },
        1 => Layout { state_vector, mode_status, aux_state_vector: trailer, target_state: None },
        2 | 5 => Layout {
            state_vector: None,
            mode_status: None,
            aux_state_vector: trailer,
            target_state: None,
        },
        3 => Layout {
            state_vector: None,
            mode_status,
            aux_state_vector: None,
            target_state: trailer,
        },
        4 => Layout {
            state_vector: None,
            mode_status: None,
            aux_state_vector: None,
            target_state: trailer,
        },
        6 => Layout {
            state_vector: None,
            mode_status: None,
            aux_state_vector: trailer,
            target_state: Some(Span { offset: 24, len: 4 }),
        },
        _ => Layout {
            state_vector: None,
            mode_status: None,
            aux_state_vector: None,
            target_state: None,
        },
    }
}

} // verus!
