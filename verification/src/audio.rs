//! Which audio mix formats the loopback analysis can read.

use vstd::prelude::*;

verus! {

/// Format tag of plain IEEE floating-point samples.
pub const WAVE_FORMAT_IEEE_FLOAT: u16 = 3;

/// Format tag of a format described by a sub-format identifier.
pub const WAVE_FORMAT_EXTENSIBLE: u16 = 0xfffe;

/// First field of the sub-format identifier of IEEE floating-point samples.
pub const SUBTYPE_IEEE_FLOAT_DATA1: u32 = 3;

/// Whether the mix format holds floating-point samples: its tag says so, or
/// it is an extensible format whose sub-format says so.
/// `subformat_data1` is the first field of the sub-format identifier, read
/// only for an extensible format.
pub fn mix_format_is_float(format_tag: u16, subformat_data1: Option<u32>) -> (r: bool)
    ensures
        r == (format_tag == WAVE_FORMAT_IEEE_FLOAT || (format_tag == WAVE_FORMAT_EXTENSIBLE
            && subformat_data1 == Some(SUBTYPE_IEEE_FLOAT_DATA1))),
{
    format_tag == WAVE_FORMAT_IEEE_FLOAT || (format_tag == WAVE_FORMAT_EXTENSIBLE && match subformat_data1 {
        Some(d) => d == SUBTYPE_IEEE_FLOAT_DATA1,
        None => false,
    })
}

} // verus!
