//! The closed set of frame color formats a video renderer may request.
//!
//! The format is validated before a renderer registration crosses into the
//! native engine: an invalid value is a synchronous validation error, not a
//! silently ignored registration.

use vstd::prelude::*;

use crate::text::str_eq;

verus! {

/// Whether `s` names a supported frame color format.
pub open spec fn is_color_format(s: Seq<char>) -> bool {
    ||| s == "RGBA"@
    ||| s == "BGRA"@
    ||| s == "ARGB"@
    ||| s == "ABGR"@
    ||| s == "I420"@
    ||| s == "NV12"@
}

/// Validates a frame color format name.
pub fn valid_color_format(s: &str) -> (r: bool)
    ensures
        r == is_color_format(s@),
{
    str_eq(s, "RGBA") || str_eq(s, "BGRA") || str_eq(s, "ARGB") || str_eq(s, "ABGR") || str_eq(
        s,
        "I420",
    ) || str_eq(s, "NV12")
}

} // verus!
