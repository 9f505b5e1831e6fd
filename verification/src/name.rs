//! Glyph and anchor name validation.
//!
//! Names identify glyphs and anchors. A name is well-formed when it is
//! non-empty and contains no control character; the check itself is made by
//! the `norad` crate, whose rule `valid_name` states exactly.

use vstd::prelude::*;

verus! {

/// A character that the glyph-name rule rejects: the C0 controls
/// (`0x00..=0x1F`), delete (`0x7F`) and the C1 controls (`0x80..=0x9F`).
pub open spec fn is_name_control_char(c: char) -> bool {
    c as u32 <= 0x1f || (0x7f <= c as u32 && c as u32 <= 0x9f)
}

/// A well-formed glyph or anchor name: non-empty, with no control character.
pub open spec fn valid_name(s: Seq<char>) -> bool {
    s.len() > 0 && (forall|i: int| 0 <= i < s.len() ==> !is_name_control_char(s[i]))
}

/// The recoverable error raised when a supplied name breaks the rule above.
#[derive(Debug, Clone, PartialEq, Eq, Structural)]
pub enum NameError {
    InvalidName,
}

/// Relies on `norad::Name::new`: it returns `Ok` exactly when the string is
/// non-empty and none of its characters is a control character
/// (`0x00..=0x1F`, `0x7F`, `0x80..=0x9F`).
#[verifier::external_body]
pub(crate) fn name_is_valid(s: &str) -> (r: bool)
    ensures
        r == valid_name(s@),
{
    norad::Name::new(s).is_ok()
}

} // verus!
