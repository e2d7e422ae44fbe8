//! Display width of text on a terminal.

use vstd::prelude::*;

verus! {

/// The number of terminal columns that `text` occupies, as
/// `textwrap::core::display_width` computes it: wide characters count twice,
/// escape sequences that only style the text count nothing.
pub uninterp spec fn display_width_of(text: Seq<char>) -> nat;

/// Calls `textwrap::core::display_width`. The width depends on the characters
/// of the text alone, so the result is the named width of the text's view.
#[verifier::external_body]
pub(crate) fn display_width(text: &str) -> (width: usize)
    ensures
        width == display_width_of(text@),
{
    textwrap::core::display_width(text)
}

} // verus!
