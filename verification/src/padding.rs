//! Padding to a column width, by the `pad` crate.
use crate::text;
use pad::{Alignment, PadStr};
use vstd::prelude::*;

verus! {

/// The columns that `pad` counts for a text, by the rules of the `unicode-width` crate.
pub uninterp spec fn display_columns(text: Seq<char>) -> nat;

/// `PadStr::with_exact_width` on a text of at most `width` bytes.
///
/// It counts the columns of the text. Where they are fewer than `width` it appends a space for
/// each one that is missing. Otherwise it keeps the first `width` bytes; no character takes more
/// columns than bytes, so that is the whole text here. A printable ASCII character takes one
/// column.
#[verifier::external_body]
pub(crate) fn with_exact_width(text: &str, width: usize) -> (r: String)
    requires
        vstd::utf8::encode_utf8(text@).len() <= width,
    ensures
        r@ == text@ + text::repeated(' ', width - display_columns(text@)),
        text::printable_ascii(text@) ==> r@ == text@ + text::repeated(' ', width - text@.len()),
{
    text.with_exact_width(width)
}

/// `PadStr::pad` on printable ASCII text, aligned to the left.
///
/// It appends `pad_char` until the text is `width` characters long. A longer text is cut to
/// `width` characters where `truncate` is set, and otherwise kept.
#[verifier::external_body]
pub(crate) fn pad_left_aligned(text: &str, width: usize, pad_char: char, truncate: bool) -> (r:
    String)
    requires
        text::printable_ascii(text@),
    ensures
        text@.len() > width && truncate ==> r@ == text@.take(width as int),
        !(text@.len() > width && truncate) ==> r@ == text@ + text::repeated(
            pad_char,
            width - text@.len(),
        ),
{
    text.pad(width, pad_char, Alignment::Left, truncate)
}

} // verus!
