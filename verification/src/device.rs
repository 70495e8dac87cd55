//! Recognising the wheel among the attached devices.

use vstd::prelude::*;

verus! {

/// The USB vendor number under which the wheel reports itself.
pub const VENDOR_ID: u16 = 1103;

/// `needle` stands somewhere in `text` as a contiguous run of characters.
pub open spec fn occurs_in(needle: Seq<char>, text: Seq<char>) -> bool {
    exists|i: int|
        0 <= i && i + needle.len() <= text.len() && #[trigger] text.subrange(
            i,
            i + needle.len(),
        ) == needle
}

/// A device is taken for the wheel when it carries the vendor number and its
/// product name holds the word `Wheel`. A device without a product name is
/// never taken.
pub open spec fn is_wheel(vendor_id: u16, product: Option<Seq<char>>) -> bool {
    vendor_id == VENDOR_ID && match product {
        Some(name) => occurs_in("Wheel"@, name),
        None => false,
    }
}

/// `str::contains` of the standard library with a string as the pattern:
/// whether the pattern matches a sub-slice of the text.
#[verifier::external_body]
fn contains_text(text: &str, needle: &str) -> (found: bool)
    ensures
        found == occurs_in(needle@, text@),
{
    text.contains(needle)
}

/// Decides whether an attached device is the wheel, from its vendor number
/// and its product name, if it has one.
pub fn matches_wheel(vendor_id: u16, product: Option<&str>) -> (matched: bool)
    ensures
        matched == is_wheel(
            vendor_id,
            match product {
                Some(name) => Some(name@),
                None => None,
            },
        ),
{
    match product {
        Some(name) => vendor_id == VENDOR_ID && contains_text(name, "Wheel"),
        None => false,
    }
}

/// A product name of fewer than five characters cannot hold the word.
pub proof fn lemma_short_name_is_no_wheel(vendor_id: u16, name: Seq<char>)
    requires
        name.len() < 5,
    ensures
        !is_wheel(vendor_id, Some(name)),
{
    reveal_strlit("Wheel");
}

} // verus!
