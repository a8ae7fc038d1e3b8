use vstd::prelude::*;

verus! {

/// What `str::trim` leaves of a text: the text without leading and
/// trailing Unicode whitespace.
pub uninterp spec fn trim_of(s: Seq<char>) -> Seq<char>;

/// What `str::to_lowercase` makes of a text: its simple lower-case mapping.
pub uninterp spec fn lower_of(s: Seq<char>) -> Seq<char>;

/// Relies on `str::trim`: the slice depends on the characters alone.
#[verifier::external_body]
fn trim_whitespace(s: &str) -> (r: &str)
    ensures
        r@ == trim_of(s@),
{
    s.trim()
}

/// Relies on `str::to_lowercase`: the result depends on the characters alone.
#[verifier::external_body]
pub(crate) fn lowercase(s: &str) -> (r: String)
    ensures
        r@ == lower_of(s@),
{
    s.to_lowercase()
}

/// The lookup key of a raw line of input: trimmed (line terminator
/// included), then lower-cased. An empty key means that nothing was entered.
pub fn normalize_name(raw: &str) -> (r: String)
    ensures
        r@ == lower_of(trim_of(raw@)),
{
    let trimmed = trim_whitespace(raw);
    lowercase(trimmed)
}

} // verus!
