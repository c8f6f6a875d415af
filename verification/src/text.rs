//! Small helpers for putting messages together.

use vstd::prelude::*;
use vstd::string::StringExecFns;

verus! {

/// The text of `text` as `Debug` formatting shows it: in double quotes, with escapes.
pub uninterp spec fn debug_quoted(text: Seq<char>) -> Seq<char>;

/// Formats a string with `{:?}`.
///
/// Trusted: the outcome of the standard library's `Debug` formatting of a `str` depends on the
/// string alone.
#[verifier::external_body]
pub(crate) fn quoted(text: &str) -> (r: String)
    ensures
        r@ == debug_quoted(text@),
{
    format!("{:?}", text)
}

/// `first` followed by `second`.
pub(crate) fn concat(first: &str, second: &str) -> (r: String)
    ensures
        r@ == first@ + second@,
{
    let mut out = first.to_owned();
    out.append(second);
    out
}

/// `first` followed by `second` and `third`.
pub(crate) fn concat3(first: &str, second: &str, third: &str) -> (r: String)
    ensures
        r@ == first@ + second@ + third@,
{
    let mut out = first.to_owned();
    out.append(second);
    out.append(third);
    out
}

} // verus!
