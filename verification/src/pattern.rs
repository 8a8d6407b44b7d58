//! Regular expressions, as the `regex` crate matches them.

use vstd::prelude::*;

verus! {

/// What a search with a regular expression finds. `None`: `pattern` is not a
/// regular expression that the `regex` crate accepts. `Some(None)`: it is,
/// and either nothing in `text` matches it or the leftmost match does not
/// include the capture group numbered `group`. `Some(Some(s))`: in the
/// leftmost match that group matched `s`.
pub uninterp spec fn captured(pattern: Seq<char>, text: Seq<char>, group: nat) -> Option<
    Option<Seq<char>>,
>;

/// `regex::Error`: why a pattern was not accepted. Nothing of it is looked
/// into here.
#[verifier::external_type_specification]
#[verifier::external_body]
pub struct ExRegexError(regex::Error);

/// Compiles `pattern` with `regex::Regex::new`, searches `text` with
/// `Regex::captures`, and copies what `Captures::get(group)` matched. The
/// outcome depends on the three arguments alone; `captured` is the name this
/// library gives to it, and nothing more is claimed of it.
#[verifier::external_body]
pub(crate) fn capture(pattern: &str, text: &str, group: usize) -> (r: Result<
    Option<String>,
    regex::Error,
>)
    ensures
        captured(pattern@, text@, group as nat) == match r {
            Ok(Some(s)) => Some(Some(s@)),
            Ok(None) => Some(None),
            Err(_) => None,
        },
{
    let re = regex::Regex::new(pattern)?;
    match re.captures(text) {
        Some(caps) => match caps.get(group) {
            Some(m) => Ok(Some(m.as_str().to_owned())),
            None => Ok(None),
        },
        None => Ok(None),
    }
}

} // verus!
