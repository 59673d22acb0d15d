use vstd::prelude::*;

verus! {

/// The result of searching `text` with the regular expression `pattern`:
/// the substring of the leftmost match when the pattern compiles and
/// matches somewhere, and nothing otherwise.  The search depends on the two
/// strings alone.
pub uninterp spec fn leftmost_match(pattern: Seq<char>, text: Seq<char>) -> Option<Seq<char>>;

/// Relies on regex::Regex::new, regex::Regex::find and regex::Match::as_str:
/// `new` compiles the pattern or reports a syntax error, `find` yields the
/// leftmost match of the compiled pattern in the haystack, and `as_str` is
/// the matched substring of the haystack; all three depend only on the
/// pattern and the haystack.
#[verifier::external_body]
fn regex_search(pattern: &str, text: &str) -> (r: Option<String>)
    ensures
        r is Some <==> leftmost_match(pattern@, text@) is Some,
        r matches Some(m) ==> leftmost_match(pattern@, text@) == Some(m@),
{
    match regex::Regex::new(pattern) {
        Ok(re) => re.find(text).map(|m| m.as_str().to_string()),
        Err(_) => None,
    }
}

/// What the text-matching terminal unit answers for a pattern and a text:
/// the leftmost match, or the empty string when the pattern does not
/// compile or matches nowhere.
pub open spec fn first_match_spec(pattern: Seq<char>, text: Seq<char>) -> Seq<char> {
    match leftmost_match(pattern, text) {
        Some(m) => m,
        None => Seq::empty(),
    }
}

/// The pure business logic of the text-matching handler unit: the first
/// (leftmost) match of `pattern` in `text`, or the empty string.
pub fn first_match(pattern: String, text: String) -> (r: String)
    ensures
        r@ == first_match_spec(pattern@, text@),
{
    match regex_search(pattern.as_str(), text.as_str()) {
        Some(m) => m,
        None => String::new(),
    }
}

} // verus!
