//! Compiled matching patterns: the regex engine's items that the library relies on,
//! and the fallback pattern derived from a move's raw notation.
use vstd::prelude::*;

use crate::PatternError;

verus! {

#[verifier::external_type_specification]
#[verifier::external_body]
pub struct ExRegex(regex::Regex);

/// The pattern text that a compiled regex was built from, as `Regex::as_str` gives it back.
pub uninterp spec fn regex_source(re: regex::Regex) -> Seq<char>;

/// Whether `Regex::new` accepts the pattern text.
pub uninterp spec fn regex_compiles(pattern: Seq<char>) -> bool;

/// Whether a regex built by `Regex::new` from `pattern` finds a match anywhere in `haystack`.
pub uninterp spec fn regex_matches(pattern: Seq<char>, haystack: Seq<char>) -> bool;

/// Whether the compiled regex `re` finds a match anywhere in `haystack`, as
/// `Regex::is_match` decides; it depends on how the regex was built, not on its text alone.
pub uninterp spec fn regex_accepts(re: regex::Regex, haystack: Seq<char>) -> bool;

/// The text of capture group one of each successive match of the compiled regex `re` in
/// `haystack`, for the matches in which that group takes part, as `Regex::captures_iter`
/// yields them.
pub uninterp spec fn regex_group_texts(re: regex::Regex, haystack: Seq<char>) -> Seq<Seq<char>>;

/// The text of capture group one of each successive match of a regex built by `Regex::new`
/// from `pattern` in `haystack`, for the matches in which that group takes part.
pub uninterp spec fn regex_group_one(pattern: Seq<char>, haystack: Seq<char>) -> Seq<Seq<char>>;

/// Whether a compiled regex matches exactly what its pattern text, read by `Regex::new`,
/// matches.
pub open spec fn reads_as_written(re: regex::Regex) -> bool {
    forall|h: Seq<char>| #[trigger] regex_accepts(re, h) == regex_matches(regex_source(re), h)
}

/// Relies on `regex::Regex::new`: it fails or succeeds by the pattern alone, and a regex it
/// builds keeps the pattern text (`Regex::as_str`) and matches as the default configuration
/// reads that text.
#[verifier::external_body]
pub(crate) fn compile_regex(pattern: &str) -> (r: Option<regex::Regex>)
    ensures
        r is Some <==> regex_compiles(pattern@),
        r is Some ==> regex_source(r->Some_0) == pattern@,
        r is Some ==> forall|h: Seq<char>|
            #[trigger] regex_accepts(r->Some_0, h) == regex_matches(pattern@, h),
        r is Some ==> forall|h: Seq<char>|
            #[trigger] regex_group_texts(r->Some_0, h) == regex_group_one(pattern@, h),
{
    regex::Regex::new(pattern).ok()
}

/// Relies on `regex::Regex::is_match`: whether there is a match anywhere in the haystack.
#[verifier::external_body]
pub(crate) fn regex_is_match(re: &regex::Regex, haystack: &str) -> (r: bool)
    ensures
        r == regex_accepts(*re, haystack@),
{
    re.is_match(haystack)
}

/// Relies on `regex::Regex::as_str`: the pattern text that the regex was built from.
pub assume_specification[ regex::Regex::as_str ](re: &regex::Regex) -> (r: &str)
    ensures
        r@ == regex_source(*re),
;

/// Relies on the `Clone` impl of `regex::Regex`, which copies the pattern text and the
/// compiled matcher.
pub assume_specification[ <regex::Regex as Clone>::clone ](re: &regex::Regex) -> (r: regex::Regex)
    ensures
        regex_source(r) == regex_source(*re),
        forall|h: Seq<char>| #[trigger] regex_accepts(r, h) == regex_accepts(*re, h),
        forall|h: Seq<char>| #[trigger] regex_group_texts(r, h) == regex_group_texts(*re, h),
;

/// Relies on `regex::Regex::captures_iter`: capture group one of every match, in order.
#[verifier::external_body]
pub(crate) fn regex_group_one_texts(re: &regex::Regex, haystack: &str) -> (r: Vec<String>)
    ensures
        r@.map_values(|s: String| s@) == regex_group_texts(*re, haystack@),
{
    re.captures_iter(haystack).flat_map(|c| c.get(1)).map(|m| m.as_str().to_string()).collect()
}

/// The characters that `regex::escape` puts a backslash before.
pub open spec fn is_meta_character(c: char) -> bool {
    c == '\\' || c == '.' || c == '+' || c == '*' || c == '?' || c == '(' || c == ')' || c == '|'
        || c == '[' || c == ']' || c == '{' || c == '}' || c == '^' || c == '$' || c == '#'
        || c == '&' || c == '-' || c == '~'
}

/// `s` with a backslash before each meta character.
pub open spec fn escaped(s: Seq<char>) -> Seq<char>
    decreases s.len(),
{
    if s.len() == 0 {
        Seq::empty()
    } else {
        let head = if is_meta_character(s[0]) { seq!['\\', s[0]] } else { seq![s[0]] };
        head + escaped(s.drop_first())
    }
}

/// Relies on `regex::escape`, which puts a backslash before each meta character.
#[verifier::external_body]
fn escape_literal(s: &str) -> (r: String)
    ensures
        r@ == escaped(s@),
{
    regex::escape(s)
}

/// The fallback pattern text of one character of a notation: a dot becomes an optional
/// wildcard, any other character is escaped.
pub open spec fn fallback_piece(c: char) -> Seq<char> {
    if c == '.' {
        seq!['.', '?']
    } else {
        escaped(seq![c])
    }
}

/// The fallback pattern text of a notation, before anchoring: its characters' pieces in order.
pub open spec fn fallback_body(s: Seq<char>) -> Seq<char>
    decreases s.len(),
{
    if s.len() == 0 {
        Seq::empty()
    } else {
        fallback_body(s.drop_last()) + fallback_piece(s.last())
    }
}

/// The pattern derived from a raw notation when no alias is bound to a move: the notation
/// taken literally but with each dot an optional wildcard, matched as the whole string and
/// without regard to case.
pub open spec fn fallback_source(notation: Seq<char>) -> Seq<char> {
    seq!['(', '?', 'i', ')', '^', '('] + fallback_body(notation) + seq![')', '$']
}

/// Builds the fallback pattern of a raw notation; fails only where the regex engine refuses it.
pub fn fallback_regex(notation: &str) -> (r: Result<regex::Regex, PatternError>)
    ensures
        r is Ok <==> regex_compiles(fallback_source(notation@)),
        r is Ok ==> regex_source(r->Ok_0) == fallback_source(notation@),
        r is Ok ==> reads_as_written(r->Ok_0),
        r is Err ==> r->Err_0.pattern@ == fallback_source(notation@),
{
    let mut source = String::from_str("(?i)^(");
    proof {
        reveal_strlit("(?i)^(");
        reveal_strlit(".?");
        reveal_strlit(")$");
    }
    let n = notation.unicode_len();
    let mut i: usize = 0;
    while i < n
        invariant
            n == notation@.len(),
            i <= n,
            source@ == seq!['(', '?', 'i', ')', '^', '('] + fallback_body(notation@.take(i as int)),
        decreases n - i,
    {
        let c = notation.get_char(i);
        proof {
            let t = notation@.take(i + 1);
            assert(t.drop_last() =~= notation@.take(i as int));
            assert(t.last() == c);
            assert(fallback_body(t) == fallback_body(notation@.take(i as int)) + fallback_piece(c));
            assert(notation@.subrange(i as int, i + 1) =~= seq![c]);
        }
        if c == '.' {
            proof {
                reveal_strlit(".?");
            }
            source.append(".?");
        } else {
            let piece = escape_literal(notation.substring_char(i, i + 1));
            source.append(piece.as_str());
        }
        assert(source@ =~= seq!['(', '?', 'i', ')', '^', '('] + fallback_body(notation@.take(i + 1)));
        i += 1;
    }
    source.append(")$");
    proof {
        assert(notation@.take(n as int) =~= notation@);
        assert(source@ =~= fallback_source(notation@));
    }
    match compile_regex(source.as_str()) {
        Some(re) => Ok(re),
        None => Err(PatternError { pattern: source }),
    }
}

} // verus!
