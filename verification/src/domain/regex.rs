//! Bounded regex compilation and the hostile-text check for free-text input.

use vstd::prelude::*;

verus! {

/// Max compiled regex heap for product patterns.
pub const REGEX_SIZE_LIMIT_BYTES: usize = 262144;
/// Max DFA cache for product patterns.
pub const REGEX_DFA_SIZE_LIMIT_BYTES: usize = 262144;

#[verifier::external_type_specification]
#[verifier::external_body]
pub struct ExRegex(::regex::Regex);

#[verifier::external_type_specification]
#[verifier::external_body]
pub struct ExRegexError(::regex::Error);

/// Whether `text` matches the regular expression `pattern` (Rust `regex`
/// syntax: Unicode-aware classes, unanchored search).
pub uninterp spec fn pattern_matches(pattern: Seq<char>, text: Seq<char>) -> bool;

/// Whether `pattern` builds under the product's size and DFA budgets
/// (`RegexBuilder` with [`REGEX_SIZE_LIMIT_BYTES`] and
/// [`REGEX_DFA_SIZE_LIMIT_BYTES`]); it depends on the pattern alone.
pub uninterp spec fn bounded_regex_compiles(pattern: Seq<char>) -> bool;

/// A compiled product pattern, kept together with its source text.
pub struct BoundedRegex {
    pattern: String,
    re: ::regex::Regex,
}

impl BoundedRegex {
    /// Source text of the compiled pattern.
    pub closed spec fn pattern_of(&self) -> Seq<char> {
        self.pattern@
    }

    /// Whether `text` matches the pattern (`Regex::is_match`).
    #[verifier::external_body]
    pub fn is_match(&self, text: &str) -> (r: bool)
        ensures
            r == pattern_matches(self.pattern_of(), text@),
    {
        self.re.is_match(text)
    }
}

/// Compile a pattern with explicit size and DFA budgets (`RegexBuilder`).
///
/// The contract claims that the build succeeds exactly when the pattern
/// builds under the fixed budgets (named [`bounded_regex_compiles`], a
/// function of the pattern text alone) and that a success carries the given
/// pattern.
#[verifier::external_body]
pub(crate) fn compile_bounded_regex(pattern: &str) -> (r: Result<BoundedRegex, ::regex::Error>)
    ensures
        r is Ok <==> bounded_regex_compiles(pattern@),
        r matches Ok(b) ==> b.pattern_of() == pattern@,
{
    ::regex::RegexBuilder::new(pattern)
        .size_limit(REGEX_SIZE_LIMIT_BYTES)
        .dfa_size_limit(REGEX_DFA_SIZE_LIMIT_BYTES)
        .build()
        .map(|re| BoundedRegex { pattern: pattern.to_owned(), re })
}

/// C0/C1 controls, zero-width characters, word joiner, BOM, and bidi
/// embeddings, overrides and isolates: characters that must not appear in
/// free-text CLI input.
pub open spec fn hostile_text_char(c: char) -> bool {
    let u = c as u32;
    u <= 0x1F || (0x7F <= u && u <= 0x9F) || u == 0x200B || u == 0x200C || u == 0x200D
        || u == 0x2060 || u == 0xFEFF || (0x202A <= u && u <= 0x202E) || (0x2066 <= u && u
        <= 0x2069)
}

/// True when `c` is a control or a format/invisible character.
pub(crate) fn is_hostile_text_char(c: char) -> (r: bool)
    ensures
        r == hostile_text_char(c),
{
    let u = c as u32;
    u <= 0x1F || (0x7F <= u && u <= 0x9F) || u == 0x200B || u == 0x200C || u == 0x200D
        || u == 0x2060 || u == 0xFEFF || (0x202A <= u && u <= 0x202E) || (0x2066 <= u && u
        <= 0x2069)
}

} // verus!
