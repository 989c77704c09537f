//! Per-section numbering styles, including regex-pattern matching.

use vstd::prelude::*;

verus! {

/// Whether `regex::Regex::new` accepts `pattern` (with the crate's default
/// configuration). Compilation depends on the pattern text alone.
pub uninterp spec fn pattern_compiles(pattern: Seq<char>) -> bool;

/// Whether the regular expression compiled from `pattern` matches anywhere
/// in `text` (unanchored containment). The outcome depends on the pattern
/// and the text alone.
pub uninterp spec fn pattern_matches(pattern: Seq<char>, text: Seq<char>) -> bool;

#[verifier::external_type_specification]
#[verifier::external_body]
pub struct ExRegex(regex::Regex);

/// A regular expression compiled once, at configuration time, paired with
/// the pattern text it was compiled from. The two fields are private and are
/// only ever paired by [`CompiledPattern::compile`], so the regex always is
/// the compilation of the pattern text.
pub struct CompiledPattern {
    regex: regex::Regex,
    pattern: String,
}

impl View for CompiledPattern {
    type V = Seq<char>;

    /// The pattern text the regex was compiled from.
    closed spec fn view(&self) -> Seq<char> {
        self.pattern@
    }
}

impl CompiledPattern {
    /// Relies on `regex::Regex::new`: it returns `Ok` exactly on the
    /// patterns it accepts, and the compiled regex is a function of the
    /// pattern text alone.
    #[verifier::external_body]
    pub(crate) fn compile(pattern: &str) -> (r: Option<CompiledPattern>)
        ensures
            r is Some <==> pattern_compiles(pattern@),
            r matches Some(p) ==> p@ == pattern@,
    {
        match regex::Regex::new(pattern) {
            Ok(regex) => Some(CompiledPattern { regex, pattern: pattern.to_owned() }),
            Err(_) => None,
        }
    }

    /// Relies on `regex::Regex::is_match`: true if and only if the regex —
    /// here, the compilation of `self@` — matches anywhere in `text`.
    #[verifier::external_body]
    fn is_match(&self, text: &str) -> (r: bool)
        ensures
            r == pattern_matches(self@, text@),
    {
        self.regex.is_match(text)
    }
}

/// The numbering policy of one section: which of its lines receive a number.
pub enum NumberStyle {
    /// Number all lines.
    All,
    /// Number the non-empty lines.
    NonEmpty,
    /// Number no lines.
    Never,
    /// Number the lines the pattern matches.
    Pattern(CompiledPattern),
}

impl NumberStyle {
    /// The pattern style for `pattern`, when the pattern compiles.
    pub fn pattern(pattern: &str) -> (r: Option<NumberStyle>)
        ensures
            r is Some <==> pattern_compiles(pattern@),
            r matches Some(s) ==> (s matches NumberStyle::Pattern(p) && p@ == pattern@),
    {
        match CompiledPattern::compile(pattern) {
            Some(p) => Some(NumberStyle::Pattern(p)),
            None => None,
        }
    }
}

/// Whether `style` numbers a line whose text is `line`, apart from the
/// blank-line grouping rule (which is decided by the processor).
pub open spec fn spec_style_numbers(style: NumberStyle, line: Seq<char>) -> bool {
    match style {
        NumberStyle::All => true,
        NumberStyle::NonEmpty => line.len() > 0,
        NumberStyle::Never => false,
        NumberStyle::Pattern(p) => pattern_matches(p@, line),
    }
}

/// Decides whether `style` numbers the line `line`.
pub fn should_number(line: &str, style: &NumberStyle) -> (r: bool)
    ensures
        r == spec_style_numbers(*style, line@),
{
    match style {
        NumberStyle::All => true,
        NumberStyle::NonEmpty => !line.is_empty(),
        NumberStyle::Never => false,
        NumberStyle::Pattern(p) => p.is_match(line),
    }
}

} // verus!
