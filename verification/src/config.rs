//! The read-only configuration the processor consumes.

use vstd::prelude::*;
use crate::format::NumberFormat;
use crate::style::NumberStyle;

verus! {

/// The configuration of one run, produced by the argument layer and
/// consumed read-only. Width and grouping factor are validated positive
/// before the core ever runs.
pub struct Config {
    /// Numbering style of the header section.
    pub header_style: NumberStyle,
    /// Numbering style of the body section.
    pub body_style: NumberStyle,
    /// Numbering style of the footer section.
    pub footer_style: NumberStyle,
    /// Justification of the rendered number.
    pub number_format: NumberFormat,
    /// Width of the number field, in characters.
    pub number_width: usize,
    /// Separator emitted between the number and the line text.
    pub separator: String,
    /// First line number of each section.
    pub start_number: i64,
    /// Amount the line number advances by after a numbered line.
    pub increment: i64,
    /// Grouping factor: among consecutive blank lines, only each
    /// `join_blank`-th is numbered (under the all-lines style).
    pub join_blank: usize,
    /// When set, section transitions leave the line number unchanged.
    pub no_renumber: bool,
    /// Two-character base of the section-delimiter lines.
    pub section_delimiter: [char; 2],
}

impl Config {
    /// What the external argument layer guarantees of every configuration.
    pub open spec fn wf(self) -> bool {
        self.number_width > 0 && self.join_blank > 0
    }
}

impl Default for Config {
    /// The default configuration: body numbered when non-empty, header and
    /// footer never, right-justified width 6, tab separator, numbering
    /// 1, 2, 3, ..., grouping factor 1, resets on, delimiter base `\:`.
    fn default() -> (c: Config)
        ensures
            c.wf(),
            c.header_style is Never,
            c.body_style is NonEmpty,
            c.footer_style is Never,
            c.number_format is Right,
            c.number_width == 6,
            c.separator@ == "\t"@,
            c.start_number == 1,
            c.increment == 1,
            c.join_blank == 1,
            !c.no_renumber,
            c.section_delimiter[0] == '\\',
            c.section_delimiter[1] == ':',
    {
        Config {
            header_style: NumberStyle::Never,
            body_style: NumberStyle::NonEmpty,
            footer_style: NumberStyle::Never,
            number_format: NumberFormat::Right,
            number_width: 6,
            separator: String::from_str("\t"),
            start_number: 1,
            increment: 1,
            join_blank: 1,
            no_renumber: false,
            section_delimiter: ['\\', ':'],
        }
    }
}

} // verus!
