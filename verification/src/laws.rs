//! Laws of the processor: how the counter progresses, what delimiter lines
//! do, and how blank-line grouping throttles numbering.

use vstd::prelude::*;
use crate::config::Config;
use crate::format::spec_repeat;
use crate::processor::{
    spec_next_state, spec_numbers_line, spec_output_line, spec_state_at, spec_step_fits,
    spec_style_for, ProcState,
};
use crate::section::spec_delim_target;

verus! {

/// Whether line `j` of a pass over `lines` receives a number.
pub open spec fn spec_line_numbered(cfg: Config, lines: Seq<Seq<char>>, j: int) -> bool {
    spec_delim_target(cfg.section_delimiter, lines[j]) is None && spec_numbers_line(
        cfg,
        spec_state_at(cfg, lines, j),
        lines[j],
    )
}

/// How many of the lines `r..i` of a pass over `lines` receive a number.
pub open spec fn spec_numbered_count(cfg: Config, lines: Seq<Seq<char>>, r: int, i: int) -> int
    decreases i - r,
{
    if i <= r {
        0
    } else {
        spec_numbered_count(cfg, lines, r, i - 1) + if spec_line_numbered(cfg, lines, i - 1) {
            1int
        } else {
            0int
        }
    }
}

/// Law: within a section, between resets, the numbers assigned are exactly
/// start, start + increment, start + 2 * increment, ... in input order.
/// From a point `r` where the counter holds the starting number, across
/// lines that are no delimiters, the counter just before line `i` is the
/// starting number advanced once per numbered line.
pub proof fn lemma_counter_progression(cfg: Config, lines: Seq<Seq<char>>, r: int, i: int)
    requires
        0 <= r <= i <= lines.len(),
        spec_state_at(cfg, lines, r).line_number == cfg.start_number,
        forall|k: int|
            r <= k < i ==> spec_delim_target(cfg.section_delimiter, #[trigger] lines[k]) is None,
        forall|k: int|
            r <= k < i ==> spec_step_fits(cfg, spec_state_at(cfg, lines, k), #[trigger] lines[k]),
    ensures
        spec_state_at(cfg, lines, i).line_number == cfg.start_number + spec_numbered_count(
            cfg,
            lines,
            r,
            i,
        ) * cfg.increment,
    decreases i - r,
{
    if i > r {
        lemma_counter_progression(cfg, lines, r, i - 1);
        let c = spec_numbered_count(cfg, lines, r, i - 1);
        if spec_line_numbered(cfg, lines, i - 1) {
            assert((c + 1) * cfg.increment == c * cfg.increment + cfg.increment)
                by (nonlinear_arith);
        }
    }
}

/// Law: the output of a numbered line carries exactly the number the
/// progression assigns to it. From a point `r` where the counter holds the
/// starting number, across lines that are no delimiters, a numbered line
/// `i` is emitted as the rendering of start + count * increment — where
/// `count` is how many lines were numbered since `r` — followed by the
/// separator and the line text.
pub proof fn lemma_numbered_output(cfg: Config, lines: Seq<Seq<char>>, r: int, i: int)
    requires
        0 <= r <= i < lines.len(),
        spec_state_at(cfg, lines, r).line_number == cfg.start_number,
        forall|k: int|
            r <= k < i ==> spec_delim_target(cfg.section_delimiter, #[trigger] lines[k]) is None,
        forall|k: int|
            r <= k < i ==> spec_step_fits(cfg, spec_state_at(cfg, lines, k), #[trigger] lines[k]),
        spec_line_numbered(cfg, lines, i),
    ensures
        spec_output_line(cfg, spec_state_at(cfg, lines, i), lines[i]) == crate::format::spec_render(
            cfg.start_number + spec_numbered_count(cfg, lines, r, i) * cfg.increment,
            cfg.number_width as nat,
            cfg.number_format,
        ) + cfg.separator@ + lines[i],
{
    lemma_counter_progression(cfg, lines, r, i);
}

/// Law: a section-delimiter line is never itself numbered and always
/// yields a single blank output line.
pub proof fn lemma_delimiter_blank_output(cfg: Config, st: ProcState, line: Seq<char>)
    requires
        spec_delim_target(cfg.section_delimiter, line) is Some,
    ensures
        spec_output_line(cfg, st, line) == Seq::<char>::empty(),
{
}

/// Law: with reset suppression disabled, a delimiter line resets the
/// counter to the configured starting number for the new section; with
/// suppression enabled, the counter is unaffected by the transition. Either
/// way the section switches and the blank count clears.
pub proof fn lemma_delimiter_reset(cfg: Config, st: ProcState, line: Seq<char>)
    requires
        spec_delim_target(cfg.section_delimiter, line) is Some,
    ensures
        !cfg.no_renumber ==> spec_next_state(cfg, st, line).line_number == cfg.start_number,
        cfg.no_renumber ==> spec_next_state(cfg, st, line).line_number == st.line_number,
        spec_next_state(cfg, st, line).section == spec_delim_target(
            cfg.section_delimiter,
            line,
        )->0,
        spec_next_state(cfg, st, line).blank_count == 0,
{
}

/// Law: under the all-lines style with grouping factor N, among a run of N
/// consecutive blank lines that starts with the blank count clear, exactly
/// the N-th line is numbered: line `i + k` of the run is numbered if and
/// only if `k == N - 1`, and the blank count grows along the run.
pub proof fn lemma_blank_grouping(cfg: Config, lines: Seq<Seq<char>>, i: int, k: int)
    requires
        cfg.wf(),
        0 <= i,
        0 <= k < cfg.join_blank,
        i + k < lines.len(),
        spec_state_at(cfg, lines, i).blank_count == 0,
        spec_style_for(cfg, spec_state_at(cfg, lines, i).section) is All,
        forall|m: int| i <= m <= i + k ==> (#[trigger] lines[m]).len() == 0,
    ensures
        spec_state_at(cfg, lines, i + k).blank_count == k,
        spec_state_at(cfg, lines, i + k).section == spec_state_at(cfg, lines, i).section,
        spec_numbers_line(cfg, spec_state_at(cfg, lines, i + k), lines[i + k]) <==> k
            == cfg.join_blank - 1,
    decreases k,
{
    assert(lines[i + k].len() == 0);
    if k > 0 {
        lemma_blank_grouping(cfg, lines, i, k - 1);
    }
}

/// Law: an unnumbered non-delimiter line is emitted as exactly
/// `number_width` spaces followed directly by the original line text, with
/// no separator present.
pub proof fn lemma_unnumbered_padding(cfg: Config, st: ProcState, line: Seq<char>)
    requires
        spec_delim_target(cfg.section_delimiter, line) is None,
        !spec_numbers_line(cfg, st, line),
    ensures
        spec_output_line(cfg, st, line) == spec_repeat(' ', cfg.number_width as nat) + line,
{
}

} // verus!
