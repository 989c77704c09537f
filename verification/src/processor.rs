//! The orchestrator: consumes one input line at a time, consults the
//! section state machine and the style evaluator, formats the output line,
//! and advances the counter.

use vstd::prelude::*;
use crate::config::Config;
use crate::format::{format_number, repeat_str, spec_render, spec_repeat};
use crate::section::{delim_target, spec_delim_target, Section};
use crate::style::{should_number, spec_style_numbers, NumberStyle};

verus! {

/// The mutable state of one processing pass, owned exclusively by the pass.
pub struct ProcState {
    /// The currently active section.
    pub section: Section,
    /// The number the next numbered line receives.
    pub line_number: i64,
    /// How many consecutive blank lines have accumulated.
    pub blank_count: usize,
}

/// The state a pass starts in: body section, the configured starting
/// number, no blank lines accumulated.
pub open spec fn spec_initial_state(cfg: Config) -> ProcState {
    ProcState { section: Section::Body, line_number: cfg.start_number, blank_count: 0 }
}

/// The state a pass starts in.
pub fn initial_state(cfg: &Config) -> (st: ProcState)
    ensures
        st == spec_initial_state(*cfg),
{
    ProcState { section: Section::Body, line_number: cfg.start_number, blank_count: 0 }
}

/// The style governing section `s` under `cfg`.
pub open spec fn spec_style_for(cfg: Config, s: Section) -> NumberStyle {
    match s {
        Section::Header => cfg.header_style,
        Section::Body => cfg.body_style,
        Section::Footer => cfg.footer_style,
    }
}

/// Whether a non-delimiter line `line` receives a number in state `st`:
/// a blank line only under the all-lines style and only when it completes a
/// group of `join_blank` consecutive blanks; a non-blank line whenever the
/// active section's style says so.
pub open spec fn spec_numbers_line(cfg: Config, st: ProcState, line: Seq<char>) -> bool {
    let style = spec_style_for(cfg, st.section);
    if line.len() == 0 {
        style is All && st.blank_count + 1 >= cfg.join_blank
    } else {
        spec_style_numbers(style, line)
    }
}

/// The state after processing `line` in state `st`: a delimiter line
/// switches the section, clears the blank count and — unless reset
/// suppression is configured — resets the counter to the starting number;
/// any other line advances the counter by the increment exactly when it is
/// numbered, and tracks consecutive blanks.
pub open spec fn spec_next_state(cfg: Config, st: ProcState, line: Seq<char>) -> ProcState {
    match spec_delim_target(cfg.section_delimiter, line) {
        Some(sec) => ProcState {
            section: sec,
            line_number: if cfg.no_renumber {
                st.line_number
            } else {
                cfg.start_number
            },
            blank_count: 0,
        },
        None => {
            let numbered = spec_numbers_line(cfg, st, line);
            ProcState {
                section: st.section,
                line_number: if numbered {
                    (st.line_number + cfg.increment) as i64
                } else {
                    st.line_number
                },
                blank_count: if line.len() == 0 {
                    if numbered {
                        0
                    } else {
                        (st.blank_count + 1) as usize
                    }
                } else {
                    0
                },
            }
        },
    }
}

/// The output line for input `line` in state `st`: a delimiter line yields
/// a blank output line; a numbered line carries the rendered number, the
/// separator and the text; an unnumbered line carries exactly `number_width`
/// spaces and the text, with no separator.
pub open spec fn spec_output_line(cfg: Config, st: ProcState, line: Seq<char>) -> Seq<char> {
    if spec_delim_target(cfg.section_delimiter, line) is Some {
        Seq::<char>::empty()
    } else if spec_numbers_line(cfg, st, line) {
        spec_render(st.line_number as int, cfg.number_width as nat, cfg.number_format)
            + cfg.separator@ + line
    } else {
        spec_repeat(' ', cfg.number_width as nat) + line
    }
}

/// Whether processing `line` in state `st` stays within the machine's
/// integer limits: the blank count can grow and, when the line is numbered,
/// the counter advance fits in its type.
pub open spec fn spec_step_fits(cfg: Config, st: ProcState, line: Seq<char>) -> bool {
    spec_delim_target(cfg.section_delimiter, line) is None ==> {
        &&& (line.len() == 0 ==> st.blank_count < usize::MAX)
        &&& (spec_numbers_line(cfg, st, line) ==> i64::MIN <= st.line_number + cfg.increment
            <= i64::MAX)
    }
}

/// Decides whether `line` would receive a number in state `st`, without
/// changing the state.
fn would_number(cfg: &Config, st: &ProcState, line: &str) -> (r: bool)
    requires
        cfg.wf(),
    ensures
        r == spec_numbers_line(*cfg, *st, line@),
{
    let style = match st.section {
        Section::Header => &cfg.header_style,
        Section::Body => &cfg.body_style,
        Section::Footer => &cfg.footer_style,
    };
    if line.is_empty() {
        let is_all = match style {
            NumberStyle::All => true,
            _ => false,
        };
        is_all && st.blank_count >= cfg.join_blank - 1
    } else {
        should_number(line, style)
    }
}

/// Processes one input line: switches the section on a delimiter line, and
/// otherwise numbers the line or pads it, per the active section's style.
/// Returns the one output line; the counter and blank-count bookkeeping is
/// left in `st`.
pub fn process_line(cfg: &Config, st: &mut ProcState, line: &str) -> (out: String)
    requires
        cfg.wf(),
        spec_step_fits(*cfg, *old(st), line@),
    ensures
        *final(st) == spec_next_state(*cfg, *old(st), line@),
        out@ == spec_output_line(*cfg, *old(st), line@),
{
    match delim_target(line, cfg.section_delimiter) {
        Some(sec) => {
            st.section = sec;
            if !cfg.no_renumber {
                st.line_number = cfg.start_number;
            }
            st.blank_count = 0;
            String::new()
        },
        None => {
            let numbered: bool;
            if line.is_empty() {
                st.blank_count = st.blank_count + 1;
                let is_all = match st.section {
                    Section::Header => matches!(cfg.header_style, NumberStyle::All),
                    Section::Body => matches!(cfg.body_style, NumberStyle::All),
                    Section::Footer => matches!(cfg.footer_style, NumberStyle::All),
                };
                if is_all && st.blank_count >= cfg.join_blank {
                    st.blank_count = 0;
                    numbered = true;
                } else {
                    numbered = false;
                }
            } else {
                st.blank_count = 0;
                let style = match st.section {
                    Section::Header => &cfg.header_style,
                    Section::Body => &cfg.body_style,
                    Section::Footer => &cfg.footer_style,
                };
                numbered = should_number(line, style);
            }
            assert(numbered == spec_numbers_line(*cfg, *old(st), line@));
            if numbered {
                let num = format_number(st.line_number, cfg.number_width, cfg.number_format);
                let out = num.concat(cfg.separator.as_str()).concat(line);
                st.line_number = st.line_number + cfg.increment;
                assert(out@ =~= spec_output_line(*cfg, *old(st), line@));
                out
            } else {
                let out = repeat_str(' ', cfg.number_width).concat(line);
                assert(out@ =~= spec_output_line(*cfg, *old(st), line@));
                out
            }
        },
    }
}

/// Processes one input line after testing that the step stays within the
/// machine's integer limits. Where it would not, nothing happens and `None`
/// says so; otherwise the state advances and the output line is returned.
pub fn process_line_checked(cfg: &Config, st: &mut ProcState, line: &str) -> (out: Option<
    String,
>)
    requires
        cfg.wf(),
    ensures
        out is Some <==> spec_step_fits(*cfg, *old(st), line@),
        out matches Some(s) ==> *final(st) == spec_next_state(*cfg, *old(st), line@) && s@
            == spec_output_line(*cfg, *old(st), line@),
        out is None ==> *final(st) == *old(st),
{
    let target = delim_target(line, cfg.section_delimiter);
    if target.is_none() {
        if line.is_empty() && st.blank_count == usize::MAX {
            return None;
        }
        if would_number(cfg, st, line) {
            if cfg.increment >= 0 {
                if st.line_number > i64::MAX - cfg.increment {
                    return None;
                }
            } else {
                if st.line_number < i64::MIN - cfg.increment {
                    return None;
                }
            }
        }
    }
    Some(process_line(cfg, st, line))
}

/// The views of a sequence of lines.
pub open spec fn spec_views(lines: Seq<String>) -> Seq<Seq<char>> {
    lines.map_values(|s: String| s@)
}

/// The state of a pass over `lines` just before line `i` is processed.
pub open spec fn spec_state_at(cfg: Config, lines: Seq<Seq<char>>, i: int) -> ProcState
    decreases i,
{
    if i <= 0 {
        spec_initial_state(cfg)
    } else {
        spec_next_state(cfg, spec_state_at(cfg, lines, i - 1), lines[i - 1])
    }
}

/// Whether a whole pass over `lines` stays within the machine's integer
/// limits at every step.
pub open spec fn spec_run_fits(cfg: Config, lines: Seq<Seq<char>>) -> bool {
    forall|i: int|
        0 <= i < lines.len() ==> #[trigger] spec_step_fits(
            cfg,
            spec_state_at(cfg, lines, i),
            lines[i],
        )
}

/// Processes a whole stream of lines, in order, starting from the initial
/// state. Emits exactly one output line per input line. Returns `None`
/// exactly when some step would leave the machine's integer limits; the
/// counter then cannot be represented and no output is produced.
pub fn number_lines(cfg: &Config, lines: &Vec<String>) -> (out: Option<Vec<String>>)
    requires
        cfg.wf(),
    ensures
        out is Some <==> spec_run_fits(*cfg, spec_views(lines@)),
        out matches Some(v) ==> {
            &&& v@.len() == lines@.len()
            &&& forall|i: int|
                0 <= i < lines@.len() ==> (#[trigger] v@[i])@ == spec_output_line(
                    *cfg,
                    spec_state_at(*cfg, spec_views(lines@), i),
                    lines@[i]@,
                )
        },
{
    let ghost views = spec_views(lines@);
    let mut st = initial_state(cfg);
    let mut out: Vec<String> = Vec::new();
    let mut i: usize = 0;
    while i < lines.len()
        invariant
            cfg.wf(),
            i <= lines@.len(),
            views == spec_views(lines@),
            out@.len() == i,
            st == spec_state_at(*cfg, views, i as int),
            forall|j: int|
                0 <= j < i ==> #[trigger] spec_step_fits(
                    *cfg,
                    spec_state_at(*cfg, views, j),
                    views[j],
                ),
            forall|j: int|
                0 <= j < i ==> (#[trigger] out@[j])@ == spec_output_line(
                    *cfg,
                    spec_state_at(*cfg, views, j),
                    lines@[j]@,
                ),
        decreases lines@.len() - i,
    {
        let line = &lines[i];
        match process_line_checked(cfg, &mut st, line.as_str()) {
            Some(s) => {
                out.push(s);
                i = i + 1;
                assert(st == spec_state_at(*cfg, views, i as int));
            },
            None => {
                assert(!spec_step_fits(*cfg, spec_state_at(*cfg, views, i as int), views[i as int]));
                return None;
            },
        }
    }
    Some(out)
}

} // verus!
