//! Sections of the input stream and the delimiter lines that switch them.

use vstd::prelude::*;

verus! {

/// The three logical zones of one input stream. Exactly one is current at
/// any time; the stream starts in the body.
#[derive(Clone, Copy, PartialEq, Eq, Structural)]
pub enum Section {
    Header,
    Body,
    Footer,
}

/// The two-character delimiter base repeated `times` times: the text of a
/// section-delimiter line. Footer uses 1 repetition, body 2, header 3, so
/// the three delimiter lines are always distinct.
pub open spec fn spec_delim_line(d: [char; 2], times: nat) -> Seq<char> {
    Seq::new(
        2 * times,
        |j: int|
            if j % 2 == 0 {
                d[0]
            } else {
                d[1]
            },
    )
}

/// The three derived delimiter lines are pairwise distinct (their lengths
/// already differ), so exact-string equality checks cannot misclassify one
/// delimiter as another and the order of the comparisons is irrelevant.
pub proof fn lemma_delimiters_distinct(d: [char; 2])
    ensures
        spec_delim_line(d, 1) != spec_delim_line(d, 2),
        spec_delim_line(d, 2) != spec_delim_line(d, 3),
        spec_delim_line(d, 1) != spec_delim_line(d, 3),
{
    assert(spec_delim_line(d, 1).len() == 2);
    assert(spec_delim_line(d, 2).len() == 4);
    assert(spec_delim_line(d, 3).len() == 6);
}

/// The section switched to when `line` is a delimiter line under the base
/// `d`, or nothing when `line` is no delimiter line.
pub open spec fn spec_delim_target(d: [char; 2], line: Seq<char>) -> Option<Section> {
    if line == spec_delim_line(d, 3) {
        Some(Section::Header)
    } else if line == spec_delim_line(d, 2) {
        Some(Section::Body)
    } else if line == spec_delim_line(d, 1) {
        Some(Section::Footer)
    } else {
        None
    }
}

/// Decides whether `line` is the delimiter base repeated exactly `times`
/// times.
fn matches_delim(line: &str, d: [char; 2], times: usize) -> (r: bool)
    requires
        times <= 3,
    ensures
        r == (line@ == spec_delim_line(d, times as nat)),
{
    let n = line.unicode_len();
    if n != 2 * times {
        assert(line@ != spec_delim_line(d, times as nat));
        return false;
    }
    let mut i: usize = 0;
    while i < times
        invariant
            times <= 3,
            i <= times,
            line@.len() == 2 * times,
            forall|j: int|
                0 <= j < 2 * i ==> line@[j] == (if j % 2 == 0 {
                    d[0]
                } else {
                    d[1]
                }),
        decreases times - i,
    {
        let c0 = line.get_char(2 * i);
        let c1 = line.get_char(2 * i + 1);
        if c0 != d[0] {
            assert(line@[2 * i as int] != spec_delim_line(d, times as nat)[2 * i as int]);
            return false;
        }
        if c1 != d[1] {
            assert(line@[2 * i as int + 1] != spec_delim_line(d, times as nat)[2 * i as int + 1]);
            return false;
        }
        assert(forall|j: int|
            0 <= j < 2 * (i + 1) ==> line@[j] == (if j % 2 == 0 {
                d[0]
            } else {
                d[1]
            }));
        i = i + 1;
    }
    assert(line@ =~= spec_delim_line(d, times as nat));
    true
}

/// The section switched to when `line` is a delimiter line under the base
/// `d`, or `None` when it is no delimiter line.
pub fn delim_target(line: &str, d: [char; 2]) -> (r: Option<Section>)
    ensures
        r == spec_delim_target(d, line@),
{
    if matches_delim(line, d, 3) {
        Some(Section::Header)
    } else if matches_delim(line, d, 2) {
        Some(Section::Body)
    } else if matches_delim(line, d, 1) {
        Some(Section::Footer)
    } else {
        None
    }
}

/// The delimiter base repeated `times` times, as a string.
fn delim_string(d: [char; 2], times: usize) -> (r: String)
    requires
        times <= 3,
    ensures
        r@ == spec_delim_line(d, times as nat),
{
    let mut s = String::new();
    let mut i: usize = 0;
    assert(s@ =~= spec_delim_line(d, 0));
    while i < times
        invariant
            times <= 3,
            i <= times,
            s@ == spec_delim_line(d, i as nat),
        decreases times - i,
    {
        crate::format::push_char(&mut s, d[0]);
        crate::format::push_char(&mut s, d[1]);
        i = i + 1;
        assert(s@ =~= spec_delim_line(d, i as nat));
    }
    s
}

/// Builds the three section-delimiter strings from the two-character base.
/// Returns (header, body, footer): the base repeated 3, 2 and 1 times.
pub fn section_delimiters(delim: [char; 2]) -> (r: (String, String, String))
    ensures
        r.0@ == spec_delim_line(delim, 3),
        r.1@ == spec_delim_line(delim, 2),
        r.2@ == spec_delim_line(delim, 1),
{
    let header = delim_string(delim, 3);
    let body = delim_string(delim, 2);
    let footer = delim_string(delim, 1);
    (header, body, footer)
}

} // verus!
