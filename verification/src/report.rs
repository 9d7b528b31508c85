//! Reading what a run of the test suite printed.
//!
//! The run prints lines. Some are noise of the build, some sum the run up,
//! the others tell of single tests; what the run printed as errors may hold
//! lines that tell of failures. The report puts the details first and the
//! summary last.

use crate::prune::{after_first_line, first_line, lines_of, lines_of_unfold};
use crate::text::{chars_of, contains, find_char, holds, join, joined, string_of};
use vstd::prelude::*;

verus! {

/// Whether `c` is white space: one of the characters to which Unicode gives
/// the property `White_Space`.
pub open spec fn is_white_space(c: char) -> bool {
    ||| '\u{9}' <= c <= '\u{d}'
    ||| c == ' '
    ||| c == '\u{85}'
    ||| c == '\u{a0}'
    ||| c == '\u{1680}'
    ||| '\u{2000}' <= c <= '\u{200a}'
    ||| c == '\u{2028}'
    ||| c == '\u{2029}'
    ||| c == '\u{202f}'
    ||| c == '\u{205f}'
    ||| c == '\u{3000}'
}

/// Asks `char::is_whitespace`, which tells whether a character has the
/// Unicode property `White_Space`. The claim is that the characters with
/// that property are the ones that `is_white_space` lists.
#[verifier::external_body]
fn white(c: char) -> (w: bool)
    ensures
        w == is_white_space(c),
{
    c.is_whitespace()
}

/// The kinds of line that the report tells apart.
#[derive(Clone, Copy, Debug, PartialEq, Eq, Structural)]
pub enum LineKind {
    /// A line that the run itself printed: not blank, and no noise of the
    /// build.
    Output,
    /// A line that sums the run up.
    Summary,
    /// A line that tells of one test: not blank, and no summary.
    Detail,
    /// A line that tells of a failure.
    Failure,
}

/// Whether `line` holds white space only.
pub open spec fn is_blank(line: Seq<char>) -> bool {
    forall|i: int| 0 <= i < line.len() ==> is_white_space(#[trigger] line[i])
}

/// Whether the build printed `line`, not the tests.
pub open spec fn is_build_noise(line: Seq<char>) -> bool {
    ||| holds(line, "Compiling"@)
    ||| holds(line, "Finished"@)
    ||| holds(line, "Fresh"@)
    ||| holds(line, "Checking"@)
}

/// Whether `line` sums the run up.
pub open spec fn is_summary(line: Seq<char>) -> bool {
    ||| holds(line, "running"@)
    ||| holds(line, "test result:"@)
    ||| holds(line, "Integration Tests Summary"@)
}

/// Whether `line` tells of a failure.
pub open spec fn is_failure(line: Seq<char>) -> bool {
    ||| holds(line, "panicked at"@)
    ||| holds(line, "FAILED"@)
    ||| (holds(line, "error:"@) && !holds(line, "warnings emitted"@))
}

/// Whether `line` is of the kind `kind`.
pub open spec fn is_kind(kind: LineKind, line: Seq<char>) -> bool {
    match kind {
        LineKind::Output => !is_build_noise(line) && !is_blank(line),
        LineKind::Summary => is_summary(line),
        LineKind::Detail => !is_summary(line) && !is_blank(line),
        LineKind::Failure => is_failure(line),
    }
}

/// `is_kind` as a predicate on lines.
pub open spec fn of_kind(kind: LineKind) -> spec_fn(Seq<char>) -> bool {
    |line: Seq<char>| is_kind(kind, line)
}

/// The lines of `text` that are of the kind `kind`, in their order.
pub open spec fn lines_of_kind(text: Seq<char>, kind: LineKind) -> Seq<Seq<char>> {
    lines_of(text).filter(of_kind(kind))
}

/// What the run itself printed: its lines without the blank ones and the
/// noise of the build, with a line feed between each two.
pub open spec fn output_text(stdout: Seq<char>) -> Seq<char> {
    joined(lines_of_kind(stdout, LineKind::Output), "\n"@)
}

/// The details of the report, under their heading; nothing where the run
/// printed no detail.
pub open spec fn details_part(stdout: Seq<char>) -> Seq<char> {
    let details = lines_of_kind(output_text(stdout), LineKind::Detail);
    if details.len() > 0 {
        "Test Details:\n"@ + joined(details, "\n"@) + "\n\n"@
    } else {
        Seq::empty()
    }
}

/// The summary of the report, under its heading; nothing where the run
/// printed no summary.
pub open spec fn summary_part(stdout: Seq<char>) -> Seq<char> {
    let summary = lines_of_kind(output_text(stdout), LineKind::Summary);
    if summary.len() > 0 {
        "Test Summary:\n"@ + joined(summary, "\n"@)
    } else {
        Seq::empty()
    }
}

/// The report on a run that printed `stdout`.
pub open spec fn test_report(stdout: Seq<char>) -> Seq<char> {
    let report = details_part(stdout) + summary_part(stdout);
    if report.len() == 0 {
        "No test output generated."@
    } else {
        report
    }
}

/// The failures that a run tells of in `stderr`, with a line feed between
/// each two; `None` where it tells of none.
pub open spec fn failures(stderr: Seq<char>) -> Option<Seq<char>> {
    let lines = lines_of_kind(stderr, LineKind::Failure);
    if lines.len() > 0 {
        Some(joined(lines, "\n"@))
    } else {
        None
    }
}

/// Decides `is_blank`.
pub fn blank(line: &str) -> (yes: bool)
    ensures
        yes == is_blank(line@),
{
    let chars = chars_of(line);
    let mut i: usize = 0;
    while i < chars.len()
        invariant
            i <= chars.len(),
            chars@ == line@,
            forall|k: int| 0 <= k < i ==> is_white_space(#[trigger] chars@[k]),
        decreases chars.len() - i,
    {
        if !white(chars[i]) {
            return false;
        }
        i += 1;
    }
    true
}

/// Decides `is_kind`.
pub fn line_is(kind: LineKind, line: &str) -> (yes: bool)
    ensures
        yes == is_kind(kind, line@),
{
    match kind {
        LineKind::Output => !(contains(line, "Compiling") || contains(line, "Finished")
            || contains(line, "Fresh") || contains(line, "Checking")) && !blank(line),
        LineKind::Summary => contains(line, "running") || contains(line, "test result:")
            || contains(line, "Integration Tests Summary"),
        LineKind::Detail => !(contains(line, "running") || contains(line, "test result:")
            || contains(line, "Integration Tests Summary")) && !blank(line),
        LineKind::Failure => contains(line, "panicked at") || contains(line, "FAILED") || (
        contains(line, "error:") && !contains(line, "warnings emitted")),
    }
}

/// Cuts `text` into its lines.
pub fn split_lines(text: &str) -> (lines: Vec<String>)
    ensures
        lines.deep_view() == lines_of(text@),
{
    let chars = chars_of(text);
    let mut lines: Vec<String> = Vec::new();
    let mut at: usize = 0;
    proof {
        assert(chars@.skip(0) =~= chars@);
        assert(lines.deep_view() + lines_of(chars@) =~= lines_of(chars@));
    }
    while at < chars.len()
        invariant
            at <= chars.len(),
            chars@ == text@,
            lines.deep_view() + lines_of(chars@.skip(at as int)) == lines_of(text@),
        decreases chars.len() - at,
    {
        let ghost rest = chars@.skip(at as int);
        let ghost before = lines.deep_view();
        let end = find_char(&chars, at, chars.len(), '\n');
        let ended = end < chars.len();
        let stop = if ended && at < end && chars[end - 1] == '\r' {
            end - 1
        } else {
            end
        };
        let next = if ended {
            end + 1
        } else {
            end
        };
        proof {
            assert(chars@.subrange(at as int, chars.len() as int) =~= rest);
            lines_of_unfold(rest);
            assert(chars@.subrange(at as int, stop as int) =~= first_line(rest)) by {
                if ended {
                    assert(rest.take(end - at) =~= chars@.subrange(at as int, end as int));
                }
            }
            assert(chars@.skip(next as int) =~= after_first_line(rest));
        }
        lines.push(string_of(&chars, at, stop));
        proof {
            assert(lines.deep_view() =~= before.push(first_line(rest)));
            assert(before.push(first_line(rest)) + lines_of(after_first_line(rest)) =~= before + (
            seq![first_line(rest)] + lines_of(after_first_line(rest))));
        }
        at = next;
    }
    proof {
        assert(chars@.skip(at as int) =~= Seq::<char>::empty());
        assert(lines.deep_view() + Seq::<Seq<char>>::empty() =~= lines.deep_view());
    }
    lines
}

/// The lines of `text` that are of the kind `kind`.
pub fn select(text: &str, kind: LineKind) -> (chosen: Vec<String>)
    ensures
        chosen.deep_view() == lines_of_kind(text@, kind),
{
    let lines = split_lines(text);
    let mut chosen: Vec<String> = Vec::new();
    let mut i: usize = 0;
    proof {
        reveal(Seq::filter);
        assert(lines.deep_view().take(0) =~= Seq::empty());
        assert(chosen.deep_view() =~= Seq::empty());
    }
    while i < lines.len()
        invariant
            i <= lines.len(),
            lines.deep_view() == lines_of(text@),
            chosen.deep_view() == lines.deep_view().take(i as int).filter(of_kind(kind)),
        decreases lines.len() - i,
    {
        let ghost seen = lines.deep_view().take(i as int);
        let ghost before = chosen.deep_view();
        proof {
            seen.lemma_filter_push(lines[i as int]@, of_kind(kind));
            assert(seen.push(lines[i as int]@) =~= lines.deep_view().take(i + 1));
        }
        if line_is(kind, lines[i].as_str()) {
            chosen.push(lines[i].clone());
            assert(chosen.deep_view() =~= before.push(lines[i as int]@));
        }
        i += 1;
    }
    assert(lines.deep_view().take(i as int) =~= lines.deep_view());
    chosen
}

/// Writes the report on a run that printed `stdout`.
pub fn report(stdout: &str) -> (text: String)
    ensures
        text@ == test_report(stdout@),
{
    let output = join(&select(stdout, LineKind::Output), "\n");
    let details = select(output.as_str(), LineKind::Detail);
    let summary = select(output.as_str(), LineKind::Summary);
    let mut text = String::new();
    if details.len() > 0 {
        text.append("Test Details:\n");
        text.append(join(&details, "\n").as_str());
        text.append("\n\n");
    }
    assert(text@ =~= details_part(stdout@));
    if summary.len() > 0 {
        text.append("Test Summary:\n");
        text.append(join(&summary, "\n").as_str());
    }
    assert(text@ =~= details_part(stdout@) + summary_part(stdout@));
    if text.as_str().is_empty() {
        String::from_str("No test output generated.")
    } else {
        text
    }
}

/// Gathers the failures that a run tells of in `stderr`.
pub fn failures_in(stderr: &str) -> (found: Option<String>)
    ensures
        found.deep_view() == failures(stderr@),
{
    let lines = select(stderr, LineKind::Failure);
    if lines.len() > 0 {
        Some(join(&lines, "\n"))
    } else {
        None
    }
}

} // verus!
