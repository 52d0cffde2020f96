//! How a line of the command's output is shown.

use vstd::prelude::*;
use vstd::string::*;

verus! {

/// The two output channels of a process.
#[derive(Clone, Copy, Debug, PartialEq, Eq, Structural)]
pub enum Stream {
    /// Standard output.
    Stdout,
    /// Standard error.
    Stderr,
}

/// How prominently a line is shown.
#[derive(Clone, Copy, Debug, PartialEq, Eq, Structural)]
pub enum Severity {
    /// Shown as it is.
    Normal,
    /// Shown as an error.
    Error,
}

/// Whether `marker` occurs in `line` as a run of consecutive characters.
pub open spec fn contains_text(line: Seq<char>, marker: Seq<char>) -> bool {
    exists|i: int|
        0 <= i <= line.len() - marker.len() && #[trigger] line.subrange(i, i + marker.len())
            == marker
}

/// Whether a line carries one of the markers that build tools put on their
/// diagnostics.
pub open spec fn has_diagnostic_marker(line: Seq<char>) -> bool {
    contains_text(line, "error:"@) || contains_text(line, "warning:"@)
}

/// The severity of a line: an error where it came over standard error, or
/// where build-tool mode is on and the line carries a diagnostic marker, and
/// normal otherwise.
pub open spec fn line_severity(line: Seq<char>, stream: Stream, build_tool_mode: bool) -> Severity {
    if stream == Stream::Stderr || (build_tool_mode && has_diagnostic_marker(line)) {
        Severity::Error
    } else {
        Severity::Normal
    }
}

/// The escape sequence that switches the terminal to red.
pub open spec fn red() -> Seq<char> {
    "\x1b[31m"@
}

/// The escape sequence that switches the terminal back.
pub open spec fn plain() -> Seq<char> {
    "\x1b[0m"@
}

/// A line as it is written to the terminal: an error in red, any other line
/// unchanged. The line itself is kept letter for letter either way.
pub open spec fn rendered(line: Seq<char>, severity: Severity) -> Seq<char> {
    match severity {
        Severity::Error => red() + line + plain(),
        Severity::Normal => line,
    }
}

/// Calls `str::contains` with a string as the pattern. The contract claims
/// what std documents of it: the result tells whether the pattern matches a
/// part of the string. Nothing is proved of it.
#[verifier::external_body]
fn str_contains(line: &str, marker: &str) -> (found: bool)
    ensures
        found == contains_text(line@, marker@),
{
    line.contains(marker)
}

/// Computes [`line_severity`].
pub fn classify_line(line: &str, stream: Stream, build_tool_mode: bool) -> (severity: Severity)
    ensures
        severity == line_severity(line@, stream, build_tool_mode),
{
    match stream {
        Stream::Stderr => Severity::Error,
        Stream::Stdout => {
            if build_tool_mode && (str_contains(line, "error:") || str_contains(line, "warning:")) {
                Severity::Error
            } else {
                Severity::Normal
            }
        },
    }
}

/// Computes [`rendered`].
pub fn render_line(line: &str, severity: Severity) -> (text: String)
    ensures
        text@ == rendered(line@, severity),
{
    match severity {
        Severity::Error => {
            let mut text = String::from_str("\x1b[31m");
            text.append(line);
            text.append("\x1b[0m");
            text
        },
        Severity::Normal => String::from_str(line),
    }
}

/// A rendered line still holds the line, whatever its severity.
pub proof fn lemma_rendering_keeps_line(line: Seq<char>, severity: Severity)
    ensures
        contains_text(rendered(line, severity), line),
{
    match severity {
        Severity::Error => {
            let text = rendered(line, severity);
            let start = red().len() as int;
            assert(text.subrange(start, start + line.len() as int) =~= line);
        },
        Severity::Normal => {
            assert(line.subrange(0, 0 + line.len() as int) =~= line);
        },
    }
}

} // verus!
