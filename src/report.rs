//! What an error looks like on a terminal, as styled lines of text. Colours are
//! named here and applied by whoever writes the lines out.

use vstd::prelude::*;
use crate::error::{Cause, PyForgeError, message_of};
use crate::text::concat2;

verus! {

/// How a piece of text is shown.
#[derive(Debug, Clone, Copy, PartialEq, Eq, Structural)]
pub enum Style {
    Plain,
    RedBold,
    Yellow,
    YellowBold,
    Cyan,
    Green,
    BrightBlack,
}

/// A run of text in one style.
#[derive(Debug, Clone)]
pub struct Segment {
    pub style: Style,
    pub text: String,
}

/// One line of output, made of styled runs.
#[derive(Debug, Clone)]
pub struct Line {
    pub segments: Vec<Segment>,
}

impl View for Segment {
    type V = (Style, Seq<char>);

    open spec fn view(&self) -> (Style, Seq<char>) {
        (self.style, self.text@)
    }
}

impl View for Line {
    type V = Seq<(Style, Seq<char>)>;

    open spec fn view(&self) -> Seq<(Style, Seq<char>)> {
        self.segments@.map_values(|s: Segment| s@)
    }
}

/// The contents of a sequence of lines.
pub open spec fn lines_view(v: Seq<Line>) -> Seq<Seq<(Style, Seq<char>)>> {
    v.map_values(|l: Line| l@)
}

/// The first line of every report: a red label, then the message.
pub open spec fn headline(e: PyForgeError) -> Seq<(Style, Seq<char>)> {
    seq![(Style::RedBold, "❌ Error:"@), (Style::Plain, " "@ + message_of(e))]
}

/// The start of a suggestion line.
pub open spec fn suggestion_label() -> Seq<(Style, Seq<char>)> {
    seq![(Style::Plain, "💡 "@), (Style::Yellow, "Suggestion"@)]
}

/// The line that shows one message of a causal chain.
pub open spec fn cause_line(m: Seq<char>) -> Seq<(Style, Seq<char>)> {
    seq![(Style::Plain, "  - "@), (Style::BrightBlack, m)]
}

/// The causal chain attached to an error, if any.
pub open spec fn source_of(e: PyForgeError) -> Option<Cause> {
    match e {
        PyForgeError::FileError { source, .. } => source,
        PyForgeError::InvalidConfig { source, .. } => Some(source),
        PyForgeError::NetworkError { source, .. } => source,
        _ => None,
    }
}

/// The lines listing a causal chain: nothing when there is no cause, else a
/// header and one line per message, outermost first.
pub open spec fn cause_lines(c: Option<Cause>) -> Seq<Seq<(Style, Seq<char>)>> {
    match c {
        Some(c) => if c.messages@.len() > 0 {
            seq![seq![(Style::Yellow, "Caused by:"@)]] + c.messages@.map_values(
                |m: String| cause_line(m@),
            )
        } else {
            seq![]
        },
        None => seq![],
    }
}

/// The full report of an error: the headline, then either the bespoke guidance
/// of the variant or the causal chain.
pub open spec fn report_of(e: PyForgeError) -> Seq<Seq<(Style, Seq<char>)>> {
    match e {
        PyForgeError::ProjectAlreadyExists { name, path } => seq![
            headline(e),
            suggestion_label() + seq![
                (Style::Plain, ": rm -rf "@),
                (Style::Cyan, path@),
                (Style::Plain, " && pyforge init "@),
                (Style::Green, name@),
            ],
        ],
        PyForgeError::NotAPythonProject => seq![
            headline(e),
            suggestion_label() + seq![
                (Style::Plain, ": "@),
                (Style::Cyan, "Run 'pyforge init <name>' to create a new project"@),
            ],
        ],
        PyForgeError::CommandNotFound { command } => seq![
            headline(e),
            suggestion_label() + seq![
                (Style::Plain, ": Install "@),
                (Style::Cyan, command@),
                (Style::Plain, " or make sure it's in your PATH"@),
            ],
        ],
        PyForgeError::InvalidProjectName { .. } => seq![
            headline(e),
            suggestion_label() + seq![(Style::Plain, ": Names must be valid Python package names"@)],
            seq![
                (Style::Plain, "   "@),
                (Style::Green, "Valid examples:"@),
                (Style::Plain, " my_project, awesome-tool, PyProject2024"@),
            ],
        ],
        _ => seq![headline(e)] + cause_lines(source_of(e)),
    }
}

pub(crate) fn segment(style: Style, text: &str) -> (r: Segment)
    ensures
        r@ == (style, text@),
{
    Segment { style, text: String::from_str(text) }
}

pub(crate) fn line(segments: Vec<Segment>) -> (r: Line)
    ensures
        r.segments@ == segments@,
{
    Line { segments }
}

fn headline_line(e: &PyForgeError) -> (r: Line)
    ensures
        r@ == headline(*e),
{
    let message = e.message();
    let r = line(vec![segment(Style::RedBold, "❌ Error:"), segment(Style::Plain, concat2(" ", message.as_str()).as_str())]);
    assert(r@ =~= headline(*e));
    r
}

fn suggestion_line(rest: Vec<Segment>) -> (r: Line)
    ensures
        r@ == suggestion_label() + rest@.map_values(|s: Segment| s@),
{
    let ghost tail = rest@;
    let mut segments = vec![segment(Style::Plain, "💡 "), segment(Style::Yellow, "Suggestion")];
    let mut rest = rest;
    segments.append(&mut rest);
    let r = line(segments);
    assert(r@ =~= suggestion_label() + tail.map_values(|s: Segment| s@));
    r
}

proof fn lemma_lines_push(v: Seq<Line>, l: Line)
    ensures
        lines_view(v.push(l)) == lines_view(v).push(l@),
{
    assert(lines_view(v.push(l)) =~= lines_view(v).push(l@));
}

pub(crate) fn push_line(out: &mut Vec<Line>, l: Line)
    ensures
        lines_view(final(out)@) == lines_view(old(out)@).push(l@),
{
    proof {
        lemma_lines_push(out@, l);
    }
    out.push(l);
}

fn push_cause_lines(out: &mut Vec<Line>, cause: &Cause)
    ensures
        lines_view(final(out)@) == lines_view(old(out)@) + cause_lines(Some(*cause)),
{
    let ghost start = lines_view(out@);
    let n = cause.messages.len();
    if n == 0 {
        assert(lines_view(out@) =~= start + cause_lines(Some(*cause)));
        return;
    }
    let h = line(vec![segment(Style::Yellow, "Caused by:")]);
    assert(h@ =~= seq![(Style::Yellow, "Caused by:"@)]);
    push_line(out, h);
    let ghost header = seq![seq![(Style::Yellow, "Caused by:"@)]];
    assert(lines_view(out@) =~= start + header);
    let mut i: usize = 0;
    while i < n
        invariant
            n == cause.messages@.len(),
            0 <= i <= n,
            lines_view(out@) =~= start + header + cause.messages@.take(i as int).map_values(
                |m: String| cause_line(m@),
            ),
        decreases n - i,
    {
        let l = line(vec![segment(Style::Plain, "  - "), segment(Style::BrightBlack, cause.messages[i].as_str())]);
        assert(l@ =~= cause_line(cause.messages@[i as int]@));
        push_line(out, l);
        assert(cause.messages@.take(i + 1) =~= cause.messages@.take(i as int).push(cause.messages@[i as int]));
        i = i + 1;
    }
    assert(cause.messages@.take(n as int) =~= cause.messages@);
}

impl PyForgeError {
    /// The report of this error, line by line: the headline, then the
    /// variant's guidance, or else the causal chain when there is one.
    pub fn report(&self) -> (r: Vec<Line>)
        ensures
            lines_view(r@) == report_of(*self),
    {
        let mut out: Vec<Line> = Vec::new();
        push_line(&mut out, headline_line(self));
        assert(lines_view(out@) =~= seq![headline(*self)]);
        match self {
            PyForgeError::ProjectAlreadyExists { name, path } => {
                let rest = vec![
                    segment(Style::Plain, ": rm -rf "),
                    segment(Style::Cyan, path.as_str()),
                    segment(Style::Plain, " && pyforge init "),
                    segment(Style::Green, name.as_str()),
                ];
                assert(rest@.map_values(|s: Segment| s@) =~= seq![
                    (Style::Plain, ": rm -rf "@),
                    (Style::Cyan, path@),
                    (Style::Plain, " && pyforge init "@),
                    (Style::Green, name@),
                ]);
                push_line(&mut out, suggestion_line(rest));
            },
            PyForgeError::NotAPythonProject => {
                let rest = vec![
                    segment(Style::Plain, ": "),
                    segment(Style::Cyan, "Run 'pyforge init <name>' to create a new project"),
                ];
                assert(rest@.map_values(|s: Segment| s@) =~= seq![
                    (Style::Plain, ": "@),
                    (Style::Cyan, "Run 'pyforge init <name>' to create a new project"@),
                ]);
                push_line(&mut out, suggestion_line(rest));
            },
            PyForgeError::CommandNotFound { command } => {
                let rest = vec![
                    segment(Style::Plain, ": Install "),
                    segment(Style::Cyan, command.as_str()),
                    segment(Style::Plain, " or make sure it's in your PATH"),
                ];
                assert(rest@.map_values(|s: Segment| s@) =~= seq![
                    (Style::Plain, ": Install "@),
                    (Style::Cyan, command@),
                    (Style::Plain, " or make sure it's in your PATH"@),
                ]);
                push_line(&mut out, suggestion_line(rest));
            },
            PyForgeError::InvalidProjectName { .. } => {
                let rest = vec![segment(Style::Plain, ": Names must be valid Python package names")];
                assert(rest@.map_values(|s: Segment| s@) =~= seq![
                    (Style::Plain, ": Names must be valid Python package names"@),
                ]);
                push_line(&mut out, suggestion_line(rest));
                let examples = line(vec![
                    segment(Style::Plain, "   "),
                    segment(Style::Green, "Valid examples:"),
                    segment(Style::Plain, " my_project, awesome-tool, PyProject2024"),
                ]);
                assert(examples@ =~= seq![
                    (Style::Plain, "   "@),
                    (Style::Green, "Valid examples:"@),
                    (Style::Plain, " my_project, awesome-tool, PyProject2024"@),
                ]);
                push_line(&mut out, examples);
            },
            PyForgeError::FileError { source: Some(cause), .. }
            | PyForgeError::InvalidConfig { source: cause, .. }
            | PyForgeError::NetworkError { source: Some(cause), .. } => {
                push_cause_lines(&mut out, cause);
            },
            _ => {},
        }
        assert(lines_view(out@) =~= report_of(*self));
        out
    }
}

} // verus!
