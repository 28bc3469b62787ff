//! The card a shell call is drawn as: its command, then its output (the
//! first lines of it until the card is expanded) with a hint of what is
//! hidden.
use vstd::prelude::*;

use crate::json::parsed_json;
use crate::lines::{lines, split_lines, string_views, trimmed};
use crate::numfmt::{decimal, push_decimal};
use crate::strings::string_push_str;
use crate::text::{strip_ansi, strip_ansi_codes, trim};
use crate::tool_rows::{shell_command, shell_command_text, ToolRow};
use crate::tool_table::is_open;
use crate::tools::ToolRowState;

verus! {

broadcast use vstd::string::group_string_axioms;

/// Output lines a collapsed card shows.
pub const MAX_PREVIEW_LINES: usize = 10;

/// A line of a shell card.
#[derive(Debug, Clone, PartialEq, Eq)]
pub enum ShellCardLine {
    /// An empty line of the card, above and below its content.
    Padding,
    /// The command, after a spinner while it runs and a `$` once it ended.
    Command(String),
    /// A line of output, without its terminal escape codes.
    Output(String),
    /// What clicking the card does.
    Hint(String),
}

/// A [`ShellCardLine`] as a mathematical value.
pub enum ShellLineView {
    Padding,
    Command(Seq<char>),
    Output(Seq<char>),
    Hint(Seq<char>),
}

impl View for ShellCardLine {
    type V = ShellLineView;

    open spec fn view(&self) -> ShellLineView {
        match self {
            ShellCardLine::Padding => ShellLineView::Padding,
            ShellCardLine::Command(t) => ShellLineView::Command(t@),
            ShellCardLine::Output(t) => ShellLineView::Output(t@),
            ShellCardLine::Hint(t) => ShellLineView::Hint(t@),
        }
    }
}

/// The card lines as mathematical values.
pub open spec fn shell_line_views(v: Seq<ShellCardLine>) -> Seq<ShellLineView> {
    v.map_values(|l: ShellCardLine| l@)
}

/// The hint under a card whose output has `hidden` lines past the preview:
/// how to collapse it when expanded, else how many more lines there are.
pub open spec fn hint_text(expanded: bool, hidden: nat) -> Seq<char> {
    if expanded {
        "↳ click to collapse"@
    } else if hidden == 1 {
        "↳ click to expand (1 more line)"@
    } else {
        "↳ click to expand ("@ + decimal(hidden) + " more lines)"@
    }
}

/// The output lines shown: all of them when expanded or when they fit the
/// preview, else the first [`MAX_PREVIEW_LINES`]; escape codes removed.
pub open spec fn shown_output(output: Seq<Seq<char>>, expanded: bool) -> Seq<ShellLineView> {
    let shown = if expanded || output.len() <= MAX_PREVIEW_LINES {
        output
    } else {
        output.take(MAX_PREVIEW_LINES as int)
    };
    shown.map_values(|l: Seq<char>| ShellLineView::Output(strip_ansi(l, false)))
}

/// The lines of the card of a shell call (see [`shell_command_text`] for its
/// command): while the call runs, or when it left no output, the command
/// between two padding lines; otherwise the command, the output shown (see
/// [`shown_output`]), a hint when the output is longer than the preview, and
/// a padding line, after a first padding line.
pub open spec fn shell_card(row: ToolRow, expanded: bool) -> Seq<ShellLineView> {
    let cmd = ShellLineView::Command(shell_command_text(row, parsed_json(row.arguments@)));
    if is_open(row.state) || trim(row.output@).len() == 0 {
        seq![ShellLineView::Padding, cmd, ShellLineView::Padding]
    } else {
        let out = lines(row.output@);
        seq![ShellLineView::Padding, cmd] + shown_output(out, expanded) + (if out.len()
            > MAX_PREVIEW_LINES {
            seq![ShellLineView::Hint(hint_text(expanded, (out.len() - MAX_PREVIEW_LINES) as nat))]
        } else {
            Seq::empty()
        }) + seq![ShellLineView::Padding]
    }
}

/// The hint under a card (see [`hint_text`]).
fn hint_of(expanded: bool, hidden: usize) -> (r: String)
    ensures
        r@ == hint_text(expanded, hidden as nat),
{
    if expanded {
        "↳ click to collapse".to_owned()
    } else if hidden == 1 {
        "↳ click to expand (1 more line)".to_owned()
    } else {
        let mut s = "↳ click to expand (".to_owned();
        push_decimal(&mut s, hidden as u64);
        string_push_str(&mut s, " more lines)");
        s
    }
}

/// The lines of the card of a shell call (see [`shell_card`]); `expanded`
/// tells whether the user expanded it.
pub fn shell_card_lines(row: &ToolRow, expanded: bool) -> (out: Vec<ShellCardLine>)
    ensures
        shell_line_views(out@) == shell_card(*row, expanded),
{
    let cmd = shell_command(row);
    let running = matches!(row.state, ToolRowState::Pending | ToolRowState::Running);
    let mut out: Vec<ShellCardLine> = Vec::new();
    out.push(ShellCardLine::Padding);
    out.push(ShellCardLine::Command(cmd));
    let output_trimmed = trimmed(row.output.as_str());
    if running || output_trimmed.as_str().is_empty() {
        out.push(ShellCardLine::Padding);
        assert(shell_line_views(out@) =~= shell_card(*row, expanded));
        return out;
    }
    let raw = split_lines(row.output.as_str());
    let ghost ls = string_views(raw@);
    let total = raw.len();
    let shown = if expanded || total <= MAX_PREVIEW_LINES {
        total
    } else {
        MAX_PREVIEW_LINES
    };
    let ghost head = shell_line_views(out@);
    let mut i: usize = 0;
    while i < shown
        invariant
            shown <= total == raw@.len(),
            ls == string_views(raw@),
            i <= shown,
            shell_line_views(out@) == head + shown_output(ls, expanded).take(i as int),
            shown_output(ls, expanded).len() == shown,
        decreases shown - i,
    {
        let line = strip_ansi_codes(raw[i].as_str());
        let ghost before = shell_line_views(out@);
        out.push(ShellCardLine::Output(line));
        proof {
            assert(ls[i as int] == raw@[i as int]@);
            assert(shown_output(ls, expanded).take(i as int + 1) =~= shown_output(ls, expanded).take(
                i as int,
            ).push(ShellLineView::Output(strip_ansi(ls[i as int], false))));
            assert(shell_line_views(out@) =~= before.push(
                ShellLineView::Output(strip_ansi(ls[i as int], false)),
            ));
        }
        i = i + 1;
    }
    assert(shown_output(ls, expanded).take(shown as int) =~= shown_output(ls, expanded));
    let ghost body = shell_line_views(out@);
    if total > MAX_PREVIEW_LINES {
        out.push(ShellCardLine::Hint(hint_of(expanded, total - MAX_PREVIEW_LINES)));
    }
    out.push(ShellCardLine::Padding);
    proof {
        if total > MAX_PREVIEW_LINES {
            assert(shell_line_views(out@) =~= body + seq![
                ShellLineView::Hint(hint_text(expanded, (total - MAX_PREVIEW_LINES) as nat)),
            ] + seq![ShellLineView::Padding]);
        } else {
            assert(shell_line_views(out@) =~= body + Seq::<ShellLineView>::empty() + seq![
                ShellLineView::Padding,
            ]);
        }
    }
    out
}

} // verus!
