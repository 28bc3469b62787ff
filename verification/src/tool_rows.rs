//! Tool calls as rows of the transcript: what a row holds, and the text that
//! the transcript shows for it.
use vstd::prelude::*;

use crate::cells::{cell_width, text_cell_width, truncate_tool_text, truncated_text};
use crate::json::{
    as_array, as_u64, get, get2, json_get, json_get2, json_u64, opt_as_str, opt_deref, opt_str, parse_json,
    parsed_json, JsonValue,
};
use crate::lines::{lines, split_lines, string_views, strip_prefix, trimmed, without_prefix};
use crate::numfmt::{decimal, push_decimal};
use crate::search::{str_eq, str_starts_with};
use crate::strings::string_push_str;
use crate::text::{starts_with, trim};
use crate::tool_args::{
    get3, json_get3, kind_of, task_target, task_target_of, text_of_or, text_or, tool_kind, ToolKind,
};
use crate::tools::ToolRowState;

verus! {

broadcast use vstd::string::group_string_axioms;

/// Longest call id or tool name a row keeps, in bytes.
pub const MAX_IDENTITY_BYTES: usize = 256;

/// Most rows the transcript keeps; the oldest go first.
pub const MAX_TOOL_ROWS: usize = 64;

/// Longest description or argument text a row keeps, in bytes.
pub const MAX_TOOL_ARGUMENT_BYTES: usize = 4096;

/// Longest output a row keeps, in bytes.
pub const MAX_TOOL_OUTPUT_BYTES: usize = 16384;

/// The description a row has while its arguments are still streaming in.
pub open spec fn preparing_desc() -> Seq<char> {
    "preparing arguments..."@
}

/// One tool call of the transcript.
#[derive(Debug, PartialEq, Eq)]
pub struct ToolRow {
    pub call_id: String,
    pub name: String,
    pub desc: String,
    pub arguments: String,
    pub output: String,
    pub state: ToolRowState,
    pub arguments_complete: bool,
    pub metadata: Option<JsonValue>,
    pub started_at: std::time::Instant,
    pub expandable: bool,
}

/// The arguments of a row, parsed as JSON (`None` where they do not parse).
pub fn parsed_arguments(row: &ToolRow) -> (r: Option<JsonValue>)
    ensures
        r == parsed_json(row.arguments@),
{
    parse_json(row.arguments.as_str())
}

// ---------------------------------------------------------------------------
// Counting lines
// ---------------------------------------------------------------------------

/// A line a patch adds: it starts with `+` but is not a `+++` header.
pub open spec fn is_added_line(l: Seq<char>) -> bool {
    starts_with(l, "+"@) && !starts_with(l, "+++"@)
}

/// A line a patch removes: it starts with `-` but is not a `---` header.
pub open spec fn is_removed_line(l: Seq<char>) -> bool {
    starts_with(l, "-"@) && !starts_with(l, "---"@)
}

/// A line with something on it besides whitespace.
pub open spec fn is_nonblank_line(l: Seq<char>) -> bool {
    trim(l).len() > 0
}

/// How many of the lines `ls` satisfy `p`.
pub open spec fn count_lines(ls: Seq<Seq<char>>, p: spec_fn(Seq<char>) -> bool) -> nat
    decreases ls.len(),
{
    if ls.len() == 0 {
        0
    } else {
        count_lines(ls.drop_last(), p) + (if p(ls.last()) {
            1nat
        } else {
            0nat
        })
    }
}

pub open spec fn added_pred() -> spec_fn(Seq<char>) -> bool {
    |l: Seq<char>| is_added_line(l)
}

pub open spec fn removed_pred() -> spec_fn(Seq<char>) -> bool {
    |l: Seq<char>| is_removed_line(l)
}

pub open spec fn nonblank_pred() -> spec_fn(Seq<char>) -> bool {
    |l: Seq<char>| is_nonblank_line(l)
}

proof fn lemma_count_lines_bound(ls: Seq<Seq<char>>, p: spec_fn(Seq<char>) -> bool)
    ensures
        count_lines(ls, p) <= ls.len(),
    decreases ls.len(),
{
    if ls.len() > 0 {
        lemma_count_lines_bound(ls.drop_last(), p);
    }
}

/// How many lines of `text` a patch adds and removes.
fn patch_line_counts(text: &str) -> (r: (usize, usize))
    ensures
        r.0 == count_lines(lines(text@), added_pred()),
        r.1 == count_lines(lines(text@), removed_pred()),
{
    let ls = split_lines(text);
    let mut added: usize = 0;
    let mut removed: usize = 0;
    let mut i: usize = 0;
    while i < ls.len()
        invariant
            i <= ls@.len(),
            string_views(ls@) == lines(text@),
            added == count_lines(string_views(ls@).take(i as int), added_pred()),
            removed == count_lines(string_views(ls@).take(i as int), removed_pred()),
        decreases ls@.len() - i,
    {
        let ghost vs = string_views(ls@);
        assert(vs.take(i as int + 1).drop_last() =~= vs.take(i as int));
        assert(vs.take(i as int + 1).last() == ls@[i as int]@);
        proof {
            lemma_count_lines_bound(vs.take(i as int), added_pred());
            lemma_count_lines_bound(vs.take(i as int), removed_pred());
        }
        let l = ls[i].as_str();
        if str_starts_with(l, "+") && !str_starts_with(l, "+++") {
            proof {
                reveal_strlit("+");
                reveal_strlit("-");
                assert(l@.take(1)[0] == '+');
            }
            added = added + 1;
        } else if str_starts_with(l, "-") && !str_starts_with(l, "---") {
            removed = removed + 1;
        }
        i = i + 1;
    }
    assert(string_views(ls@).take(i as int) =~= string_views(ls@));
    (added, removed)
}

/// How many lines of `text` have something on them besides whitespace.
fn nonblank_line_count(text: &str) -> (n: usize)
    ensures
        n == count_lines(lines(text@), nonblank_pred()),
{
    let ls = split_lines(text);
    let mut n: usize = 0;
    let mut i: usize = 0;
    while i < ls.len()
        invariant
            i <= ls@.len(),
            string_views(ls@) == lines(text@),
            n == count_lines(string_views(ls@).take(i as int), nonblank_pred()),
        decreases ls@.len() - i,
    {
        let ghost vs = string_views(ls@);
        assert(vs.take(i as int + 1).drop_last() =~= vs.take(i as int));
        assert(vs.take(i as int + 1).last() == ls@[i as int]@);
        proof {
            lemma_count_lines_bound(vs.take(i as int), nonblank_pred());
        }
        let t = trimmed(ls[i].as_str());
        if !t.as_str().is_empty() {
            n = n + 1;
        }
        i = i + 1;
    }
    assert(string_views(ls@).take(i as int) =~= string_views(ls@));
    n
}

// ---------------------------------------------------------------------------
// What the arguments hold
// ---------------------------------------------------------------------------

/// The old and new text of an edit: its `old_string` (or `old_str`) and
/// `new_string` (or `new_str`) members, when both are strings.
pub open spec fn edit_pair(args: Option<JsonValue>) -> Option<(Seq<char>, Seq<char>)> {
    match args {
        Some(a) => match (
            opt_str(json_get2(a, "old_string"@, "old_str"@)),
            opt_str(json_get2(a, "new_string"@, "new_str"@)),
        ) {
            (Some(o), Some(n)) => Some((o, n)),
            _ => None,
        },
        None => None,
    }
}

/// The `patch` member of a patch call's arguments, when it is a string.
pub open spec fn patch_text(args: Option<JsonValue>) -> Option<Seq<char>> {
    match args {
        Some(a) => opt_str(json_get(a, "patch"@)),
        None => None,
    }
}

fn edit_pair_of(args: Option<&JsonValue>) -> (r: Option<(String, String)>)
    ensures
        match r {
            Some(p) => edit_pair(opt_deref(args)) == Some((p.0@, p.1@)),
            None => edit_pair(opt_deref(args)) is None,
        },
{
    match args {
        Some(a) => {
            let o = opt_as_str(get2(a, "old_string", "old_str"));
            let n = opt_as_str(get2(a, "new_string", "new_str"));
            match (o, n) {
                (Some(o), Some(n)) => Some((o.to_owned(), n.to_owned())),
                _ => None,
            }
        },
        None => None,
    }
}

fn patch_text_of(args: Option<&JsonValue>) -> (r: Option<&str>)
    ensures
        match r {
            Some(t) => patch_text(opt_deref(args)) == Some(t@),
            None => patch_text(opt_deref(args)) is None,
        },
{
    match args {
        Some(a) => opt_as_str(get(a, "patch")),
        None => None,
    }
}

/// The old and new text of an edit row, which the transcript shows the diff
/// of (see [`edit_pair`]).
pub fn edit_strings(row: &ToolRow) -> (r: Option<(String, String)>)
    ensures
        match r {
            Some(p) => edit_pair(parsed_json(row.arguments@)) == Some((p.0@, p.1@)),
            None => edit_pair(parsed_json(row.arguments@)) is None,
        },
{
    let parsed = parsed_arguments(row);
    edit_pair_of(parsed.as_ref())
}

// ---------------------------------------------------------------------------
// Whether a row can be expanded
// ---------------------------------------------------------------------------

/// A line of a patch that adds, removes or keeps text: it starts with `+`,
/// `-` or a space.
pub open spec fn is_diff_body_line(l: Seq<char>) -> bool {
    l.len() > 0 && (l[0] == '+' || l[0] == '-' || l[0] == ' ')
}

pub open spec fn diff_body_pred() -> spec_fn(Seq<char>) -> bool {
    |l: Seq<char>| is_diff_body_line(l)
}

/// Whether a row has more to show than its summary, given its parsed
/// arguments and, for an edit, the number of lines of its diff (with twenty
/// lines of context): a shell row with more than ten lines of output, an edit
/// whose diff has more than ten lines, a patch with more than ten lines that
/// add, remove or keep text.
pub open spec fn row_expandable(row: ToolRow, args: Option<JsonValue>, edit_diff_lines: Option<nat>) -> bool {
    match tool_kind(row.name@) {
        ToolKind::Bash => lines(row.output@).len() > 10,
        ToolKind::Edit => edit_pair(args) is Some && edit_diff_lines is Some && edit_diff_lines->0
            > 10,
        ToolKind::Patch => match patch_text(args) {
            Some(p) => count_lines(lines(p), diff_body_pred()) > 10,
            None => false,
        },
        _ => false,
    }
}

/// A line count as a plain number.
pub open spec fn opt_nat(o: Option<usize>) -> Option<nat> {
    match o {
        Some(n) => Some(n as nat),
        None => None,
    }
}

fn diff_body_line_count(text: &str) -> (n: usize)
    ensures
        n == count_lines(lines(text@), diff_body_pred()),
{
    let ls = split_lines(text);
    let mut n: usize = 0;
    let mut i: usize = 0;
    while i < ls.len()
        invariant
            i <= ls@.len(),
            string_views(ls@) == lines(text@),
            n == count_lines(string_views(ls@).take(i as int), diff_body_pred()),
        decreases ls@.len() - i,
    {
        let ghost vs = string_views(ls@);
        assert(vs.take(i as int + 1).drop_last() =~= vs.take(i as int));
        assert(vs.take(i as int + 1).last() == ls@[i as int]@);
        proof {
            lemma_count_lines_bound(vs.take(i as int), diff_body_pred());
        }
        let l = ls[i].as_str();
        let hit = str_starts_with(l, "+") || str_starts_with(l, "-") || str_starts_with(l, " ");
        proof {
            reveal_strlit("+");
            reveal_strlit("-");
            reveal_strlit(" ");
            assert("+"@ =~= seq!['+']);
            assert("-"@ =~= seq!['-']);
            assert(" "@ =~= seq![' ']);
            if l@.len() > 0 {
                assert(l@.take(1) =~= seq![l@[0]]);
                assert(l@.take(1)[0] == l@[0]);
            }
            assert(starts_with(l@, "+"@) == (l@.len() > 0 && l@[0] == '+'));
            assert(starts_with(l@, "-"@) == (l@.len() > 0 && l@[0] == '-'));
            assert(starts_with(l@, " "@) == (l@.len() > 0 && l@[0] == ' '));
            assert(hit == is_diff_body_line(l@));
        }
        if hit {
            n = n + 1;
        }
        i = i + 1;
    }
    assert(string_views(ls@).take(i as int) =~= string_views(ls@));
    n
}

impl ToolRow {
    /// Whether the row has more to show than its summary, given its parsed
    /// arguments (see [`row_expandable`]).
    pub fn compute_expandable_with(&self, args: Option<&JsonValue>, edit_diff_lines: Option<usize>) -> (b: bool)
        ensures
            b == row_expandable(*self, opt_deref(args), opt_nat(edit_diff_lines)),
    {
        match kind_of(self.name.as_str()) {
            ToolKind::Bash => crate::lines::line_count(self.output.as_str()) > 10,
            ToolKind::Edit => match (edit_pair_of(args), edit_diff_lines) {
                (Some(_), Some(n)) => n > 10,
                _ => false,
            },
            ToolKind::Patch => match patch_text_of(args) {
                Some(p) => diff_body_line_count(p) > 10,
                None => false,
            },
            _ => false,
        }
    }

    /// Whether the row has more to show than its summary (see
    /// [`row_expandable`]), reading its arguments as JSON; `edit_diff_lines`
    /// is the number of lines of the diff of an edit's old and new text (see
    /// [`edit_strings`]).
    pub fn compute_expandable(&self, edit_diff_lines: Option<usize>) -> (b: bool)
        ensures
            b == row_expandable(*self, parsed_json(self.arguments@), opt_nat(edit_diff_lines)),
    {
        let parsed = parsed_arguments(self);
        self.compute_expandable_with(parsed.as_ref(), edit_diff_lines)
    }
}

// ---------------------------------------------------------------------------
// The shell command of a row
// ---------------------------------------------------------------------------

/// A command as it is shown: without a leading `"$ "`, trimmed.
pub open spec fn clean_command(s: Seq<char>) -> Seq<char> {
    trim(strip_prefix(s, "$ "@))
}

/// The command a shell row shows, given its parsed arguments: its description,
/// else the `command` member of its arguments, else its raw arguments, each
/// cleaned and used when not empty; `"bash"` when none is.
pub open spec fn shell_command_text(row: ToolRow, args: Option<JsonValue>) -> Seq<char> {
    let cmd = match args {
        Some(a) => opt_str(json_get(a, "command"@)),
        None => None,
    };
    if row.desc@ == preparing_desc() {
        "Preparing bash..."@
    } else if clean_command(row.desc@).len() > 0 {
        clean_command(row.desc@)
    } else if cmd is Some && clean_command(cmd->0).len() > 0 {
        clean_command(cmd->0)
    } else if clean_command(row.arguments@).len() > 0 {
        clean_command(row.arguments@)
    } else {
        "bash"@
    }
}

fn clean_command_of(s: &str) -> (r: String)
    ensures
        r@ == clean_command(s@),
{
    let t = without_prefix(s, "$ ");
    trimmed(t.as_str())
}

/// The command a shell row shows, given its parsed arguments (see
/// [`shell_command_text`]).
pub fn shell_command_with(row: &ToolRow, args: Option<&JsonValue>) -> (r: String)
    ensures
        r@ == shell_command_text(*row, opt_deref(args)),
{
    if str_eq(row.desc.as_str(), "preparing arguments...") {
        return "Preparing bash...".to_owned();
    }
    let d = clean_command_of(row.desc.as_str());
    if !d.as_str().is_empty() {
        return d;
    }
    let cmd = match args {
        Some(a) => opt_as_str(get(a, "command")),
        None => None,
    };
    if let Some(c) = cmd {
        let c2 = clean_command_of(c);
        if !c2.as_str().is_empty() {
            return c2;
        }
    }
    let r = clean_command_of(row.arguments.as_str());
    if !r.as_str().is_empty() {
        r
    } else {
        "bash".to_owned()
    }
}

/// The command a shell row shows (see [`shell_command_text`]), reading its
/// arguments as JSON.
pub fn shell_command(row: &ToolRow) -> (r: String)
    ensures
        r@ == shell_command_text(*row, parsed_json(row.arguments@)),
{
    let parsed = parsed_arguments(row);
    shell_command_with(row, parsed.as_ref())
}

// ---------------------------------------------------------------------------
// The one-line summary of a row
// ---------------------------------------------------------------------------

/// The label a row's summary starts with.
pub open spec fn row_label(k: ToolKind) -> Seq<char> {
    match k {
        ToolKind::Read => "Read"@,
        ToolKind::Write => "Write"@,
        ToolKind::Edit => "Edit"@,
        ToolKind::Patch => "Patch"@,
        ToolKind::ListDir => "List"@,
        ToolKind::Glob => "Glob"@,
        ToolKind::Grep => "Grep"@,
        ToolKind::WebFetch | ToolKind::Fetch => "Fetch"@,
        ToolKind::WebSearch | ToolKind::Search => "Search"@,
        ToolKind::UpdatePlan => "Updated Plan"@,
        ToolKind::Task => "Task"@,
        ToolKind::Execute => "Execute"@,
        ToolKind::Question => "Ask"@,
        ToolKind::Skill => "Load skill"@,
        ToolKind::Bash => ""@,
        ToolKind::Other => "Run"@,
    }
}

fn row_label_of(k: ToolKind) -> (s: &'static str)
    ensures
        s@ == row_label(k),
{
    match k {
        ToolKind::Read => "Read",
        ToolKind::Write => "Write",
        ToolKind::Edit => "Edit",
        ToolKind::Patch => "Patch",
        ToolKind::ListDir => "List",
        ToolKind::Glob => "Glob",
        ToolKind::Grep => "Grep",
        ToolKind::WebFetch | ToolKind::Fetch => "Fetch",
        ToolKind::WebSearch | ToolKind::Search => "Search",
        ToolKind::UpdatePlan => "Updated Plan",
        ToolKind::Task => "Task",
        ToolKind::Execute => "Execute",
        ToolKind::Question => "Ask",
        ToolKind::Skill => "Load skill",
        ToolKind::Bash => "",
        ToolKind::Other => "Run",
    }
}

/// `"<label> <target><suffix>"`, without the space when there is no target.
pub open spec fn labelled(label: Seq<char>, target: Seq<char>, suffix: Seq<char>) -> Seq<char> {
    if target.len() == 0 {
        label + suffix
    } else {
        label + " "@ + target + suffix
    }
}

/// `" (+<added> -<removed>)"`.
pub open spec fn count_suffix(added: nat, removed: nat) -> Seq<char> {
    " (+"@ + decimal(added) + " -"@ + decimal(removed) + ")"@
}

/// `"match"` for one, `"matches"` otherwise.
pub open spec fn match_word(n: nat) -> Seq<char> {
    if n == 1 {
        "match"@
    } else {
        "matches"@
    }
}

/// `" (<n> match)"` or `" (<n> matches)"`.
pub open spec fn match_suffix(n: nat) -> Seq<char> {
    " ("@ + decimal(n) + " "@ + match_word(n) + ")"@
}

/// The number of matches of a finished search row: the `count` (or
/// `matches`) member of its metadata when that is a `u64`, otherwise the
/// number of lines of its output that are not blank.
pub open spec fn match_count(row: ToolRow) -> nat {
    let from_meta = match row.metadata {
        Some(m) => match json_get2(m, "count"@, "matches"@) {
            Some(v) => json_u64(v),
            None => None,
        },
        None => None,
    };
    match from_meta {
        Some(c) => (c as usize) as nat,
        None => count_lines(lines(row.output@), nonblank_pred()),
    }
}

/// Line counts of a diff, as plain numbers.
pub open spec fn diff_counts(d: Option<(usize, usize)>) -> Option<(nat, nat)> {
    match d {
        Some(p) => Some((p.0 as nat, p.1 as nat)),
        None => None,
    }
}

/// The one-line summary of a row, given its parsed arguments and, for an
/// edit, the numbers of lines that the diff of its old and new text (see
/// [`edit_pair`]) adds and removes.
pub open spec fn row_detail(row: ToolRow, args: Option<JsonValue>, edit_diff: Option<(nat, nat)>) -> Seq<char> {
    if row.desc@ == preparing_desc() {
        "Preparing "@ + row.name@ + "..."@
    } else {
        let target = if row.desc@.len() == 0 {
            row.arguments@
        } else {
            row.desc@
        };
        let k = tool_kind(row.name@);
        let label = row_label(k);
        if k == ToolKind::Edit && edit_pair(args) is Some && edit_diff is Some {
            let (a, r) = edit_diff->0;
            labelled(label, strip_prefix(target, "Edit "@), count_suffix(a, r))
        } else if k == ToolKind::Patch && patch_text(args) is Some {
            let ls = lines(patch_text(args)->0);
            labelled(
                label,
                strip_prefix(target, "Patch "@),
                count_suffix(count_lines(ls, added_pred()), count_lines(ls, removed_pred())),
            )
        } else if (k == ToolKind::Glob || k == ToolKind::Grep) && row.state
            == ToolRowState::Completed {
            let clean = if starts_with(target, "Glob "@) {
                strip_prefix(target, "Glob "@)
            } else {
                strip_prefix(target, "Grep "@)
            };
            labelled(label, clean, match_suffix(match_count(row)))
        } else if k == ToolKind::Bash {
            if clean_command(target).len() == 0 {
                "bash"@
            } else {
                clean_command(target)
            }
        } else if target.len() == 0 {
            if label.len() == 0 {
                row.name@
            } else {
                label + " "@ + row.name@
            }
        } else if label.len() == 0 {
            target
        } else {
            label + " "@ + target
        }
    }
}

fn labelled_of(label: &str, target: &str, suffix: &str) -> (r: String)
    ensures
        r@ == labelled(label@, target@, suffix@),
{
    let mut r = label.to_owned();
    if !target.is_empty() {
        string_push_str(&mut r, " ");
        string_push_str(&mut r, target);
    }
    string_push_str(&mut r, suffix);
    r
}

fn count_suffix_of(added: usize, removed: usize) -> (r: String)
    ensures
        r@ == count_suffix(added as nat, removed as nat),
{
    let mut r = " (+".to_owned();
    push_decimal(&mut r, added as u64);
    string_push_str(&mut r, " -");
    push_decimal(&mut r, removed as u64);
    string_push_str(&mut r, ")");
    r
}

fn match_suffix_of(n: usize) -> (r: String)
    ensures
        r@ == match_suffix(n as nat),
{
    let mut r = " (".to_owned();
    push_decimal(&mut r, n as u64);
    string_push_str(&mut r, " ");
    if n == 1 {
        string_push_str(&mut r, "match");
    } else {
        string_push_str(&mut r, "matches");
    }
    string_push_str(&mut r, ")");
    r
}

fn match_count_of(row: &ToolRow) -> (n: usize)
    ensures
        n as nat == match_count(*row),
{
    let from_meta = match &row.metadata {
        Some(m) => match get2(m, "count", "matches") {
            Some(v) => as_u64(v),
            None => None,
        },
        None => None,
    };
    match from_meta {
        Some(c) => c as usize,
        None => nonblank_line_count(row.output.as_str()),
    }
}

/// The one-line summary of a row, given its parsed arguments and the diff
/// counts of an edit (see [`row_detail`]).
pub fn tool_row_detail_with(
    row: &ToolRow,
    args: Option<&JsonValue>,
    edit_diff: Option<(usize, usize)>,
) -> (r: String)
    ensures
        r@ == row_detail(*row, opt_deref(args), diff_counts(edit_diff)),
{
    if str_eq(row.desc.as_str(), "preparing arguments...") {
        let mut s = "Preparing ".to_owned();
        string_push_str(&mut s, row.name.as_str());
        string_push_str(&mut s, "...");
        return s;
    }
    let target: &str = if row.desc.as_str().is_empty() {
        row.arguments.as_str()
    } else {
        row.desc.as_str()
    };
    let k = kind_of(row.name.as_str());
    let label = row_label_of(k);
    if k == ToolKind::Edit {
        if let Some(_) = edit_pair_of(args) {
            if let Some((a, r)) = edit_diff {
                let clean = without_prefix(target, "Edit ");
                let suffix = count_suffix_of(a, r);
                return labelled_of(label, clean.as_str(), suffix.as_str());
            }
        }
    }
    if k == ToolKind::Patch {
        if let Some(p) = patch_text_of(args) {
            let (a, r) = patch_line_counts(p);
            let clean = without_prefix(target, "Patch ");
            let suffix = count_suffix_of(a, r);
            return labelled_of(label, clean.as_str(), suffix.as_str());
        }
    }
    if (k == ToolKind::Glob || k == ToolKind::Grep) && row.state == ToolRowState::Completed {
        let clean = if str_starts_with(target, "Glob ") {
            without_prefix(target, "Glob ")
        } else {
            without_prefix(target, "Grep ")
        };
        let suffix = match_suffix_of(match_count_of(row));
        return labelled_of(label, clean.as_str(), suffix.as_str());
    }
    if k == ToolKind::Bash {
        let clean = clean_command_of(target);
        if clean.as_str().is_empty() {
            return "bash".to_owned();
        } else {
            return clean;
        }
    }
    if target.is_empty() {
        if label.is_empty() {
            row.name.clone()
        } else {
            let mut s = label.to_owned();
            string_push_str(&mut s, " ");
            string_push_str(&mut s, row.name.as_str());
            s
        }
    } else if label.is_empty() {
        target.to_owned()
    } else {
        let mut s = label.to_owned();
        string_push_str(&mut s, " ");
        string_push_str(&mut s, target);
        s
    }
}

/// The one-line summary of a row (see [`row_detail`]), reading its arguments
/// as JSON; `edit_diff` gives the line counts of the diff of an edit's old and
/// new text (see [`edit_strings`]).
pub fn tool_row_detail(row: &ToolRow, edit_diff: Option<(usize, usize)>) -> (r: String)
    ensures
        r@ == row_detail(*row, parsed_json(row.arguments@), diff_counts(edit_diff)),
{
    let parsed = parsed_arguments(row);
    tool_row_detail_with(row, parsed.as_ref(), edit_diff)
}

// ---------------------------------------------------------------------------
// The compact line of a row
// ---------------------------------------------------------------------------

/// `s` without a leading `a`, or else without a leading `b`.
pub open spec fn strip_either(s: Seq<char>, a: Seq<char>, b: Seq<char>) -> Seq<char> {
    if starts_with(s, a) {
        s.skip(a.len() as int)
    } else {
        strip_prefix(s, b)
    }
}

/// `"+<added> -<removed>"`.
pub open spec fn counts_text(added: nat, removed: nat) -> Seq<char> {
    "+"@ + decimal(added) + " -"@ + decimal(removed)
}

/// The match count of a search row once it has completed.
pub open spec fn completed_matches(row: ToolRow) -> Option<Seq<char>> {
    if row.state == ToolRowState::Completed {
        Some(decimal(match_count(row)) + " "@ + match_word(match_count(row)))
    } else {
        None
    }
}

/// The verb, target and detail of the compact line of a row, given its parsed
/// arguments and, for an edit, the line counts of its diff.
pub open spec fn compact_parts(row: ToolRow, args: Option<JsonValue>, edit_diff: Option<(nat, nat)>) -> (
    Seq<char>,
    Seq<char>,
    Option<Seq<char>>,
) {
    if row.desc@ == preparing_desc() {
        ("Preparing"@, row.name@ + "..."@, None)
    } else {
        let t = if row.desc@.len() == 0 {
            row.arguments@
        } else {
            row.desc@
        };
        match tool_kind(row.name@) {
            ToolKind::Read => ("Read"@, strip_prefix(t, "Read "@), None),
            ToolKind::Write => ("Write"@, strip_prefix(t, "Write "@), None),
            ToolKind::Edit => (
                "Edit"@,
                strip_prefix(t, "Edit "@),
                match (edit_pair(args), edit_diff) {
                    (Some(_), Some(d)) => Some(counts_text(d.0, d.1)),
                    _ => None,
                },
            ),
            ToolKind::Patch => (
                "Patch"@,
                strip_either(t, "Patch "@, "Applied patch "@),
                match patch_text(args) {
                    Some(p) => Some(
                        counts_text(
                            count_lines(lines(p), added_pred()),
                            count_lines(lines(p), removed_pred()),
                        ),
                    ),
                    None => None,
                },
            ),
            ToolKind::ListDir => ("List"@, strip_prefix(t, "List "@), None),
            ToolKind::Glob => ("Glob"@, strip_prefix(t, "Glob "@), completed_matches(row)),
            ToolKind::Grep => ("Grep"@, strip_prefix(t, "Grep "@), completed_matches(row)),
            ToolKind::WebFetch | ToolKind::Fetch => (
                "Fetch"@,
                strip_either(t, "Fetch "@, "Fetched "@),
                None,
            ),
            ToolKind::WebSearch | ToolKind::Search => (
                "Search"@,
                strip_either(t, "Search "@, "Searched "@),
                None,
            ),
            ToolKind::UpdatePlan => ("Updated Plan"@, Seq::empty(), None),
            ToolKind::Task => ("Task"@, strip_prefix(t, "Task "@), None),
            ToolKind::Execute => ("Execute"@, strip_prefix(t, "Execute "@), None),
            ToolKind::Question => ("Ask"@, strip_prefix(t, "Ask "@), None),
            ToolKind::Skill => (
                "Load skill"@,
                strip_either(t, "Load skill "@, "Loaded skill "@),
                None,
            ),
            ToolKind::Bash => if clean_command(t).len() == 0 {
                ("bash"@, Seq::empty(), None)
            } else {
                (Seq::empty(), clean_command(t), None)
            },
            ToolKind::Other => if strip_prefix(t, "Run "@).len() == 0 {
                ("Run"@, row.name@, None)
            } else {
                ("Run"@, strip_prefix(t, "Run "@), None)
            },
        }
    }
}

/// Why a failed row failed: the first line of its output (`"error"` when it
/// has none), trimmed, without the `"Error executing <name>: "` that
/// introduces it unless nothing would be left. Empty for a row that did not
/// fail.
pub open spec fn failure_message(row: ToolRow) -> Seq<char> {
    if row.state == ToolRowState::Failed {
        let ls = lines(row.output@);
        let first = trim(
            if ls.len() > 0 {
                ls[0]
            } else {
                "error"@
            },
        );
        let stripped = strip_prefix(first, "Error executing "@ + row.name@ + ": "@);
        if stripped.len() == 0 {
            first
        } else {
            stripped
        }
    } else {
        Seq::empty()
    }
}

/// The cells a compact line takes besides its target: the indent and marker,
/// the verb (and the space after it), the detail in parentheses and the
/// failure note.
pub open spec fn compact_overhead(
    verb: Seq<char>,
    target: Seq<char>,
    detail: Option<Seq<char>>,
    error: Seq<char>,
) -> nat {
    let verb_w: nat = if verb.len() == 0 {
        0
    } else if target.len() == 0 {
        cell_width(verb)
    } else {
        cell_width(verb) + 1
    };
    let detail_w: nat = match detail {
        Some(d) => cell_width(d) + 3,
        None => 0,
    };
    let error_w: nat = if error.len() > 0 {
        cell_width(error) + 11
    } else {
        0
    };
    5 + verb_w + detail_w + error_w
}

/// The target of a compact line `width` cells wide: shortened (see
/// [`truncated_text`]) when it does not fit in what the rest of the line
/// leaves, keeping two cells spare, as long as that is at least eight cells.
pub open spec fn fitted_target(
    verb: Seq<char>,
    target: Seq<char>,
    detail: Option<Seq<char>>,
    error: Seq<char>,
    width: nat,
) -> Seq<char> {
    let need = compact_overhead(verb, target, detail, error) + 2;
    let room: nat = if width > need {
        (width - need) as nat
    } else {
        0
    };
    if width > 0 && room >= 8 && cell_width(target) > room {
        truncated_text(target, room)
    } else {
        target
    }
}

/// The pieces of the one-line view of a tool row: the row's state picks the
/// marker before them.
#[derive(Debug, PartialEq, Eq)]
pub struct CompactToolLine {
    pub verb: String,
    pub target: String,
    pub detail: Option<String>,
    pub error: String,
}

/// The text of an optional string.
pub open spec fn opt_string_view(o: Option<String>) -> Option<Seq<char>> {
    match o {
        Some(s) => Some(s@),
        None => None,
    }
}

fn counts_text_of(added: usize, removed: usize) -> (r: String)
    ensures
        r@ == counts_text(added as nat, removed as nat),
{
    let mut r = "+".to_owned();
    push_decimal(&mut r, added as u64);
    string_push_str(&mut r, " -");
    push_decimal(&mut r, removed as u64);
    r
}

fn strip_either_of(s: &str, a: &str, b: &str) -> (r: String)
    ensures
        r@ == strip_either(s@, a@, b@),
{
    if str_starts_with(s, a) {
        without_prefix(s, a)
    } else {
        without_prefix(s, b)
    }
}

fn completed_matches_of(row: &ToolRow) -> (r: Option<String>)
    ensures
        opt_string_view(r) == completed_matches(*row),
{
    if row.state == ToolRowState::Completed {
        let n = match_count_of(row);
        let mut s = String::new();
        push_decimal(&mut s, n as u64);
        string_push_str(&mut s, " ");
        if n == 1 {
            string_push_str(&mut s, "match");
        } else {
            string_push_str(&mut s, "matches");
        }
        Some(s)
    } else {
        None
    }
}

fn compact_parts_of(row: &ToolRow, args: Option<&JsonValue>, edit_diff: Option<(usize, usize)>) -> (r: (
    String,
    String,
    Option<String>,
))
    ensures
        (r.0@, r.1@, opt_string_view(r.2)) == compact_parts(
            *row,
            opt_deref(args),
            diff_counts(edit_diff),
        ),
{
    if str_eq(row.desc.as_str(), "preparing arguments...") {
        let mut t = row.name.clone();
        string_push_str(&mut t, "...");
        return ("Preparing".to_owned(), t, None);
    }
    let t: &str = if row.desc.as_str().is_empty() {
        row.arguments.as_str()
    } else {
        row.desc.as_str()
    };
    match kind_of(row.name.as_str()) {
        ToolKind::Read => ("Read".to_owned(), without_prefix(t, "Read "), None),
        ToolKind::Write => ("Write".to_owned(), without_prefix(t, "Write "), None),
        ToolKind::Edit => {
            let detail = match (edit_pair_of(args), edit_diff) {
                (Some(_), Some((a, r))) => Some(counts_text_of(a, r)),
                _ => None,
            };
            ("Edit".to_owned(), without_prefix(t, "Edit "), detail)
        },
        ToolKind::Patch => {
            let detail = match patch_text_of(args) {
                Some(p) => {
                    let (a, r) = patch_line_counts(p);
                    Some(counts_text_of(a, r))
                },
                None => None,
            };
            ("Patch".to_owned(), strip_either_of(t, "Patch ", "Applied patch "), detail)
        },
        ToolKind::ListDir => ("List".to_owned(), without_prefix(t, "List "), None),
        ToolKind::Glob => ("Glob".to_owned(), without_prefix(t, "Glob "), completed_matches_of(row)),
        ToolKind::Grep => ("Grep".to_owned(), without_prefix(t, "Grep "), completed_matches_of(row)),
        ToolKind::WebFetch | ToolKind::Fetch => (
            "Fetch".to_owned(),
            strip_either_of(t, "Fetch ", "Fetched "),
            None,
        ),
        ToolKind::WebSearch | ToolKind::Search => (
            "Search".to_owned(),
            strip_either_of(t, "Search ", "Searched "),
            None,
        ),
        ToolKind::UpdatePlan => ("Updated Plan".to_owned(), String::new(), None),
        ToolKind::Task => ("Task".to_owned(), without_prefix(t, "Task "), None),
        ToolKind::Execute => ("Execute".to_owned(), without_prefix(t, "Execute "), None),
        ToolKind::Question => ("Ask".to_owned(), without_prefix(t, "Ask "), None),
        ToolKind::Skill => (
            "Load skill".to_owned(),
            strip_either_of(t, "Load skill ", "Loaded skill "),
            None,
        ),
        ToolKind::Bash => {
            let clean = clean_command_of(t);
            if clean.as_str().is_empty() {
                ("bash".to_owned(), String::new(), None)
            } else {
                (String::new(), clean, None)
            }
        },
        ToolKind::Other => {
            let clean = without_prefix(t, "Run ");
            if clean.as_str().is_empty() {
                ("Run".to_owned(), row.name.clone(), None)
            } else {
                ("Run".to_owned(), clean, None)
            }
        },
    }
}

fn failure_message_of(row: &ToolRow) -> (r: String)
    ensures
        r@ == failure_message(*row),
{
    if row.state != ToolRowState::Failed {
        return String::new();
    }
    let ls = split_lines(row.output.as_str());
    let first = if ls.len() > 0 {
        proof {
            assert(string_views(ls@)[0] == ls@[0]@);
        }
        trimmed(ls[0].as_str())
    } else {
        trimmed("error")
    };
    let mut prefix = "Error executing ".to_owned();
    string_push_str(&mut prefix, row.name.as_str());
    string_push_str(&mut prefix, ": ");
    let stripped = without_prefix(first.as_str(), prefix.as_str());
    if stripped.as_str().is_empty() {
        first
    } else {
        stripped
    }
}

/// The one-line view of a row `width` cells wide, given its parsed arguments
/// and the line counts of an edit's diff (see [`compact_parts`],
/// [`failure_message`] and [`fitted_target`]).
pub fn compact_tool_line_with(
    row: &ToolRow,
    args: Option<&JsonValue>,
    width: u16,
    edit_diff: Option<(usize, usize)>,
) -> (r: CompactToolLine)
    ensures
        ({
            let (verb, target, detail) = compact_parts(
                *row,
                opt_deref(args),
                diff_counts(edit_diff),
            );
            &&& r.verb@ == verb
            &&& opt_string_view(r.detail) == detail
            &&& r.error@ == failure_message(*row)
            &&& r.target@ == fitted_target(verb, target, detail, r.error@, width as nat)
        }),
{
    let (verb, target, detail) = compact_parts_of(row, args, edit_diff);
    let error = failure_message_of(row);
    let verb_w: usize = if verb.as_str().is_empty() {
        0
    } else if target.as_str().is_empty() {
        text_cell_width(verb.as_str())
    } else {
        text_cell_width(verb.as_str()).saturating_add(1)
    };
    let detail_w: usize = match &detail {
        Some(d) => text_cell_width(d.as_str()).saturating_add(3),
        None => 0,
    };
    let error_w: usize = if !error.as_str().is_empty() {
        text_cell_width(error.as_str()).saturating_add(11)
    } else {
        0
    };
    let need = verb_w.saturating_add(detail_w).saturating_add(error_w).saturating_add(7);
    let w = width as usize;
    let room: usize = if w > need {
        w - need
    } else {
        0
    };
    proof {
        let true_need = compact_overhead(verb@, target@, opt_string_view(detail), error@) + 2;
        assert(need as int >= true_need || need == usize::MAX);
        assert(need as int <= true_need);
        assert(w <= 65535);
    }
    let fitted = if w > 0 && room >= 8 && text_cell_width(target.as_str()) > room {
        truncate_tool_text(target.as_str(), room)
    } else {
        target
    };
    CompactToolLine { verb, target: fitted, detail, error }
}

/// The one-line view of a row `width` cells wide (see
/// [`compact_tool_line_with`]), reading its arguments as JSON; `edit_diff`
/// gives the line counts of the diff of an edit's old and new text (see
/// [`edit_strings`]).
pub fn compact_tool_line(row: &ToolRow, width: u16, edit_diff: Option<(usize, usize)>) -> (r:
    CompactToolLine)
    ensures
        ({
            let (verb, target, detail) = compact_parts(
                *row,
                parsed_json(row.arguments@),
                diff_counts(edit_diff),
            );
            &&& r.verb@ == verb
            &&& opt_string_view(r.detail) == detail
            &&& r.error@ == failure_message(*row)
            &&& r.target@ == fitted_target(verb, target, detail, r.error@, width as nat)
        }),
{
    let parsed = parsed_arguments(row);
    compact_tool_line_with(row, parsed.as_ref(), width, edit_diff)
}

// ---------------------------------------------------------------------------
// Lines of detail under a row
// ---------------------------------------------------------------------------

/// How a nested call of an `execute` row ended, by its `status`.
#[derive(Debug, Clone, Copy, PartialEq, Eq, Structural)]
pub enum CallStatus {
    Done,
    Failed,
    Running,
    Other,
}

/// How far a plan step is, by its `status`.
#[derive(Debug, Clone, Copy, PartialEq, Eq, Structural)]
pub enum StepStatus {
    Done,
    Active,
    Pending,
}

/// What a line of detail under a row shows.
#[derive(Debug, Clone, Copy, PartialEq, Eq, Structural)]
pub enum DetailKind {
    /// The agent and task of a `task` row, or a nested call without a status.
    Note,
    /// The child session a `task` row runs in (the text is its id).
    ChildSession,
    /// A nested call of an `execute` row (the text is the tool).
    Call(CallStatus),
    /// A step of an `update_plan` row (the text is the step).
    Step(StepStatus),
}

/// A line of detail under a row.
#[derive(Debug, PartialEq, Eq)]
pub struct DetailLine {
    pub kind: DetailKind,
    pub text: String,
}

/// The kind and text of each line.
pub open spec fn detail_views(v: Seq<DetailLine>) -> Seq<(DetailKind, Seq<char>)> {
    v.map_values(|l: DetailLine| (l.kind, l.text@))
}

/// Most nested calls listed under an `execute` row.
pub const MAX_LISTED_CALLS: usize = 16;

/// The status of a nested call.
pub open spec fn call_status(s: Seq<char>) -> CallStatus {
    if s == "completed"@ || s == "complete"@ {
        CallStatus::Done
    } else if s == "error"@ || s == "failed"@ {
        CallStatus::Failed
    } else if s == "running"@ || s == "pending"@ || s == "in_progress"@ || s == "in-progress"@ {
        CallStatus::Running
    } else {
        CallStatus::Other
    }
}

/// The status of a plan step.
pub open spec fn step_status(s: Seq<char>) -> StepStatus {
    if s == "completed"@ || s == "complete"@ || s == "done"@ {
        StepStatus::Done
    } else if s == "in_progress"@ || s == "in-progress"@ || s == "running"@ {
        StepStatus::Active
    } else {
        StepStatus::Pending
    }
}

/// The line for a nested call of an `execute` row, if it names its tool.
pub open spec fn call_line(call: JsonValue) -> Option<(DetailKind, Seq<char>)> {
    match opt_str(json_get(call, "tool"@)) {
        None => None,
        Some(tool) => match opt_str(json_get(call, "status"@)) {
            None => Some((DetailKind::Note, tool)),
            Some(st) => Some((DetailKind::Call(call_status(st)), tool)),
        },
    }
}

/// The lines for the nested calls `calls`.
pub open spec fn call_lines(calls: Seq<JsonValue>) -> Seq<(DetailKind, Seq<char>)>
    decreases calls.len(),
{
    if calls.len() == 0 {
        Seq::empty()
    } else {
        let rest = call_lines(calls.drop_last());
        match call_line(calls.last()) {
            Some(l) => rest.push(l),
            None => rest,
        }
    }
}

/// The line for a plan step, if it has text.
pub open spec fn step_line(item: JsonValue) -> Option<(DetailKind, Seq<char>)> {
    match opt_str(json_get3(item, "step"@, "content"@, "title"@)) {
        None => None,
        Some(step) => Some(
            (
                DetailKind::Step(
                    step_status(text_or(opt_str(json_get(item, "status"@)), "pending"@)),
                ),
                step,
            ),
        ),
    }
}

/// The lines for the plan steps `items`.
pub open spec fn step_lines(items: Seq<JsonValue>) -> Seq<(DetailKind, Seq<char>)>
    decreases items.len(),
{
    if items.len() == 0 {
        Seq::empty()
    } else {
        let rest = step_lines(items.drop_last());
        match step_line(items.last()) {
            Some(l) => rest.push(l),
            None => rest,
        }
    }
}

/// The lines of detail under a row, given its parsed arguments: for a `task`
/// row its agent and task, then its child session when the metadata names
/// one; for an `execute` row its first nested calls; for an `update_plan` row
/// its steps. Other rows, rows whose arguments do not parse, and rows still
/// running other than those three have none.
pub open spec fn detail_lines(row: ToolRow, args: Option<JsonValue>) -> Seq<(DetailKind, Seq<char>)> {
    let k = tool_kind(row.name@);
    let terminal = row.state == ToolRowState::Completed || row.state == ToolRowState::Failed;
    let listed = k == ToolKind::Task || k == ToolKind::Execute || k == ToolKind::UpdatePlan;
    if !terminal && !listed {
        Seq::empty()
    } else {
        match args {
            None => Seq::empty(),
            Some(a) => if k == ToolKind::Task {
                let first = seq![(DetailKind::Note, task_target(a))];
                let session = match row.metadata {
                    Some(m) => opt_str(json_get(m, "sessionId"@)),
                    None => None,
                };
                match session {
                    Some(id) => first.push((DetailKind::ChildSession, id)),
                    None => first,
                }
            } else if k == ToolKind::Execute {
                match json_get(a, "toolCalls"@) {
                    Some(JsonValue::Array(calls)) => call_lines(
                        if calls@.len() > MAX_LISTED_CALLS {
                            calls@.take(MAX_LISTED_CALLS as int)
                        } else {
                            calls@
                        },
                    ),
                    _ => Seq::empty(),
                }
            } else if k == ToolKind::UpdatePlan {
                match json_get(a, "plan"@) {
                    Some(JsonValue::Array(items)) => step_lines(items@),
                    _ => Seq::empty(),
                }
            } else {
                Seq::empty()
            },
        }
    }
}

fn call_status_of(s: &str) -> (r: CallStatus)
    ensures
        r == call_status(s@),
{
    if str_eq(s, "completed") || str_eq(s, "complete") {
        CallStatus::Done
    } else if str_eq(s, "error") || str_eq(s, "failed") {
        CallStatus::Failed
    } else if str_eq(s, "running") || str_eq(s, "pending") || str_eq(s, "in_progress") || str_eq(
        s,
        "in-progress",
    ) {
        CallStatus::Running
    } else {
        CallStatus::Other
    }
}

fn step_status_of(s: &str) -> (r: StepStatus)
    ensures
        r == step_status(s@),
{
    if str_eq(s, "completed") || str_eq(s, "complete") || str_eq(s, "done") {
        StepStatus::Done
    } else if str_eq(s, "in_progress") || str_eq(s, "in-progress") || str_eq(s, "running") {
        StepStatus::Active
    } else {
        StepStatus::Pending
    }
}

fn push_call_lines(out: &mut Vec<DetailLine>, calls: &Vec<JsonValue>, n: usize)
    requires
        n <= calls@.len(),
    ensures
        detail_views(final(out)@) == detail_views(old(out)@) + call_lines(calls@.take(n as int)),
{
    let ghost start = detail_views(out@);
    let mut i: usize = 0;
    while i < n
        invariant
            i <= n <= calls@.len(),
            detail_views(out@) == start + call_lines(calls@.take(i as int)),
        decreases n - i,
    {
        assert(calls@.take(i as int + 1).drop_last() =~= calls@.take(i as int));
        assert(calls@.take(i as int + 1).last() == calls@[i as int]);
        let call = &calls[i];
        if let Some(tool) = opt_as_str(get(call, "tool")) {
            let kind = match opt_as_str(get(call, "status")) {
                None => DetailKind::Note,
                Some(st) => DetailKind::Call(call_status_of(st)),
            };
            let ghost before = detail_views(out@);
            out.push(DetailLine { kind, text: tool.to_owned() });
            assert(detail_views(out@) =~= before.push((kind, tool@)));
        }
        i = i + 1;
    }
}

fn push_step_lines(out: &mut Vec<DetailLine>, items: &Vec<JsonValue>)
    ensures
        detail_views(final(out)@) == detail_views(old(out)@) + step_lines(items@),
{
    let ghost start = detail_views(out@);
    let mut i: usize = 0;
    while i < items.len()
        invariant
            i <= items@.len(),
            detail_views(out@) == start + step_lines(items@.take(i as int)),
        decreases items@.len() - i,
    {
        assert(items@.take(i as int + 1).drop_last() =~= items@.take(i as int));
        assert(items@.take(i as int + 1).last() == items@[i as int]);
        let item = &items[i];
        if let Some(step) = opt_as_str(get3(item, "step", "content", "title")) {
            let status = step_status_of(
                text_of_or(get(item, "status"), "pending").as_str(),
            );
            let ghost before = detail_views(out@);
            out.push(DetailLine { kind: DetailKind::Step(status), text: step.to_owned() });
            assert(detail_views(out@) =~= before.push((DetailKind::Step(status), step@)));
        }
        i = i + 1;
    }
    assert(items@.take(i as int) =~= items@);
}

/// The lines of detail under a row, given its parsed arguments (see
/// [`detail_lines`]).
pub fn specialized_detail_with(row: &ToolRow, args: Option<&JsonValue>) -> (r: Vec<DetailLine>)
    ensures
        detail_views(r@) == detail_lines(*row, opt_deref(args)),
{
    let mut out: Vec<DetailLine> = Vec::new();
    proof {
        assert(detail_views(out@) =~= Seq::<(DetailKind, Seq<char>)>::empty());
    }
    let k = kind_of(row.name.as_str());
    let terminal = row.state == ToolRowState::Completed || row.state == ToolRowState::Failed;
    let listed = k == ToolKind::Task || k == ToolKind::Execute || k == ToolKind::UpdatePlan;
    if !terminal && !listed {
        return out;
    }
    let a = match args {
        Some(a) => a,
        None => {
            return out;
        },
    };
    if k == ToolKind::Task {
        let text = task_target_of(a);
        out.push(DetailLine { kind: DetailKind::Note, text });
        let session = match &row.metadata {
            Some(m) => opt_as_str(get(m, "sessionId")),
            None => None,
        };
        if let Some(id) = session {
            out.push(DetailLine { kind: DetailKind::ChildSession, text: id.to_owned() });
        }
        proof {
            let first = seq![(DetailKind::Note, task_target(*a))];
            match session {
                Some(id) => assert(detail_views(out@) =~= first.push(
                    (DetailKind::ChildSession, id@),
                )),
                None => assert(detail_views(out@) =~= first),
            }
        }
    } else if k == ToolKind::Execute {
        if let Some(c) = get(a, "toolCalls") {
            if let Some(calls) = as_array(c) {
                let n = if calls.len() > MAX_LISTED_CALLS {
                    MAX_LISTED_CALLS
                } else {
                    calls.len()
                };
                push_call_lines(&mut out, calls, n);
                proof {
                    if calls@.len() <= MAX_LISTED_CALLS {
                        assert(calls@.take(n as int) =~= calls@);
                    }
                    assert(Seq::<(DetailKind, Seq<char>)>::empty() + call_lines(
                        calls@.take(n as int),
                    ) =~= call_lines(calls@.take(n as int)));
                }
            }
        }
    } else if k == ToolKind::UpdatePlan {
        if let Some(p) = get(a, "plan") {
            if let Some(items) = as_array(p) {
                push_step_lines(&mut out, items);
                proof {
                    assert(Seq::<(DetailKind, Seq<char>)>::empty() + step_lines(items@)
                        =~= step_lines(items@));
                }
            }
        }
    }
    out
}

/// The lines of detail under a row (see [`detail_lines`]), reading its
/// arguments as JSON.
pub fn specialized_detail(row: &ToolRow) -> (r: Vec<DetailLine>)
    ensures
        detail_views(r@) == detail_lines(*row, parsed_json(row.arguments@)),
{
    let parsed = parsed_arguments(row);
    specialized_detail_with(row, parsed.as_ref())
}

} // verus!
