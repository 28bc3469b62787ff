//! The git panel: changed files, the diff of the highlighted one, staging and
//! committing. The repository is read and written by the caller; this state
//! machine says what to ask for and what to show for each answer.
use vstd::prelude::*;

use super::common::next_index;
use crate::lines::{content_end_of, line_count, lines, lines_from, trimmed};
use crate::numfmt::{decimal, push_decimal};
use crate::search::{str_eq, str_starts_with};
use crate::text::starts_with;
use crate::utf8::lemma_encode_utf8_concat;
use super::sessions::{capped, sat_sub};
use vstd::utf8::*;
use crate::strings::{string_clear, string_pop, string_push, string_push_str};
use crate::text::{chars_of, line_end_within, trim};

verus! {

broadcast use vstd::string::group_string_axioms;

/// A changed file as `git status` reports it.
#[derive(Debug, Clone, PartialEq, Eq)]
pub struct GitFileChange {
    pub path: String,
    pub staged: bool,
    pub status_code: String,
}

/// State of the git panel.
#[derive(Debug, Clone, PartialEq, Eq)]
pub struct GitDialogState {
    pub repo_path: std::path::PathBuf,
    pub changes: Vec<GitFileChange>,
    pub selected: usize,
    pub diff: String,
    pub diff_scroll: u16,
    pub file_scroll: usize,
    pub commit_mode: bool,
    pub commit_message: String,
    pub status_message: Option<String>,
}

/// Number of lines of an untracked file that its preview shows.
pub const UNTRACKED_PREVIEW_LINES: usize = 200;

/// The lines of `ls`, each as `"+ <line>\n"`.
pub open spec fn added_lines(ls: Seq<Seq<char>>) -> Seq<char>
    decreases ls.len(),
{
    if ls.len() == 0 {
        Seq::empty()
    } else {
        added_lines(ls.drop_last()) + "+ "@ + ls.last() + seq!['\n']
    }
}

/// Preview of an untracked file: a header naming it, then its first lines
/// marked as added.
pub open spec fn untracked_preview(path: Seq<char>, content: Seq<char>) -> Seq<char> {
    "(untracked: "@ + path + ")\n"@ + added_lines(
        lines(content).take(
            if lines(content).len() < UNTRACKED_PREVIEW_LINES {
                lines(content).len() as int
            } else {
                UNTRACKED_PREVIEW_LINES as int
            },
        ),
    )
}

/// What the diff pane shows for the highlighted change `c`, given what
/// `git diff` answered and, for an untracked file, its content if it could be
/// read.
pub open spec fn diff_text(
    c: GitFileChange,
    diff: Result<String, String>,
    untracked_content: Option<String>,
) -> Seq<char> {
    match diff {
        Ok(d) => if d@.len() > 0 {
            d@
        } else if c.status_code@ == "?"@ {
            match untracked_content {
                Some(content) => untracked_preview(c.path@, content@),
                None => "(untracked: "@ + c.path@ + ")\nPress Space to stage."@,
            }
        } else {
            "(no diff or binary file)"@
        },
        Err(e) => "diff error: "@ + e@,
    }
}

/// The diff the panel needs: which file, and from which side of the index.
#[derive(Debug, Clone, PartialEq, Eq)]
pub struct DiffRequest {
    pub path: String,
    pub staged: bool,
    pub untracked: bool,
}

/// The stage or unstage the panel needs.
#[derive(Debug, Clone, PartialEq, Eq)]
pub struct StageRequest {
    pub path: String,
    /// True to remove the file from the index, false to add it.
    pub unstage: bool,
}

/// Appends the preview lines of `content` to `out`.
fn push_added_lines(out: &mut String, content: &str)
    ensures
        final(out)@ == old(out)@ + added_lines(
            lines(content@).take(
                if lines(content@).len() < UNTRACKED_PREVIEW_LINES {
                    lines(content@).len() as int
                } else {
                    UNTRACKED_PREVIEW_LINES as int
                },
            ),
        ),
{
    let v = chars_of(content);
    let len = v.len();
    let mut pos: usize = 0;
    let mut taken: usize = 0;
    let ghost all = lines(content@);
    assert(v@.take(len as int) =~= v@);
    assert(all.take(0) =~= Seq::<Seq<char>>::empty());
    assert(old(out)@ + added_lines(all.take(0)) =~= old(out)@);
    while pos < len && taken < UNTRACKED_PREVIEW_LINES
        invariant
            pos <= len,
            len == v@.len(),
            v@ == content@,
            v@.take(len as int) == v@,
            all == lines(content@),
            taken <= UNTRACKED_PREVIEW_LINES,
            all == all.take(taken as int) + lines_from(v@, pos as int),
            taken <= all.len(),
            out@ == old(out)@ + added_lines(all.take(taken as int)),
        decreases len - pos,
    {
        let e = line_end_within(&v, pos, len);
        let c = content_end_of(&v, pos, e);
        let ghost line = v@.subrange(pos as int, c as int);
        let ghost rest = lines_from(v@, pos as int);
        assert(rest[0] == line);
        assert(rest.drop_first() =~= lines_from(v@, e as int));
        let ghost before = out@;
        string_push_str(out, "+ ");
        let mut i = pos;
        while i < c
            invariant
                pos <= i <= c,
                c <= len,
                len == v@.len(),
                out@ == before + "+ "@ + v@.subrange(pos as int, i as int),
            decreases c - i,
        {
            string_push(out, v[i]);
            i = i + 1;
            assert(out@ =~= before + "+ "@ + v@.subrange(pos as int, i as int));
        }
        string_push(out, '\n');
        proof {
            assert(all[taken as int] == line) by {
                assert((all.take(taken as int) + rest)[taken as int] == rest[0]);
            }
            assert(all.take(taken as int + 1).drop_last() =~= all.take(taken as int));
            assert(all.take(taken as int + 1).last() == line);
            assert(out@ =~= old(out)@ + added_lines(all.take(taken as int + 1)));
            assert(all =~= all.take(taken as int + 1) + lines_from(v@, e as int));
        }
        taken = taken + 1;
        pos = e;
    }
    proof {
        let n = if all.len() < UNTRACKED_PREVIEW_LINES {
            all.len() as int
        } else {
            UNTRACKED_PREVIEW_LINES as int
        };
        if pos >= len {
            assert(lines_from(v@, pos as int) =~= Seq::<Seq<char>>::empty());
            assert(all.take(taken as int) =~= all);
            assert(taken as int == all.len());
        }
        assert(taken as int == n);
    }
}

impl GitDialogState {
    /// The panel over the given changes (an unreadable status shows none),
    /// with the first file highlighted and no diff loaded yet: the caller
    /// loads it next, asking [`GitDialogState::diff_request`] and answering
    /// with [`GitDialogState::reload_diff`].
    pub fn new(repo_path: std::path::PathBuf, status: Result<Vec<GitFileChange>, String>) -> (s:
        Self)
        ensures
            s.repo_path == repo_path,
            s.changes@ == match status {
                Ok(c) => c@,
                Err(_) => Seq::empty(),
            },
            s.selected == 0,
            s.diff@.len() == 0,
            s.diff_scroll == 0,
            s.file_scroll == 0,
            !s.commit_mode,
            s.commit_message@.len() == 0,
            s.status_message is None,
    {
        let changes = match status {
            Ok(c) => c,
            Err(_) => Vec::new(),
        };
        Self::with_changes(repo_path, changes)
    }

    /// The panel over `changes`, with the first file highlighted.
    pub fn with_changes(repo_path: std::path::PathBuf, changes: Vec<GitFileChange>) -> (s: Self)
        ensures
            s.repo_path == repo_path,
            s.changes == changes,
            s.selected == 0,
            s.diff@.len() == 0,
            s.diff_scroll == 0,
            s.file_scroll == 0,
            !s.commit_mode,
            s.commit_message@.len() == 0,
            s.status_message is None,
    {
        GitDialogState {
            repo_path,
            changes,
            selected: 0,
            diff: String::new(),
            diff_scroll: 0,
            file_scroll: 0,
            commit_mode: false,
            commit_message: String::new(),
            status_message: None,
        }
    }

    /// Takes a fresh `git status`. When it could be read, the changes are
    /// replaced, the selection is kept within them, the diff scrolls back to
    /// its top, and `true` says that the diff must be reloaded; otherwise
    /// nothing changes.
    pub fn refresh(&mut self, status: Result<Vec<GitFileChange>, String>) -> (reload: bool)
        ensures
            reload == status is Ok,
            match status {
                Ok(c) => {
                    &&& final(self).changes == c
                    &&& final(self).selected == if old(self).selected >= c@.len() {
                        if c@.len() > 0 {
                            (c@.len() - 1) as usize
                        } else {
                            0
                        }
                    } else {
                        old(self).selected
                    }
                },
                Err(_) => final(self).changes == old(self).changes && final(self).selected
                    == old(self).selected,
            },
            *final(self) == (GitDialogState {
                changes: final(self).changes,
                selected: final(self).selected,
                diff_scroll: if reload {
                    0
                } else {
                    old(self).diff_scroll
                },
                ..*old(self)
            }),
    {
        match status {
            Ok(changes) => {
                self.changes = changes;
                if self.selected >= self.changes.len() {
                    self.selected = self.changes.len().saturating_sub(1);
                }
                self.diff_scroll = 0;
                true
            },
            Err(_) => false,
        }
    }

    /// The diff to load for the highlighted change, if any.
    pub fn diff_request(&self) -> (r: Option<DiffRequest>)
        ensures
            self.selected < self.changes@.len() ==> (r matches Some(q) && q.path@
                == self.changes@[self.selected as int].path@ && q.staged
                == self.changes@[self.selected as int].staged && q.untracked == (self.changes@[
                self.selected as int].status_code@ == "?"@)),
            self.selected >= self.changes@.len() ==> r is None,
    {
        if self.selected < self.changes.len() {
            let c = &self.changes[self.selected];
            Some(
                DiffRequest {
                    path: c.path.clone(),
                    staged: c.staged,
                    untracked: str_eq(c.status_code.as_str(), "?"),
                },
            )
        } else {
            None
        }
    }

    /// Shows the diff of the highlighted change from what the repository
    /// answered (see [`diff_text`]); with nothing highlighted the pane is
    /// cleared. The diff scroll returns to the top.
    pub fn reload_diff(&mut self, diff: Result<String, String>, untracked_content: Option<String>)
        ensures
            final(self).diff_scroll == 0,
            old(self).selected < old(self).changes@.len() ==> final(self).diff@ == diff_text(
                old(self).changes@[old(self).selected as int],
                diff,
                untracked_content,
            ),
            old(self).selected >= old(self).changes@.len() ==> final(self).diff@.len() == 0,
            *final(self) == (GitDialogState {
                diff: final(self).diff,
                diff_scroll: 0,
                ..*old(self)
            }),
    {
        self.diff_scroll = 0;
        if self.selected >= self.changes.len() {
            string_clear(&mut self.diff);
            return;
        }
        let text = {
            let c = &self.changes[self.selected];
            match diff {
                Ok(d) => {
                    if !d.as_str().is_empty() {
                        d
                    } else if str_eq(c.status_code.as_str(), "?") {
                        match untracked_content {
                            Some(content) => {
                                let mut p = "(untracked: ".to_owned();
                                string_push_str(&mut p, c.path.as_str());
                                string_push_str(&mut p, ")\n");
                                push_added_lines(&mut p, content.as_str());
                                p
                            },
                            None => {
                                let mut p = "(untracked: ".to_owned();
                                string_push_str(&mut p, c.path.as_str());
                                string_push_str(&mut p, ")\nPress Space to stage.");
                                p
                            },
                        }
                    } else {
                        "(no diff or binary file)".to_owned()
                    }
                },
                Err(e) => {
                    let mut p = "diff error: ".to_owned();
                    string_push_str(&mut p, e.as_str());
                    p
                },
            }
        };
        self.diff = text;
    }

    /// The highlighted change, if any.
    pub fn selected_change(&self) -> (r: Option<&GitFileChange>)
        ensures
            self.selected < self.changes@.len() ==> r == Some(&self.changes@[self.selected as int]),
            self.selected >= self.changes@.len() ==> r is None,
    {
        if self.selected < self.changes.len() {
            Some(&self.changes[self.selected])
        } else {
            None
        }
    }

    /// Highlights the next change, wrapping after the last, with the diff
    /// scrolled back to its top; `true` says the diff must be reloaded.
    /// Nothing happens without changes.
    pub fn next(&mut self) -> (reload: bool)
        ensures
            reload == (old(self).changes@.len() > 0),
            final(self).selected == if old(self).changes@.len() == 0 {
                old(self).selected as int
            } else if old(self).selected + 1 < old(self).changes@.len() {
                old(self).selected + 1
            } else {
                0
            },
            *final(self) == (GitDialogState {
                selected: final(self).selected,
                diff_scroll: if reload {
                    0
                } else {
                    old(self).diff_scroll
                },
                ..*old(self)
            }),
    {
        let n = self.changes.len();
        if n == 0 {
            return false;
        }
        if self.selected < n - 1 {
            self.selected = self.selected + 1;
        } else {
            self.selected = 0;
        }
        self.diff_scroll = 0;
        true
    }

    /// Highlights the previous change, wrapping before the first, with the
    /// diff scrolled back to its top; `true` says the diff must be reloaded.
    /// Nothing happens without changes.
    pub fn previous(&mut self) -> (reload: bool)
        ensures
            reload == (old(self).changes@.len() > 0),
            final(self).selected == if old(self).changes@.len() == 0 {
                old(self).selected as int
            } else if old(self).selected > 0 {
                old(self).selected - 1
            } else {
                old(self).changes@.len() - 1
            },
            *final(self) == (GitDialogState {
                selected: final(self).selected,
                diff_scroll: if reload {
                    0
                } else {
                    old(self).diff_scroll
                },
                ..*old(self)
            }),
    {
        let n = self.changes.len();
        if n == 0 {
            return false;
        }
        if self.selected > 0 {
            self.selected = self.selected - 1;
        } else {
            self.selected = n - 1;
        }
        self.diff_scroll = 0;
        true
    }

    /// Scrolls the diff up by `delta` lines, stopping at the top.
    pub fn scroll_diff_up(&mut self, delta: u16)
        ensures
            final(self).diff_scroll == if old(self).diff_scroll >= delta {
                old(self).diff_scroll - delta
            } else {
                0
            },
            *final(self) == (GitDialogState { diff_scroll: final(self).diff_scroll, ..*old(self) }),
    {
        self.diff_scroll = self.diff_scroll.saturating_sub(delta);
    }

    /// Scrolls the diff down by `delta` lines, stopping at its last line (the
    /// line count is taken modulo 2^16).
    pub fn scroll_diff_down(&mut self, delta: u16)
        requires
            old(self).diff_scroll + delta <= u16::MAX,
        ensures
            ({
                let total = (lines(old(self).diff@).len() % 65536) as int;
                let max_scroll = if total > 0 {
                    total - 1
                } else {
                    0
                };
                final(self).diff_scroll == if old(self).diff_scroll + delta < max_scroll {
                    old(self).diff_scroll + delta
                } else {
                    max_scroll
                }
            }),
            *final(self) == (GitDialogState { diff_scroll: final(self).diff_scroll, ..*old(self) }),
    {
        let n = line_count(self.diff.as_str());
        let total: u16 = (n % 65536) as u16;
        let max_scroll = total.saturating_sub(1);
        let wanted = self.diff_scroll + delta;
        self.diff_scroll = if wanted < max_scroll {
            wanted
        } else {
            max_scroll
        };
    }

    /// The stage or unstage that toggling the highlighted change needs.
    pub fn toggle_stage_request(&self) -> (r: Option<StageRequest>)
        ensures
            self.selected < self.changes@.len() ==> (r matches Some(q) && q.path@
                == self.changes@[self.selected as int].path@ && q.unstage
                == self.changes@[self.selected as int].staged),
            self.selected >= self.changes@.len() ==> r is None,
    {
        if self.selected < self.changes.len() {
            let c = &self.changes[self.selected];
            Some(StageRequest { path: c.path.clone(), unstage: c.staged })
        } else {
            None
        }
    }

    /// Takes the outcome of a stage or unstage: success clears the status
    /// line and `true` says the status must be refreshed; a failure is shown.
    pub fn toggle_stage(&mut self, result: Result<(), String>) -> (refresh: bool)
        ensures
            refresh == result is Ok,
            match result {
                Ok(()) => final(self).status_message is None,
                Err(e) => final(self).status_message matches Some(m) && m@ == "Error: "@ + e@,
            },
            *final(self) == (GitDialogState {
                status_message: final(self).status_message,
                ..*old(self)
            }),
    {
        match result {
            Ok(()) => {
                self.status_message = None;
                true
            },
            Err(e) => {
                let mut m = "Error: ".to_owned();
                string_push_str(&mut m, e.as_str());
                self.status_message = Some(m);
                false
            },
        }
    }

    /// Starts typing a commit message.
    pub fn enter_commit_mode(&mut self)
        ensures
            *final(self) == (GitDialogState {
                commit_mode: true,
                status_message: None,
                ..*old(self)
            }),
    {
        self.commit_mode = true;
        self.status_message = None;
    }

    /// Stops typing the commit message (it is kept).
    pub fn exit_commit_mode(&mut self)
        ensures
            *final(self) == (GitDialogState {
                commit_mode: false,
                status_message: None,
                ..*old(self)
            }),
    {
        self.commit_mode = false;
        self.status_message = None;
    }

    pub fn push_commit_char(&mut self, ch: char)
        ensures
            final(self).commit_message@ == old(self).commit_message@.push(ch),
            *final(self) == (GitDialogState {
                commit_message: final(self).commit_message,
                ..*old(self)
            }),
    {
        string_push(&mut self.commit_message, ch);
    }

    pub fn pop_commit_char(&mut self)
        ensures
            final(self).commit_message@ == if old(self).commit_message@.len() > 0 {
                old(self).commit_message@.drop_last()
            } else {
                old(self).commit_message@
            },
            *final(self) == (GitDialogState {
                commit_message: final(self).commit_message,
                ..*old(self)
            }),
    {
        string_pop(&mut self.commit_message);
    }

    pub fn push_commit_str(&mut self, text: &str)
        ensures
            final(self).commit_message@ == old(self).commit_message@ + text@,
            *final(self) == (GitDialogState {
                commit_message: final(self).commit_message,
                ..*old(self)
            }),
    {
        string_push_str(&mut self.commit_message, text);
    }

    /// The message to commit with: the typed message, trimmed. An empty one
    /// is refused, and the refusal shown.
    pub fn commit_request(&mut self) -> (r: Result<String, String>)
        ensures
            trim(old(self).commit_message@).len() > 0 ==> (r matches Ok(m) && m@ == trim(
                old(self).commit_message@,
            ) && final(self).status_message == old(self).status_message),
            trim(old(self).commit_message@).len() == 0 ==> (r matches Err(e) && e@
                == "commit message cannot be empty"@ && final(self).status_message == Some(e)),
            *final(self) == (GitDialogState {
                status_message: final(self).status_message,
                ..*old(self)
            }),
    {
        let msg = trimmed(self.commit_message.as_str());
        if msg.as_str().is_empty() {
            let err = "commit message cannot be empty".to_owned();
            self.status_message = Some(err.clone());
            return Err(err);
        }
        Ok(msg)
    }

    /// Takes the outcome of the commit. On success the message is cleared,
    /// commit mode ends, git's output is shown and returned (the caller then
    /// refreshes the status); a failure is shown and returned.
    pub fn commit(&mut self, result: Result<String, String>) -> (r: Result<String, String>)
        ensures
            r == result,
            match result {
                Ok(output) => {
                    &&& final(self).commit_message@.len() == 0
                    &&& !final(self).commit_mode
                    &&& final(self).status_message == Some(output)
                },
                Err(err) => {
                    &&& final(self).commit_message == old(self).commit_message
                    &&& final(self).commit_mode == old(self).commit_mode
                    &&& final(self).status_message matches Some(m) && m@ == "commit failed: "@
                        + err@
                },
            },
            *final(self) == (GitDialogState {
                commit_message: final(self).commit_message,
                commit_mode: final(self).commit_mode,
                status_message: final(self).status_message,
                ..*old(self)
            }),
    {
        match result {
            Ok(output) => {
                string_clear(&mut self.commit_message);
                self.commit_mode = false;
                self.status_message = Some(output.clone());
                Ok(output)
            },
            Err(err) => {
                let mut m = "commit failed: ".to_owned();
                string_push_str(&mut m, err.as_str());
                self.status_message = Some(m);
                Err(err)
            },
        }
    }
}


// ---------------------------------------------------------------------------
// How the panel shows
// ---------------------------------------------------------------------------

/// How a change is marked in the file list.
#[derive(Debug, Clone, Copy, PartialEq, Eq)]
pub enum GitBadge {
    /// `[S]`: in the index.
    Staged,
    /// `[?]`: not tracked.
    Untracked,
    /// `[U]`: changed in the working tree.
    Unstaged,
}

pub open spec fn git_badge(c: GitFileChange) -> GitBadge {
    if c.staged {
        GitBadge::Staged
    } else if c.status_code@ == "?"@ {
        GitBadge::Untracked
    } else {
        GitBadge::Unstaged
    }
}

/// A row of the file list.
#[derive(Debug, Clone, PartialEq, Eq)]
pub struct GitFileRow {
    pub selected: bool,
    pub badge: GitBadge,
    /// The path, cut at the front to fit.
    pub name: String,
}

/// What the git panel shows.
#[derive(Debug, Clone, PartialEq, Eq)]
pub struct GitPanelView {
    /// The counts after the panel's name.
    pub header: String,
    /// The first change in the file list's window.
    pub file_scroll: usize,
    /// The rows in the window; none when there is no change.
    pub rows: Vec<GitFileRow>,
    /// The title of the diff pane.
    pub diff_title: String,
}

/// How a line of the diff pane is coloured.
#[derive(Debug, Clone, Copy, PartialEq, Eq)]
pub enum DiffLineKind {
    Added,
    Removed,
    Hunk,
    Header,
    Context,
}

/// Number of staged changes.
pub open spec fn staged_count(cs: Seq<GitFileChange>) -> nat
    decreases cs.len(),
{
    if cs.len() == 0 {
        0
    } else {
        staged_count(cs.drop_last()) + if cs.last().staged {
            1nat
        } else {
            0nat
        }
    }
}

/// The header: `" • <s> staged, <u> unstaged (<n> total)"`.
pub open spec fn git_header(cs: Seq<GitFileChange>) -> Seq<char> {
    " • "@ + decimal(staged_count(cs)) + " staged, "@ + decimal((cs.len() - staged_count(cs)) as nat)
        + " unstaged ("@ + decimal(cs.len()) + " total)"@
}

/// The first change shown in a list window of `visible` rows: the window
/// moves only as far as it must to show the highlighted change.
pub open spec fn git_file_scroll(selected: nat, file_scroll: nat, visible: nat) -> nat {
    if selected >= file_scroll + visible {
        capped((sat_sub(selected as int, visible as int) + 1) as int) as nat
    } else if selected < file_scroll {
        selected
    } else {
        file_scroll
    }
}

/// Room for a path in a list `width` cells wide.
pub open spec fn path_room(width: nat) -> nat {
    sat_sub(width as int, 8)
}

/// Where a path too long for the room is cut: it keeps its last `room - 1`
/// bytes after an ellipsis. None when the path fits or the room is three
/// bytes or fewer.
pub open spec fn path_cut(path: Seq<char>, width: nat) -> Option<int> {
    let room = path_room(width);
    if encode_utf8(path).len() > room && room > 3 {
        Some(encode_utf8(path).len() - (room - 1))
    } else {
        None
    }
}

/// `r` is the row of change `c`.
pub open spec fn git_row_ok(r: GitFileRow, c: GitFileChange, selected: bool, width: nat) -> bool {
    &&& r.selected == selected
    &&& r.badge == git_badge(c)
    &&& match path_cut(c.path@, width) {
        Some(k) => encode_utf8(r.name@) == encode_utf8("…"@) + encode_utf8(c.path@).skip(k),
        None => r.name@ == c.path@,
    }
}

/// The title of the diff pane.
pub open spec fn diff_title(d: GitDialogState) -> Seq<char> {
    if d.selected < d.changes@.len() {
        let c = d.changes@[d.selected as int];
        " Diff: "@ + c.path@ + " ("@ + (if c.staged {
            "staged"@
        } else {
            "working"@
        }) + ") "@
    } else {
        " Diff Preview "@
    }
}

/// Every cut in the window falls on a character boundary of its path.
pub open spec fn path_cuts_ok(d: GitDialogState, visible: nat, width: nat) -> bool {
    let start = git_file_scroll(d.selected as nat, d.file_scroll as nat, visible);
    forall|k: int|
        start <= k < start + visible && k < d.changes@.len() ==> match path_cut(
            #[trigger] d.changes@[k].path@,
            width,
        ) {
            Some(c) => is_char_boundary(encode_utf8(d.changes@[k].path@), c),
            None => true,
        }
}

/// How many rows the window of `visible` rows starting at `start` shows of
/// `n` changes.
pub open spec fn rows_shown(n: nat, start: nat, visible: nat) -> nat {
    if start >= n {
        0
    } else if n - start < visible {
        (n - start) as nat
    } else {
        visible
    }
}

/// What the panel shows with a file list `visible` rows high and `width`
/// cells wide.
pub open spec fn git_panel_ok(v: GitPanelView, d: GitDialogState, visible: nat, width: nat) -> bool {
    let start = git_file_scroll(d.selected as nat, d.file_scroll as nat, visible);
    &&& v.header@ == git_header(d.changes@)
    &&& v.file_scroll == start
    &&& v.diff_title@ == diff_title(d)
    &&& v.rows@.len() == rows_shown(d.changes@.len(), start, visible)
    &&& forall|i: int|
        0 <= i < v.rows@.len() ==> git_row_ok(
            #[trigger] v.rows@[i],
            d.changes@[start + i],
            start + i == d.selected,
            width,
        )
}

/// The colour class of a diff line: an added or removed line (not a file
/// header), a hunk header, a `diff`/`index` line, or context.
pub open spec fn diff_line_class(line: Seq<char>) -> DiffLineKind {
    if starts_with(line, "+"@) && !starts_with(line, "+++"@) {
        DiffLineKind::Added
    } else if starts_with(line, "-"@) && !starts_with(line, "---"@) {
        DiffLineKind::Removed
    } else if starts_with(line, "@@"@) {
        DiffLineKind::Hunk
    } else if starts_with(line, "diff "@) || starts_with(line, "index "@) {
        DiffLineKind::Header
    } else {
        DiffLineKind::Context
    }
}

/// How a line of the diff pane is coloured (see [`diff_line_class`]).
pub fn diff_line_kind(line: &str) -> (r: DiffLineKind)
    ensures
        r == diff_line_class(line@),
{
    if str_starts_with(line, "+") && !str_starts_with(line, "+++") {
        DiffLineKind::Added
    } else if str_starts_with(line, "-") && !str_starts_with(line, "---") {
        DiffLineKind::Removed
    } else if str_starts_with(line, "@@") {
        DiffLineKind::Hunk
    } else if str_starts_with(line, "diff ") || str_starts_with(line, "index ") {
        DiffLineKind::Header
    } else {
        DiffLineKind::Context
    }
}

/// The number of staged changes.
fn count_staged(cs: &Vec<GitFileChange>) -> (r: usize)
    ensures
        r == staged_count(cs@),
        r <= cs@.len(),
{
    let mut k: usize = 0;
    let mut i: usize = 0;
    while i < cs.len()
        invariant
            i <= cs@.len(),
            k == staged_count(cs@.take(i as int)),
            k <= i,
        decreases cs@.len() - i,
    {
        proof {
            assert(cs@.take(i + 1).drop_last() =~= cs@.take(i as int));
        }
        if cs[i].staged {
            k = k + 1;
        }
        i = i + 1;
    }
    proof {
        assert(cs@.take(cs@.len() as int) =~= cs@);
    }
    k
}

/// The row of change `c` (see [`git_row_ok`]).
fn git_row(c: &GitFileChange, selected: bool, width: usize) -> (r: GitFileRow)
    requires
        match path_cut(c.path@, width as nat) {
            Some(k) => is_char_boundary(encode_utf8(c.path@), k),
            None => true,
        },
    ensures
        git_row_ok(r, *c, selected, width as nat),
{
    let badge = if c.staged {
        GitBadge::Staged
    } else if str_eq(c.status_code.as_str(), "?") {
        GitBadge::Untracked
    } else {
        GitBadge::Unstaged
    };
    let room = width.saturating_sub(8);
    let p = c.path.as_str();
    let len = p.as_bytes().len();
    assert(p@ == c.path@);
    assert(len == encode_utf8(c.path@).len());
    assert(room == path_room(width as nat));
    let name = if len > room && room > 3 {
        assert(path_cut(c.path@, width as nat) == Some((len - (room - 1)) as int));
        let (_, tail) = p.split_at(len - (room - 1));
        let mut n = "…".to_owned();
        string_push_str(&mut n, tail);
        proof {
            lemma_encode_utf8_concat("…"@, tail@);
        }
        n
    } else {
        c.path.clone()
    };
    GitFileRow { selected, badge, name }
}

/// Whether the cut a list `width` cells wide makes in `path` (see
/// [`path_cut`]) falls on a character boundary.
fn path_cut_fits(path: &str, width: usize) -> (b: bool)
    ensures
        b == (match path_cut(path@, width as nat) {
            Some(k) => is_char_boundary(encode_utf8(path@), k),
            None => true,
        }),
{
    let room = width.saturating_sub(8);
    let len = path.as_bytes().len();
    if len > room && room > 3 {
        path.is_char_boundary(len - (room - 1))
    } else {
        true
    }
}

impl GitDialogState {
    /// Whether the panel can be drawn with a file list `visible_files` rows
    /// high and `list_width` cells wide: every path cut falls on a character
    /// boundary (see [`path_cuts_ok`]).
    pub fn panel_fits(&self, visible_files: usize, list_width: usize) -> (b: bool)
        requires
            self.file_scroll + visible_files <= usize::MAX,
        ensures
            b == path_cuts_ok(*self, visible_files as nat, list_width as nat),
    {
        let start: usize = if self.selected >= self.file_scroll + visible_files {
            self.selected.saturating_sub(visible_files).saturating_add(1)
        } else if self.selected < self.file_scroll {
            self.selected
        } else {
            self.file_scroll
        };
        let total = self.changes.len();
        let mut k: usize = start;
        while k < total && k - start < visible_files
            invariant
                start <= k,
                start == git_file_scroll(self.selected as nat, self.file_scroll as nat, visible_files as nat),
                total == self.changes@.len(),
                forall|j: int|
                    start <= j < k && j < self.changes@.len() ==> match path_cut(
                        #[trigger] self.changes@[j].path@,
                        list_width as nat,
                    ) {
                        Some(c) => is_char_boundary(encode_utf8(self.changes@[j].path@), c),
                        None => true,
                    },
                k - start <= visible_files,
            decreases total - k,
        {
            if !path_cut_fits(self.changes[k].path.as_str(), list_width) {
                assert(!(match path_cut(self.changes@[k as int].path@, list_width as nat) {
                    Some(c) => is_char_boundary(encode_utf8(self.changes@[k as int].path@), c),
                    None => true,
                }));
                assert(start <= k < start + visible_files && k < self.changes@.len());
                assert(!path_cuts_ok(*self, visible_files as nat, list_width as nat));
                return false;
            }
            k = k + 1;
        }
        true
    }
}

impl GitDialogState {
    /// What the panel shows (see [`git_panel_ok`]), with a file list
    /// `visible_files` rows high and `list_width` cells wide.
    pub fn panel_view(&self, visible_files: usize, list_width: usize) -> (r: GitPanelView)
        requires
            self.file_scroll + visible_files <= usize::MAX,
            path_cuts_ok(*self, visible_files as nat, list_width as nat),
        ensures
            git_panel_ok(r, *self, visible_files as nat, list_width as nat),
    {
        let staged = count_staged(&self.changes);
        let total = self.changes.len();
        let mut header = " • ".to_owned();
        push_decimal(&mut header, staged as u64);
        string_push_str(&mut header, " staged, ");
        push_decimal(&mut header, (total - staged) as u64);
        string_push_str(&mut header, " unstaged (");
        push_decimal(&mut header, total as u64);
        string_push_str(&mut header, " total)");
        let start: usize = if self.selected >= self.file_scroll + visible_files {
            self.selected.saturating_sub(visible_files).saturating_add(1)
        } else if self.selected < self.file_scroll {
            self.selected
        } else {
            self.file_scroll
        };
        let diff_title = if self.selected < self.changes.len() {
            let c = &self.changes[self.selected];
            let mut t = " Diff: ".to_owned();
            string_push_str(&mut t, c.path.as_str());
            string_push_str(&mut t, " (");
            string_push_str(&mut t, if c.staged {
                "staged"
            } else {
                "working"
            });
            string_push_str(&mut t, ") ");
            t
        } else {
            " Diff Preview ".to_owned()
        };
        let count: usize = if start >= total {
            0
        } else if total - start < visible_files {
            total - start
        } else {
            visible_files
        };
        let mut rows: Vec<GitFileRow> = Vec::new();
        let mut i: usize = 0;
        while i < count
            invariant
                i <= count,
                count == rows_shown(self.changes@.len(), start as nat, visible_files as nat),
                start == git_file_scroll(self.selected as nat, self.file_scroll as nat, visible_files as nat),
                count == 0 || start + count <= self.changes@.len(),
                total == self.changes@.len(),
                path_cuts_ok(*self, visible_files as nat, list_width as nat),
                rows@.len() == i,
                forall|j: int|
                    0 <= j < i ==> git_row_ok(
                        #[trigger] rows@[j],
                        self.changes@[start + j],
                        start + j == self.selected,
                        list_width as nat,
                    ),
            decreases count - i,
        {
            let idx = start + i;
            let c = &self.changes[idx];
            assert(self.changes@[idx as int].path@ == c.path@);
            let row = git_row(c, idx == self.selected, list_width);
            rows.push(row);
            i = i + 1;
        }
        GitPanelView { header, file_scroll: start, rows, diff_title }
    }
}

} // verus!
