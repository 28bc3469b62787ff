//! The prompt being typed: editing at a cursor, the history of submitted
//! prompts, and the completions offered while a slash command is typed.
use vstd::prelude::*;

use crate::dialogs::common::filter_by;
use crate::dialogs::models::ModelInfo;
use crate::dialogs::themes::ThemeInfo;
use crate::events::Input;
use crate::lines::{strip_prefix, sub_vec, trim_bounds, trimmed, without_prefix};
use crate::search::{lower_contains, lowercase_contains, seq_contains, str_contains, str_eq, str_starts_with};
use crate::strings::{lowercase, string_from_chars, string_push_str, to_lowercase};
use crate::suggestions::{available_commands, command_entry, CommandSuggestion, COMMAND_COUNT};
use crate::text::{chars_of, starts_with, trim, trim_end, trim_start};

verus! {

broadcast use vstd::string::group_string_axioms;

/// Most prompts the history keeps; the oldest go first.
pub const MAX_PROMPT_HISTORY: usize = 100;

/// The prompt, its cursor, the history of submitted prompts and the selected
/// completion. The cursor counts characters.
#[derive(Debug, Clone, PartialEq, Eq)]
pub struct PromptEditor {
    pub prompt: String,
    pub cursor_position: usize,
    pub prompt_history: Vec<String>,
    pub history_index: Option<usize>,
    pub draft_prompt: String,
    pub selected_suggestion: usize,
}

/// `t` inserted into `s` before position `pos`.
pub open spec fn insert_at(s: Seq<char>, pos: int, t: Seq<char>) -> Seq<char> {
    s.take(pos) + t + s.skip(pos)
}

/// Where typing goes: at the cursor, or at the end when the cursor is past it.
pub open spec fn insert_pos(cursor: nat, len: nat) -> int {
    if cursor < len {
        cursor as int
    } else {
        len as int
    }
}

/// The text of each string.
pub open spec fn views(v: Seq<String>) -> Seq<Seq<char>> {
    v.map_values(|s: String| s@)
}

/// What stepping back in the history does (see
/// [`PromptEditor::navigate_history_up`]): from the prompt being typed, which
/// is kept as the draft, to the latest entry, and from an entry to the one
/// before it, stopping at the oldest; nothing with an empty history.
pub open spec fn history_up(before: PromptEditor, after: PromptEditor) -> bool {
    let h = before.prompt_history@;
    if h.len() == 0 {
        after == before
    } else {
        let target: int = match before.history_index {
            None => h.len() - 1,
            Some(idx) => if idx < h.len() - 1 && idx > 0 {
                idx - 1
            } else if idx >= h.len() - 1 && h.len() - 1 > 0 {
                h.len() - 2
            } else {
                0
            },
        };
        &&& after.prompt@ == h[target]@
        &&& after.cursor_position == h[target]@.len()
        &&& after.history_index == Some(target as usize)
        &&& after.prompt_history == before.prompt_history
        &&& after.selected_suggestion == before.selected_suggestion
        &&& after.draft_prompt == if before.history_index is None {
            before.prompt
        } else {
            before.draft_prompt
        }
    }
}

/// What stepping forward in the history does (see
/// [`PromptEditor::navigate_history_down`]): from an entry to the next one,
/// and from the latest entry back to the draft, which is then emptied;
/// nothing when no entry is shown.
pub open spec fn history_down(before: PromptEditor, after: PromptEditor) -> bool {
    let h = before.prompt_history@;
    match before.history_index {
        None => after == before,
        Some(idx) => if idx + 1 < h.len() {
            &&& after.prompt@ == h[idx + 1]@
            &&& after.cursor_position == h[idx + 1]@.len()
            &&& after.history_index == Some((idx + 1) as usize)
            &&& after.draft_prompt == before.draft_prompt
            &&& after.prompt_history == before.prompt_history
            &&& after.selected_suggestion == before.selected_suggestion
        } else {
            &&& after.prompt == before.draft_prompt
            &&& after.cursor_position == before.draft_prompt@.len()
            &&& after.history_index is None
            &&& after.draft_prompt@.len() == 0
            &&& after.prompt_history == before.prompt_history
            &&& after.selected_suggestion == before.selected_suggestion
        },
    }
}

/// What typing `c` does (see [`PromptEditor::type_char`]): it goes in at the
/// cursor (see [`insert_pos`]), the cursor moves past it, no history entry is
/// shown any more and the first completion is selected.
pub open spec fn typed(before: PromptEditor, after: PromptEditor, c: char) -> bool {
    &&& after.prompt@ == insert_at(
        before.prompt@,
        insert_pos(before.cursor_position as nat, before.prompt@.len()),
        seq![c],
    )
    &&& after.cursor_position == before.cursor_position + 1
    &&& after.history_index is None
    &&& after.selected_suggestion == 0
    &&& after.prompt_history == before.prompt_history
    &&& after.draft_prompt == before.draft_prompt
}

/// What deleting back does (see [`PromptEditor::backspace`]): the character
/// before the cursor goes and the cursor moves onto its place, when there is
/// one; no history entry is shown any more and the first completion is
/// selected.
pub open spec fn backspaced(before: PromptEditor, after: PromptEditor) -> bool {
    let c = before.cursor_position;
    &&& if c > 0 && c - 1 < before.prompt@.len() {
        &&& after.prompt@ == before.prompt@.remove(c - 1)
        &&& after.cursor_position == c - 1
    } else {
        &&& after.prompt@ == before.prompt@
        &&& after.cursor_position == c
    }
    &&& after.history_index is None
    &&& after.selected_suggestion == 0
    &&& after.prompt_history == before.prompt_history
    &&& after.draft_prompt == before.draft_prompt
}

/// The cursor moved to `pos`, nothing else changed.
pub open spec fn cursor_moved(before: PromptEditor, after: PromptEditor, pos: int) -> bool {
    &&& after.cursor_position == pos
    &&& after.prompt == before.prompt
    &&& after.prompt_history == before.prompt_history
    &&& after.history_index == before.history_index
    &&& after.draft_prompt == before.draft_prompt
    &&& after.selected_suggestion == before.selected_suggestion
}

/// The selection moved to the next completion, wrapping to the first (the
/// first when none is offered); nothing else changed.
pub open spec fn selection_forward(
    before: PromptEditor,
    after: PromptEditor,
    models: Seq<ModelInfo>,
    themes: Seq<ThemeInfo>,
) -> bool {
    let count = suggestion_total(before.prompt@, models, themes);
    &&& after.selected_suggestion == if count > 0 {
        ((before.selected_suggestion + 1) % (count as int)) as usize
    } else {
        0usize
    }
    &&& after.prompt == before.prompt
    &&& after.cursor_position == before.cursor_position
    &&& after.prompt_history == before.prompt_history
    &&& after.history_index == before.history_index
    &&& after.draft_prompt == before.draft_prompt
}

/// The selection moved to the previous completion, wrapping to the last
/// (also from a selection past the end; the first when none is offered);
/// nothing else changed.
pub open spec fn selection_back(
    before: PromptEditor,
    after: PromptEditor,
    models: Seq<ModelInfo>,
    themes: Seq<ThemeInfo>,
) -> bool {
    let count = suggestion_total(before.prompt@, models, themes);
    let s = before.selected_suggestion;
    &&& after.selected_suggestion == if count > 0 {
        if s == 0 || s >= count {
            (count - 1) as usize
        } else {
            (s - 1) as usize
        }
    } else {
        0usize
    }
    &&& after.prompt == before.prompt
    &&& after.cursor_position == before.cursor_position
    &&& after.prompt_history == before.prompt_history
    &&& after.history_index == before.history_index
    &&& after.draft_prompt == before.draft_prompt
}

/// What completing the prompt does (see
/// [`PromptEditor::autocomplete_selected_command`]); `done` tells whether
/// anything was offered.
pub open spec fn completed(
    before: PromptEditor,
    after: PromptEditor,
    models: Seq<ModelInfo>,
    themes: Seq<ThemeInfo>,
    done: bool,
) -> bool {
    let p = before.prompt@;
    let idx = clamp_selection(before.selected_suggestion as nat, suggestion_total(p, models, themes));
    let ms = model_suggestions(p, models);
    let ts = theme_suggestions(p, themes);
    let cs = command_matches(p);
    &&& if starts_with(p, "/model "@) && ms.len() > 0 {
        &&& done
        &&& after.prompt@ == "/model "@ + ms[pick(idx, ms.len())]
        &&& after.cursor_position == after.prompt@.len()
        &&& after.selected_suggestion == 0
    } else if starts_with(p, "/theme "@) && ts.len() > 0 {
        &&& done
        &&& after.prompt@ == "/theme "@ + ts[pick(idx, ts.len())]
        &&& after.cursor_position == after.prompt@.len()
        &&& after.selected_suggestion == 0
    } else if cs.len() > 0 {
        &&& done
        &&& after.prompt@ == cs[pick(idx, cs.len())].2
        &&& after.cursor_position == after.prompt@.len()
        &&& after.selected_suggestion == 0
    } else {
        &&& !done
        &&& after == before
    }
    &&& after.prompt_history == before.prompt_history
    &&& after.history_index == before.history_index
    &&& after.draft_prompt == before.draft_prompt
}

impl PromptEditor {
    /// An empty prompt with no history.
    pub fn new() -> (e: Self)
        ensures
            e.prompt@.len() == 0,
            e.cursor_position == 0,
            e.prompt_history@.len() == 0,
            e.history_index is None,
            e.draft_prompt@.len() == 0,
            e.selected_suggestion == 0,
    {
        PromptEditor {
            prompt: String::new(),
            cursor_position: 0,
            prompt_history: Vec::new(),
            history_index: None,
            draft_prompt: String::new(),
            selected_suggestion: 0,
        }
    }

    /// The prompt.
    pub fn prompt(&self) -> (r: &str)
        ensures
            r@ == self.prompt@,
    {
        self.prompt.as_str()
    }

    /// The cursor, in characters.
    pub fn cursor_position(&self) -> (r: usize)
        ensures
            r == self.cursor_position,
    {
        self.cursor_position
    }

    /// The submitted prompts, oldest first.
    pub fn prompt_history(&self) -> (r: &[String])
        ensures
            r@ == self.prompt_history@,
    {
        self.prompt_history.as_slice()
    }

    /// Inserts `text` at the cursor (see [`insert_pos`]) and moves the cursor
    /// past it; leaves the history and resets the completion.
    pub fn insert_str_at_cursor(&mut self, text: &str)
        requires
            old(self).cursor_position + text@.len() <= usize::MAX,
        ensures
            final(self).prompt@ == insert_at(
                old(self).prompt@,
                insert_pos(old(self).cursor_position as nat, old(self).prompt@.len()),
                text@,
            ),
            final(self).cursor_position == old(self).cursor_position + text@.len(),
            final(self).history_index is None,
            final(self).selected_suggestion == 0,
            final(self).prompt_history == old(self).prompt_history,
            final(self).draft_prompt == old(self).draft_prompt,
    {
        let v = chars_of(self.prompt.as_str());
        let t = chars_of(text);
        let pos = if self.cursor_position < v.len() {
            self.cursor_position
        } else {
            v.len()
        };
        let head = sub_vec(&v, 0, pos);
        let tail = sub_vec(&v, pos, v.len());
        let mut s = string_from_chars(&head);
        string_push_str(&mut s, text);
        let tail_s = string_from_chars(&tail);
        string_push_str(&mut s, tail_s.as_str());
        assert(v@.take(pos as int) =~= v@.subrange(0, pos as int));
        assert(v@.skip(pos as int) =~= v@.subrange(pos as int, v@.len() as int));
        self.prompt = s;
        self.cursor_position = self.cursor_position + t.len();
        self.history_index = None;
        self.selected_suggestion = 0;
    }

    /// Types one character at the cursor (see [`insert_pos`]) and moves the
    /// cursor past it; leaves the history and resets the completion.
    pub fn type_char(&mut self, c: char)
        requires
            old(self).cursor_position < usize::MAX,
        ensures
            typed(*old(self), *final(self), c),

    {
        let mut one = String::new();
        crate::strings::string_push(&mut one, c);
        assert(one@ =~= seq![c]);
        self.insert_str_at_cursor(one.as_str());
    }

    /// Deletes the character before the cursor and moves the cursor back onto
    /// it, when there is one; leaves the history and resets the completion.
    pub fn backspace(&mut self)
        ensures
            backspaced(*old(self), *final(self)),

    {
        self.history_index = None;
        if self.cursor_position > 0 {
            let prev = self.cursor_position - 1;
            let v = chars_of(self.prompt.as_str());
            if prev < v.len() {
                let head = sub_vec(&v, 0, prev);
                let tail = sub_vec(&v, prev + 1, v.len());
                let mut s = string_from_chars(&head);
                let tail_s = string_from_chars(&tail);
                string_push_str(&mut s, tail_s.as_str());
                assert(s@ =~= v@.remove(prev as int));
                self.prompt = s;
                self.cursor_position = prev;
            }
        }
        self.selected_suggestion = 0;
    }

    /// Moves the cursor one character left, stopping at the start.
    pub fn move_left(&mut self)
        ensures
            cursor_moved(
                *old(self),
                *final(self),
                if old(self).cursor_position > 0 {
                    old(self).cursor_position - 1
                } else {
                    0
                },
            ),

    {
        if self.cursor_position > 0 {
            self.cursor_position = self.cursor_position - 1;
        }
    }

    /// Moves the cursor one character right, stopping at the end.
    pub fn move_right(&mut self)
        ensures
            cursor_moved(
                *old(self),
                *final(self),
                if old(self).cursor_position + 1 < old(self).prompt@.len() {
                    old(self).cursor_position + 1
                } else {
                    old(self).prompt@.len() as int
                },
            ),

    {
        let len = chars_of(self.prompt.as_str()).len();
        if self.cursor_position < len {
            self.cursor_position = self.cursor_position + 1;
        } else {
            self.cursor_position = len;
        }
    }

    /// Moves the cursor to the start of the prompt.
    pub fn move_home(&mut self)
        ensures
            cursor_moved(*old(self), *final(self), 0),

    {
        self.cursor_position = 0;
    }

    /// Moves the cursor to the end of the prompt.
    pub fn move_end(&mut self)
        ensures
            cursor_moved(*old(self), *final(self), old(self).prompt@.len() as int),

    {
        self.cursor_position = chars_of(self.prompt.as_str()).len();
    }

    /// Starts a slash command from the sessions dialog: a `/` is appended to
    /// the prompt, the cursor goes to 1, and no history entry nor completion
    /// is selected.
    pub fn start_slash_command(&mut self)
        ensures
            final(self).prompt@ == old(self).prompt@.push('/'),
            final(self).cursor_position == 1,
            final(self).history_index is None,
            final(self).selected_suggestion == 0,
            final(self).prompt_history == old(self).prompt_history,
            final(self).draft_prompt == old(self).draft_prompt,
    {
        self.history_index = None;
        crate::strings::string_push(&mut self.prompt, '/');
        self.cursor_position = 1;
        self.selected_suggestion = 0;
    }

    /// Loads the skill `name` into the prompt as `/skill <name>`, with the
    /// cursor at the prompt's length in bytes.
    pub fn load_skill(&mut self, name: &str)
        ensures
            final(self).prompt@ == "/skill "@ + name@,
            final(self).cursor_position == crate::utf8::utf8_len(final(self).prompt@),
            final(self).prompt_history == old(self).prompt_history,
            final(self).history_index == old(self).history_index,
            final(self).draft_prompt == old(self).draft_prompt,
            final(self).selected_suggestion == old(self).selected_suggestion,
    {
        let mut p = "/skill ".to_owned();
        string_push_str(&mut p, name);
        self.cursor_position = p.as_str().as_bytes().len();
        self.prompt = p;
    }

    /// Takes the prompt out as the draft of a session switched away from;
    /// the prompt is left empty and nothing else changes.
    pub fn take_draft(&mut self) -> (draft: String)
        ensures
            draft == old(self).prompt,
            final(self).prompt@.len() == 0,
            *final(self) == (PromptEditor { prompt: final(self).prompt, ..*old(self) }),
    {
        let mut draft = String::new();
        std::mem::swap(&mut draft, &mut self.prompt);
        draft
    }

    /// Shows `draft`, the draft of a session switched back to, in the prompt
    /// with the cursor at its end (counted in characters) and the first
    /// completion selected.
    pub fn restore_draft(&mut self, draft: String)
        ensures
            final(self).prompt == draft,
            final(self).cursor_position == draft@.len(),
            final(self).selected_suggestion == 0,
            final(self).prompt_history == old(self).prompt_history,
            final(self).history_index == old(self).history_index,
            final(self).draft_prompt == old(self).draft_prompt,
    {
        self.cursor_position = chars_of(draft.as_str()).len();
        self.prompt = draft;
        self.selected_suggestion = 0;
    }

    /// Shows history entry `i` in the prompt, with the cursor at its end.
    fn show_history(&mut self, i: usize)
        requires
            i < old(self).prompt_history@.len(),
        ensures
            final(self).prompt@ == old(self).prompt_history@[i as int]@,
            final(self).cursor_position == old(self).prompt_history@[i as int]@.len(),
            final(self).history_index == Some(i),
            final(self).prompt_history == old(self).prompt_history,
            final(self).draft_prompt == old(self).draft_prompt,
            final(self).selected_suggestion == old(self).selected_suggestion,
    {
        self.prompt = self.prompt_history[i].clone();
        self.cursor_position = chars_of(self.prompt.as_str()).len();
        self.history_index = Some(i);
    }

    /// Steps back in the history: from the prompt being typed (kept as the
    /// draft) to the latest entry, and from an entry to the one before it,
    /// stopping at the oldest. Nothing happens with an empty history.
    pub fn navigate_history_up(&mut self)
        ensures
            history_up(*old(self), *final(self)),
    {
        let n = self.prompt_history.len();
        if n == 0 {
            return;
        }
        match self.history_index {
            None => {
                self.draft_prompt = self.prompt.clone();
                self.show_history(n - 1);
            },
            Some(idx) => {
                let valid = if idx < n - 1 {
                    idx
                } else {
                    n - 1
                };
                if valid > 0 {
                    self.show_history(valid - 1);
                } else {
                    self.show_history(0);
                }
            },
        }
    }

    /// Steps forward in the history: from an entry to the next one, and from
    /// the latest entry back to the draft (which is then emptied). Nothing
    /// happens when no entry is shown.
    pub fn navigate_history_down(&mut self)
        ensures
            history_down(*old(self), *final(self)),
    {
        if let Some(idx) = self.history_index {
            let n = self.prompt_history.len();
            if n > 0 && idx < n - 1 {
                self.show_history(idx + 1);
            } else {
                self.history_index = None;
                let mut draft = String::new();
                std::mem::swap(&mut draft, &mut self.draft_prompt);
                self.prompt = draft;
                self.cursor_position = chars_of(self.prompt.as_str()).len();
            }
        }
    }

    /// Records a submitted prompt: it is added to the history unless it
    /// repeats the latest entry, dropping the oldest beyond
    /// [`MAX_PROMPT_HISTORY`]; no entry is shown any more and the draft is
    /// emptied.
    pub fn push_history(&mut self, entry: &str)
        ensures
            ({
                let h = old(self).prompt_history@;
                if h.len() > 0 && h.last()@ == entry@ {
                    final(self).prompt_history == old(self).prompt_history
                } else {
                    let grown = views(h).push(entry@);
                    views(final(self).prompt_history@) == if grown.len() > MAX_PROMPT_HISTORY {
                        grown.drop_first()
                    } else {
                        grown
                    }
                }
            }),
            final(self).history_index is None,
            final(self).draft_prompt@.len() == 0,
            final(self).prompt == old(self).prompt,
            final(self).cursor_position == old(self).cursor_position,
            final(self).selected_suggestion == old(self).selected_suggestion,
    {
        let n = self.prompt_history.len();
        let repeat = n > 0 && str_eq(self.prompt_history[n - 1].as_str(), entry);
        if !repeat {
            let ghost before = views(self.prompt_history@);
            self.prompt_history.push(entry.to_owned());
            assert(views(self.prompt_history@) =~= before.push(entry@));
            if self.prompt_history.len() > MAX_PROMPT_HISTORY {
                let ghost grown = views(self.prompt_history@);
                self.prompt_history.remove(0);
                assert(views(self.prompt_history@) =~= grown.drop_first());
            }
        }
        self.history_index = None;
        self.draft_prompt = String::new();
    }
}

// ---------------------------------------------------------------------------
// Completions
// ---------------------------------------------------------------------------

/// `s.trim_start_matches('/')`.
pub open spec fn strip_slashes(s: Seq<char>) -> Seq<char>
    decreases s.len(),
{
    if s.len() > 0 && s[0] == '/' {
        strip_slashes(s.drop_first())
    } else {
        s
    }
}

/// Name, description and template of a slash command.
pub open spec fn command_view(c: CommandSuggestion) -> (Seq<char>, Seq<char>, Seq<char>) {
    (c.name@, c.description@, c.template@)
}

/// The slash commands, in the order they are offered.
pub open spec fn command_views() -> Seq<(Seq<char>, Seq<char>, Seq<char>)> {
    Seq::new(COMMAND_COUNT as nat, |i: int| command_entry(i))
}

/// A command whose name, without its slash, starts with the query.
pub open spec fn starts_query(q: Seq<char>) -> spec_fn((Seq<char>, Seq<char>, Seq<char>)) -> bool {
    |e: (Seq<char>, Seq<char>, Seq<char>)| starts_with(strip_slashes(e.0), q)
}

/// Any other command whose name contains the query.
pub open spec fn contains_query(q: Seq<char>) -> spec_fn((Seq<char>, Seq<char>, Seq<char>)) -> bool {
    |e: (Seq<char>, Seq<char>, Seq<char>)| !starts_with(strip_slashes(e.0), q) && seq_contains(e.0, q)
}

/// The slash commands offered for a prompt that starts with `/`: those whose
/// name starts with what follows the slashes, then those whose name contains
/// it, each in table order. None for any other prompt.
pub open spec fn command_matches(prompt: Seq<char>) -> Seq<(Seq<char>, Seq<char>, Seq<char>)> {
    if !starts_with(prompt, "/"@) {
        Seq::empty()
    } else {
        let q = strip_slashes(prompt);
        filter_by(command_views(), starts_query(q)) + filter_by(command_views(), contains_query(q))
    }
}

/// The lowercased, trimmed argument after a command prefix.
pub open spec fn arg_query(prompt: Seq<char>, prefix: Seq<char>) -> Seq<char> {
    lowercase(trim(strip_prefix(prompt, prefix)))
}

pub open spec fn model_pred(q: Seq<char>) -> spec_fn(ModelInfo) -> bool {
    |m: ModelInfo| q.len() == 0 || lower_contains(m.id@, q)
}

pub open spec fn theme_pred(q: Seq<char>) -> spec_fn(ThemeInfo) -> bool {
    |t: ThemeInfo| q.len() == 0 || lower_contains(t.name@, q) || lower_contains(t.id@, q)
}

/// The model ids offered after `/model `: those containing the typed query,
/// ignoring case (all of them for an empty query).
pub open spec fn model_suggestions(prompt: Seq<char>, models: Seq<ModelInfo>) -> Seq<Seq<char>> {
    if !starts_with(prompt, "/model "@) {
        Seq::empty()
    } else {
        filter_by(models, model_pred(arg_query(prompt, "/model "@))).map_values(
            |m: ModelInfo| m.id@,
        )
    }
}

/// The theme names offered after `/theme `: those whose name or id contains
/// the typed query, ignoring case (all of them for an empty query).
pub open spec fn theme_suggestions(prompt: Seq<char>, themes: Seq<ThemeInfo>) -> Seq<Seq<char>> {
    if !starts_with(prompt, "/theme "@) {
        Seq::empty()
    } else {
        filter_by(themes, theme_pred(arg_query(prompt, "/theme "@))).map_values(
            |t: ThemeInfo| t.name@,
        )
    }
}

/// How many completions the prompt offers: models after `/model `, themes
/// after `/theme `, slash commands otherwise.
pub open spec fn suggestion_total(prompt: Seq<char>, models: Seq<ModelInfo>, themes: Seq<ThemeInfo>) -> nat {
    if starts_with(prompt, "/model "@) {
        model_suggestions(prompt, models).len()
    } else if starts_with(prompt, "/theme "@) {
        theme_suggestions(prompt, themes).len()
    } else {
        command_matches(prompt).len()
    }
}

/// The selected completion, kept within the `count` offered.
pub open spec fn clamp_selection(selected: nat, count: nat) -> nat {
    if count == 0 {
        0
    } else if selected < count - 1 {
        selected
    } else {
        (count - 1) as nat
    }
}

/// The completion taken: the selected one when there is such, else the first.
pub open spec fn pick(idx: nat, len: nat) -> int {
    if idx < len {
        idx as int
    } else {
        0
    }
}

fn strip_slashes_of(s: &str) -> (r: String)
    ensures
        r@ == strip_slashes(s@),
{
    let v = chars_of(s);
    let mut i: usize = 0;
    assert(v@.skip(0) =~= v@);
    while i < v.len() && v[i] == '/'
        invariant
            i <= v@.len(),
            strip_slashes(v@) == strip_slashes(v@.skip(i as int)),
            v@ == s@,
        decreases v@.len() - i,
    {
        assert(v@.skip(i as int).drop_first() =~= v@.skip(i as int + 1));
        i = i + 1;
    }
    let rest = sub_vec(&v, i, v.len());
    assert(rest@ =~= v@.skip(i as int));
    string_from_chars(&rest)
}

fn arg_query_of(prompt: &str, prefix: &str) -> (r: String)
    ensures
        r@ == arg_query(prompt@, prefix@),
{
    let rest = without_prefix(prompt, prefix);
    let t = trimmed(rest.as_str());
    to_lowercase(t.as_str())
}

impl PromptEditor {
    /// The slash commands offered for the prompt (see [`command_matches`]).
    pub fn matching_suggestions(&self) -> (r: Vec<CommandSuggestion>)
        ensures
            r@.map_values(|c: CommandSuggestion| command_view(c)) == command_matches(self.prompt@),
    {
        let mut exact: Vec<CommandSuggestion> = Vec::new();
        if !str_starts_with(self.prompt.as_str(), "/") {
            assert(exact@.map_values(|c: CommandSuggestion| command_view(c)) =~= Seq::<
                (Seq<char>, Seq<char>, Seq<char>),
            >::empty());
            return exact;
        }
        let q = strip_slashes_of(self.prompt.as_str());
        let cmds = available_commands();
        let ghost table = command_views();
        assert(cmds@.map_values(|c: CommandSuggestion| command_view(c)) =~= table);
        let mut other: Vec<CommandSuggestion> = Vec::new();
        let mut i: usize = 0;
        while i < cmds.len()
            invariant
                i <= cmds@.len(),
                cmds@.len() == COMMAND_COUNT,
                cmds@.map_values(|c: CommandSuggestion| command_view(c)) == table,
                table == command_views(),
                q@ == strip_slashes(self.prompt@),
                exact@.map_values(|c: CommandSuggestion| command_view(c)) == filter_by(
                    table.take(i as int),
                    starts_query(q@),
                ),
                other@.map_values(|c: CommandSuggestion| command_view(c)) == filter_by(
                    table.take(i as int),
                    contains_query(q@),
                ),
            decreases cmds@.len() - i,
        {
            let c = cmds[i];
            assert(table[i as int] == command_view(c));
            proof {
                crate::dialogs::common::lemma_filter_by_step(table, starts_query(q@), i as int);
                crate::dialogs::common::lemma_filter_by_step(table, contains_query(q@), i as int);
            }
            let name_rest = strip_slashes_of(c.name);
            let ghost ev = exact@.map_values(|c: CommandSuggestion| command_view(c));
            let ghost ov = other@.map_values(|c: CommandSuggestion| command_view(c));
            if str_starts_with(name_rest.as_str(), q.as_str()) {
                exact.push(c);
                assert(exact@.map_values(|c: CommandSuggestion| command_view(c)) =~= ev.push(
                    command_view(c),
                ));
            } else if str_contains(c.name, q.as_str()) {
                other.push(c);
                assert(other@.map_values(|c: CommandSuggestion| command_view(c)) =~= ov.push(
                    command_view(c),
                ));
            }
            i = i + 1;
        }
        assert(table.take(COMMAND_COUNT as int) =~= table);
        let ghost ev = exact@.map_values(|c: CommandSuggestion| command_view(c));
        let ghost ov = other@.map_values(|c: CommandSuggestion| command_view(c));
        let mut j: usize = 0;
        while j < other.len()
            invariant
                j <= other@.len(),
                exact@.map_values(|c: CommandSuggestion| command_view(c)) == ev + ov.take(j as int),
                ov == other@.map_values(|c: CommandSuggestion| command_view(c)),
            decreases other@.len() - j,
        {
            let ghost before = exact@.map_values(|c: CommandSuggestion| command_view(c));
            exact.push(other[j]);
            assert(exact@.map_values(|c: CommandSuggestion| command_view(c)) =~= before.push(
                command_view(other@[j as int]),
            ));
            assert(ov.take(j as int + 1) =~= ov.take(j as int).push(ov[j as int]));
            j = j + 1;
        }
        assert(ov.take(other@.len() as int) =~= ov);
        exact
    }

    /// The model ids offered after `/model ` (see [`model_suggestions`]).
    pub fn matching_model_suggestions(&self, models: &[ModelInfo]) -> (r: Vec<String>)
        ensures
            views(r@) == model_suggestions(self.prompt@, models@),
    {
        let mut out: Vec<String> = Vec::new();
        if !str_starts_with(self.prompt.as_str(), "/model ") {
            assert(views(out@) =~= Seq::<Seq<char>>::empty());
            return out;
        }
        let q = arg_query_of(self.prompt.as_str(), "/model ");
        let ghost p = model_pred(q@);
        let mut i: usize = 0;
        while i < models.len()
            invariant
                i <= models@.len(),
                p == model_pred(q@),
                views(out@) == filter_by(models@.take(i as int), p).map_values(
                    |m: ModelInfo| m.id@,
                ),
            decreases models@.len() - i,
        {
            proof {
                crate::dialogs::common::lemma_filter_by_step(models@, p, i as int);
            }
            let m = &models[i];
            let hit = q.as_str().is_empty() || lowercase_contains(m.id.as_str(), q.as_str());
            if hit {
                let ghost before = views(out@);
                let ghost fb = filter_by(models@.take(i as int), p);
                out.push(m.id.clone());
                assert(views(out@) =~= before.push(m.id@));
                assert(fb.push(*m).map_values(|m: ModelInfo| m.id@) =~= fb.map_values(
                    |m: ModelInfo| m.id@,
                ).push(m.id@));
            }
            i = i + 1;
        }
        assert(models@.take(models@.len() as int) =~= models@);
        out
    }

    /// The theme names offered after `/theme ` (see [`theme_suggestions`]).
    pub fn matching_theme_suggestions(&self, themes: &[ThemeInfo]) -> (r: Vec<String>)
        ensures
            views(r@) == theme_suggestions(self.prompt@, themes@),
    {
        let mut out: Vec<String> = Vec::new();
        if !str_starts_with(self.prompt.as_str(), "/theme ") {
            assert(views(out@) =~= Seq::<Seq<char>>::empty());
            return out;
        }
        let q = arg_query_of(self.prompt.as_str(), "/theme ");
        let ghost p = theme_pred(q@);
        let mut i: usize = 0;
        while i < themes.len()
            invariant
                i <= themes@.len(),
                p == theme_pred(q@),
                views(out@) == filter_by(themes@.take(i as int), p).map_values(
                    |t: ThemeInfo| t.name@,
                ),
            decreases themes@.len() - i,
        {
            proof {
                crate::dialogs::common::lemma_filter_by_step(themes@, p, i as int);
            }
            let t = &themes[i];
            let hit = q.as_str().is_empty() || lowercase_contains(t.name.as_str(), q.as_str())
                || lowercase_contains(t.id.as_str(), q.as_str());
            if hit {
                let ghost before = views(out@);
                let ghost fb = filter_by(themes@.take(i as int), p);
                out.push(t.name.clone());
                assert(views(out@) =~= before.push(t.name@));
                assert(fb.push(*t).map_values(|t: ThemeInfo| t.name@) =~= fb.map_values(
                    |t: ThemeInfo| t.name@,
                ).push(t.name@));
            }
            i = i + 1;
        }
        assert(themes@.take(themes@.len() as int) =~= themes@);
        out
    }

    /// How many completions the prompt offers (see [`suggestion_total`]).
    pub fn suggestion_count(&self, models: &[ModelInfo], themes: &[ThemeInfo]) -> (n: usize)
        ensures
            n == suggestion_total(self.prompt@, models@, themes@),
    {
        if str_starts_with(self.prompt.as_str(), "/model ") {
            self.matching_model_suggestions(models).len()
        } else if str_starts_with(self.prompt.as_str(), "/theme ") {
            self.matching_theme_suggestions(themes).len()
        } else {
            self.matching_suggestions().len()
        }
    }

    /// The selected completion, kept within those offered (see
    /// [`clamp_selection`]).
    pub fn selected_suggestion_index(&self, models: &[ModelInfo], themes: &[ThemeInfo]) -> (n: usize)
        ensures
            n == clamp_selection(
                self.selected_suggestion as nat,
                suggestion_total(self.prompt@, models@, themes@),
            ),
    {
        let count = self.suggestion_count(models, themes);
        if count == 0 {
            0
        } else if self.selected_suggestion < count - 1 {
            self.selected_suggestion
        } else {
            count - 1
        }
    }

    /// Selects the next completion, wrapping to the first; the first when
    /// none is offered.
    pub fn next_suggestion(&mut self, models: &[ModelInfo], themes: &[ThemeInfo])
        ensures
            selection_forward(*old(self), *final(self), models@, themes@),

    {
        let count = self.suggestion_count(models, themes);
        if count > 0 {
            let s = self.selected_suggestion;
            proof {
                vstd::arithmetic::div_mod::lemma_add_mod_noop_right(1, s as int, count as int);
            }
            self.selected_suggestion = (s % count + 1) % count;
        } else {
            self.selected_suggestion = 0;
        }
    }

    /// Selects the previous completion, wrapping to the last (also from a
    /// selection past the end); the first when none is offered.
    pub fn previous_suggestion(&mut self, models: &[ModelInfo], themes: &[ThemeInfo])
        ensures
            selection_back(*old(self), *final(self), models@, themes@),

    {
        let count = self.suggestion_count(models, themes);
        if count > 0 {
            let s = self.selected_suggestion;
            self.selected_suggestion = if s == 0 || s >= count {
                count - 1
            } else {
                s - 1
            };
        } else {
            self.selected_suggestion = 0;
        }
    }

    fn take_completion(&mut self, prefix: &str, choice: &str)
        ensures
            final(self).prompt@ == prefix@ + choice@,
            final(self).cursor_position == prefix@.len() + choice@.len(),
            final(self).selected_suggestion == 0,
            final(self).prompt_history == old(self).prompt_history,
            final(self).history_index == old(self).history_index,
            final(self).draft_prompt == old(self).draft_prompt,
    {
        let mut p = prefix.to_owned();
        string_push_str(&mut p, choice);
        self.cursor_position = chars_of(p.as_str()).len();
        self.prompt = p;
        self.selected_suggestion = 0;
    }

    /// Completes the prompt with the selected completion (see [`pick`]): the
    /// model id after `/model `, the theme name after `/theme `, or the
    /// template of a slash command; the cursor goes to the end and the
    /// selection back to the first. Returns whether anything was offered;
    /// with nothing, the prompt stays as it is.
    pub fn autocomplete_selected_command(&mut self, models: &[ModelInfo], themes: &[ThemeInfo]) -> (done: bool)
        ensures
            completed(*old(self), *final(self), models@, themes@, done),

    {
        let idx = self.selected_suggestion_index(models, themes);
        if str_starts_with(self.prompt.as_str(), "/model ") {
            let ms = self.matching_model_suggestions(models);
            if ms.len() > 0 {
                let k = if idx < ms.len() {
                    idx
                } else {
                    0
                };
                assert(views(ms@)[k as int] == ms@[k as int]@);
                let choice = ms[k].clone();
                self.take_completion("/model ", choice.as_str());
                return true;
            }
        }
        if str_starts_with(self.prompt.as_str(), "/theme ") {
            let ts = self.matching_theme_suggestions(themes);
            if ts.len() > 0 {
                let k = if idx < ts.len() {
                    idx
                } else {
                    0
                };
                assert(views(ts@)[k as int] == ts@[k as int]@);
                let choice = ts[k].clone();
                self.take_completion("/theme ", choice.as_str());
                return true;
            }
        }
        let cs = self.matching_suggestions();
        if cs.len() > 0 {
            let k = if idx < cs.len() {
                idx
            } else {
                0
            };
            let c = cs[k];
            assert(cs@.map_values(|c: CommandSuggestion| command_view(c))[k as int] == command_view(c));
            self.take_completion("", c.template);
            proof {
                reveal_strlit("");
            }
            true
        } else {
            false
        }
    }
}

// ---------------------------------------------------------------------------
// Submitting the prompt
// ---------------------------------------------------------------------------

/// What submitting the prompt gives.
#[derive(Debug, Clone, PartialEq, Eq)]
pub enum Submission {
    /// Only whitespace was typed.
    Empty,
    /// A command that takes an argument was submitted without it: the prompt
    /// now holds the command's template, and the text says how to use it.
    Usage(String),
    /// The text to act on: a slash command or a message.
    Submit(String),
}

/// A [`Submission`] as a mathematical value.
pub enum SubmissionView {
    Empty,
    Usage(Seq<char>),
    Submit(Seq<char>),
}

impl View for Submission {
    type V = SubmissionView;

    open spec fn view(&self) -> SubmissionView {
        match self {
            Submission::Empty => SubmissionView::Empty,
            Submission::Usage(t) => SubmissionView::Usage(t@),
            Submission::Submit(t) => SubmissionView::Submit(t@),
        }
    }
}

/// The slash command that submitting completes to: among the commands that
/// match the prompt, the selected one when there is such, else the first.
pub open spec fn submit_target(
    p: Seq<char>,
    models: Seq<ModelInfo>,
    themes: Seq<ThemeInfo>,
    selected: nat,
) -> Option<(Seq<char>, Seq<char>, Seq<char>)> {
    let cs = command_matches(p);
    if cs.len() > 0 {
        Some(cs[pick(clamp_selection(selected, suggestion_total(p, models, themes)), cs.len())])
    } else {
        None
    }
}

/// The submitted text: a slash command without the whitespace around it (a
/// `/theme ` or `/model ` command keeps what follows it as typed), other
/// text trimmed.
pub open spec fn submitted_text(p: Seq<char>) -> Seq<char> {
    let ts = trim_start(p);
    if starts_with(ts, "/"@) {
        if starts_with(ts, "/theme "@) || starts_with(ts, "/model "@) {
            ts
        } else {
            trim_end(ts)
        }
    } else {
        trim(p)
    }
}

/// How a command whose template ends in a space is used.
pub open spec fn usage_text(c: (Seq<char>, Seq<char>, Seq<char>)) -> Seq<char> {
    "usage: "@ + c.2 + if c.0 == "/theme"@ {
        "<name>"@
    } else {
        "<title>"@
    }
}

/// What submitting the prompt `p` gives: nothing for whitespace; for a slash
/// command with a completion (see [`submit_target`]) whose template ends in a
/// space, its usage unless the text starts with the template; for one whose
/// template does not, the template; otherwise the submitted text.
pub open spec fn submission_of(
    p: Seq<char>,
    models: Seq<ModelInfo>,
    themes: Seq<ThemeInfo>,
    selected: nat,
) -> SubmissionView {
    let t = submitted_text(p);
    if trim_start(p).len() == 0 {
        SubmissionView::Empty
    } else if starts_with(t, "/"@) && submit_target(p, models, themes, selected) is Some {
        let c = submit_target(p, models, themes, selected)->0;
        if c.2.len() > 0 && c.2.last() == ' ' {
            if !starts_with(t, c.2) {
                SubmissionView::Usage(usage_text(c))
            } else {
                SubmissionView::Submit(t)
            }
        } else {
            SubmissionView::Submit(c.2)
        }
    } else {
        SubmissionView::Submit(t)
    }
}

/// The history once `entry` is recorded (see [`PromptEditor::push_history`]).
pub open spec fn history_after(h: Seq<Seq<char>>, entry: Seq<char>) -> Seq<Seq<char>> {
    if h.len() > 0 && h.last() == entry {
        h
    } else if h.len() + 1 > MAX_PROMPT_HISTORY {
        h.push(entry).drop_first()
    } else {
        h.push(entry)
    }
}

impl PromptEditor {
    /// Submits the prompt (see [`submission_of`]). The selection goes back to
    /// the first completion. On a usage note the prompt holds the template
    /// with the cursor at its end; otherwise the prompt is emptied with the
    /// cursor at the start, and submitted text is recorded in the history.
    pub fn take_submission(&mut self, models: &[ModelInfo], themes: &[ThemeInfo]) -> (r: Submission)
        ensures
            r@ == submission_of(
                old(self).prompt@,
                models@,
                themes@,
                old(self).selected_suggestion as nat,
            ),
            final(self).selected_suggestion == 0,
            match r@ {
                SubmissionView::Empty => {
                    &&& final(self).prompt@.len() == 0
                    &&& final(self).cursor_position == 0
                    &&& final(self).prompt_history == old(self).prompt_history
                    &&& final(self).history_index == old(self).history_index
                    &&& final(self).draft_prompt == old(self).draft_prompt
                },
                SubmissionView::Usage(_) => {
                    let c = submit_target(
                        old(self).prompt@,
                        models@,
                        themes@,
                        old(self).selected_suggestion as nat,
                    )->0;
                    &&& final(self).prompt@ == c.2
                    &&& final(self).cursor_position == c.2.len()
                    &&& final(self).prompt_history == old(self).prompt_history
                    &&& final(self).history_index == old(self).history_index
                    &&& final(self).draft_prompt == old(self).draft_prompt
                },
                SubmissionView::Submit(t) => {
                    &&& final(self).prompt@.len() == 0
                    &&& final(self).cursor_position == 0
                    &&& views(final(self).prompt_history@) == history_after(
                        views(old(self).prompt_history@),
                        t,
                    )
                    &&& final(self).history_index is None
                    &&& final(self).draft_prompt@.len() == 0
                },
            },
    {
        let ghost p = self.prompt@;
        let ghost sel = self.selected_suggestion as nat;
        let cs = self.matching_suggestions();
        let idx = self.selected_suggestion_index(models, themes);
        let target: Option<CommandSuggestion> = if cs.len() > 0 {
            let k = if idx < cs.len() {
                idx
            } else {
                0
            };
            assert(cs@.map_values(|c: CommandSuggestion| command_view(c))[k as int] == command_view(
                cs@[k as int],
            ));
            Some(cs[k])
        } else {
            None
        };
        self.selected_suggestion = 0;
        self.cursor_position = 0;
        let mut input = String::new();
        std::mem::swap(&mut input, &mut self.prompt);
        let v = chars_of(input.as_str());
        let (a, b) = trim_bounds(&v, 0, v.len());
        assert(v@.subrange(0, v@.len() as int) =~= v@);
        if a == v.len() {
            return Submission::Empty;
        }
        let ts_v = sub_vec(&v, a, v.len());
        let ts = string_from_chars(&ts_v);
        proof {
            reveal_strlit("/");
        }
        let is_slash = v[a] == '/';
        assert("/"@ =~= seq!['/']);
        assert(ts@.take(1) =~= seq![v@[a as int]]);
        assert(starts_with(ts@, "/"@) ==> ts@.take(1)[0] == '/');
        assert(is_slash == starts_with(ts@, "/"@));
        let keep_tail = is_slash && (str_starts_with(ts.as_str(), "/theme ") || str_starts_with(
            ts.as_str(),
            "/model ",
        ));
        let t = if keep_tail {
            ts
        } else {
            let tv = sub_vec(&v, a, b);
            proof {
                assert(trim_end(trim_start(p)) == trim(p));
            }
            string_from_chars(&tv)
        };
        assert(t@ == submitted_text(p));
        let t_slash = str_starts_with(t.as_str(), "/");
        let text = match target {
            Some(c) if t_slash => {
                let tpl = chars_of(c.template);
                let ends_space = tpl.len() > 0 && tpl[tpl.len() - 1] == ' ';
                if ends_space {
                    if !str_starts_with(t.as_str(), c.template) {
                        let mut note = "usage: ".to_owned();
                        string_push_str(&mut note, c.template);
                        string_push_str(
                            &mut note,
                            if str_eq(c.name, "/theme") {
                                "<name>"
                            } else {
                                "<title>"
                            },
                        );
                        self.prompt = c.template.to_owned();
                        self.cursor_position = tpl.len();
                        return Submission::Usage(note);
                    }
                    t
                } else {
                    c.template.to_owned()
                }
            },
            _ => t,
        };
        self.push_history(text.as_str());
        proof {
            let h = views(old(self).prompt_history@);
            if h.len() > 0 && h.last() == text@ {
                assert(old(self).prompt_history@.last()@ == text@);
            }
        }
        Submission::Submit(text)
    }
}

/// What a click on a completion in the popup did.
#[derive(Debug, Clone, Copy, PartialEq, Eq, Structural)]
pub enum ClickChoice {
    /// No completion is there.
    Nothing,
    /// The prompt now holds the completed command, to be submitted.
    Submit,
    /// The prompt now holds a command that still needs its argument.
    Filled,
}

impl PromptEditor {
    /// Takes the completion at `item` of those offered: a model id after
    /// `/model ` or a theme name after `/theme ` (when such are offered)
    /// completes the prompt to submit; a slash command's template replaces
    /// the prompt, to submit unless it ends in a space, in which case the
    /// cursor goes to its end and the selection back to the first. With no
    /// completion at `item`, nothing changes.
    pub fn click_suggestion(&mut self, item: usize, models: &[ModelInfo], themes: &[ThemeInfo]) -> (r: ClickChoice)
        ensures
            ({
                let p = old(self).prompt@;
                let ms = model_suggestions(p, models@);
                let ts = theme_suggestions(p, themes@);
                let cs = command_matches(p);
                if starts_with(p, "/model "@) && ms.len() > 0 {
                    if item < ms.len() {
                        &&& r == ClickChoice::Submit
                        &&& final(self).prompt@ == "/model "@ + ms[item as int]
                        &&& final(self).cursor_position == old(self).cursor_position
                        &&& final(self).selected_suggestion == old(self).selected_suggestion
                    } else {
                        r == ClickChoice::Nothing && *final(self) == *old(self)
                    }
                } else if starts_with(p, "/theme "@) && ts.len() > 0 {
                    if item < ts.len() {
                        &&& r == ClickChoice::Submit
                        &&& final(self).prompt@ == "/theme "@ + ts[item as int]
                        &&& final(self).cursor_position == old(self).cursor_position
                        &&& final(self).selected_suggestion == old(self).selected_suggestion
                    } else {
                        r == ClickChoice::Nothing && *final(self) == *old(self)
                    }
                } else if item < cs.len() {
                    let tpl = cs[item as int].2;
                    &&& final(self).prompt@ == tpl
                    &&& if tpl.len() > 0 && tpl.last() == ' ' {
                        &&& r == ClickChoice::Filled
                        &&& final(self).cursor_position == tpl.len()
                        &&& final(self).selected_suggestion == 0
                    } else {
                        &&& r == ClickChoice::Submit
                        &&& final(self).cursor_position == old(self).cursor_position
                        &&& final(self).selected_suggestion == old(self).selected_suggestion
                    }
                } else {
                    r == ClickChoice::Nothing && *final(self) == *old(self)
                }
            }),
            final(self).prompt_history == old(self).prompt_history,
            final(self).history_index == old(self).history_index,
            final(self).draft_prompt == old(self).draft_prompt,
    {
        if str_starts_with(self.prompt.as_str(), "/model ") {
            let ms = self.matching_model_suggestions(models);
            if ms.len() > 0 {
                if item < ms.len() {
                    assert(views(ms@)[item as int] == ms@[item as int]@);
                    let mut p = "/model ".to_owned();
                    string_push_str(&mut p, ms[item].as_str());
                    self.prompt = p;
                    return ClickChoice::Submit;
                }
                return ClickChoice::Nothing;
            }
        }
        if str_starts_with(self.prompt.as_str(), "/theme ") {
            let ts = self.matching_theme_suggestions(themes);
            if ts.len() > 0 {
                if item < ts.len() {
                    assert(views(ts@)[item as int] == ts@[item as int]@);
                    let mut p = "/theme ".to_owned();
                    string_push_str(&mut p, ts[item].as_str());
                    self.prompt = p;
                    return ClickChoice::Submit;
                }
                return ClickChoice::Nothing;
            }
        }
        let cs = self.matching_suggestions();
        if item < cs.len() {
            let c = cs[item];
            assert(cs@.map_values(|c: CommandSuggestion| command_view(c))[item as int] == command_view(c));
            let tpl = chars_of(c.template);
            self.prompt = c.template.to_owned();
            if tpl.len() > 0 && tpl[tpl.len() - 1] == ' ' {
                self.cursor_position = tpl.len();
                self.selected_suggestion = 0;
                return ClickChoice::Filled;
            }
            return ClickChoice::Submit;
        }
        ClickChoice::Nothing
    }
}

/// What a key did to the prompt.
#[derive(Debug, Clone, Copy, PartialEq, Eq, Structural)]
pub enum KeyOutcome {
    /// The key edited the prompt, moved its cursor or its selection.
    Edited,
    /// The cursor went to the start; the transcript scrolls to its top.
    ScrolledToTop,
    /// The cursor went to the end; the transcript scrolls to its bottom.
    ScrolledToBottom,
    /// Nothing to complete: the key switches the conversation mode.
    ToggleMode,
    /// The key is not one the prompt handles; nothing changed.
    Passed,
}

/// Whether the prompt offers something to complete: a slash command that
/// matches, or an argument after `/model ` or `/theme `.
pub open spec fn offers_completion(p: Seq<char>) -> bool {
    command_matches(p).len() > 0 || starts_with(p, "/model "@) || starts_with(p, "/theme "@)
}

impl PromptEditor {
    /// Handles a key for the prompt: characters are typed, backspace
    /// deletes, up and down move the completion selection (or step through
    /// the history when nothing is offered), left and right move the cursor,
    /// home and end move it to the start or end (scrolling the transcript),
    /// and tab completes what is offered (else it switches the mode). Other
    /// keys pass through untouched.
    pub fn handle_edit_key(&mut self, input: Input, models: &[ModelInfo], themes: &[ThemeInfo]) -> (r: KeyOutcome)
        requires
            input is Character ==> old(self).cursor_position < usize::MAX,
        ensures
            match input {
                Input::Character(c) => r == KeyOutcome::Edited && typed(*old(self), *final(self), c),
                Input::Backspace => r == KeyOutcome::Edited && backspaced(*old(self), *final(self)),
                Input::Up => r == KeyOutcome::Edited && if suggestion_total(
                    old(self).prompt@,
                    models@,
                    themes@,
                ) > 0 {
                    selection_back(*old(self), *final(self), models@, themes@)
                } else {
                    history_up(*old(self), *final(self))
                },
                Input::Down => r == KeyOutcome::Edited && if suggestion_total(
                    old(self).prompt@,
                    models@,
                    themes@,
                ) > 0 {
                    selection_forward(*old(self), *final(self), models@, themes@)
                } else {
                    history_down(*old(self), *final(self))
                },
                Input::Left => r == KeyOutcome::Edited && cursor_moved(
                    *old(self),
                    *final(self),
                    if old(self).cursor_position > 0 {
                        old(self).cursor_position - 1
                    } else {
                        0
                    },
                ),
                Input::Right => r == KeyOutcome::Edited && cursor_moved(
                    *old(self),
                    *final(self),
                    if old(self).cursor_position + 1 < old(self).prompt@.len() {
                        old(self).cursor_position + 1
                    } else {
                        old(self).prompt@.len() as int
                    },
                ),
                Input::Home => r == KeyOutcome::ScrolledToTop && cursor_moved(*old(self), *final(self), 0),
                Input::End => r == KeyOutcome::ScrolledToBottom && cursor_moved(
                    *old(self),
                    *final(self),
                    old(self).prompt@.len() as int,
                ),
                Input::ToggleMode => if offers_completion(old(self).prompt@) {
                    r == KeyOutcome::Edited && exists|done: bool|
                        completed(*old(self), *final(self), models@, themes@, done)
                } else {
                    r == KeyOutcome::ToggleMode && *final(self) == *old(self)
                },
                _ => r == KeyOutcome::Passed && *final(self) == *old(self),
            },
    {
        match input {
            Input::Character(c) => {
                self.type_char(c);
                KeyOutcome::Edited
            },
            Input::Backspace => {
                self.backspace();
                KeyOutcome::Edited
            },
            Input::Up => {
                if self.suggestion_count(models, themes) > 0 {
                    self.previous_suggestion(models, themes);
                } else {
                    self.navigate_history_up();
                }
                KeyOutcome::Edited
            },
            Input::Down => {
                if self.suggestion_count(models, themes) > 0 {
                    self.next_suggestion(models, themes);
                } else {
                    self.navigate_history_down();
                }
                KeyOutcome::Edited
            },
            Input::Left => {
                self.move_left();
                KeyOutcome::Edited
            },
            Input::Right => {
                self.move_right();
                KeyOutcome::Edited
            },
            Input::Home => {
                self.move_home();
                KeyOutcome::ScrolledToTop
            },
            Input::End => {
                self.move_end();
                KeyOutcome::ScrolledToBottom
            },
            Input::ToggleMode => {
                let offers = self.matching_suggestions().len() > 0 || str_starts_with(
                    self.prompt.as_str(),
                    "/model ",
                ) || str_starts_with(self.prompt.as_str(), "/theme ");
                if offers {
                    let _done = self.autocomplete_selected_command(models, themes);
                    KeyOutcome::Edited
                } else {
                    KeyOutcome::ToggleMode
                }
            },
            _ => KeyOutcome::Passed,
        }
    }
}

} // verus!
