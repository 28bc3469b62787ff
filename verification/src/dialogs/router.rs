//! The open dialogs taking the user's input: which dialog an event goes to,
//! what it does there, and what follows for the rest of the interface.
use vstd::prelude::*;

use super::agents::{visible_agents, AgentsDialogState};
use super::git::{GitDialogState, StageRequest};
use super::permission::{decision_at, PermissionDecision, PermissionDialogState};
use super::question::QuestionDialogState;
use super::status::StatusDialogState;
use super::which_key::WhichKeyState;
use super::common::{cycle_next, cycle_next_or_reset, cycle_prev_or_reset, filter_by, step_back};
use super::models::{visible_models, ModelsDialogState};
use super::sessions::{clamp_selection, session_lacks_id, visible_sessions, SessionsDialogState};
use super::skills::{visible_skills, SkillsDialogState};
use super::themes::{visible_themes, ThemesDialogState};
use crate::commands::{provider_model_split, split_provider_model, ConversationMode};
use crate::events::{Input, UiEvent};
use crate::lines::lines;
use crate::numfmt::{i64_to_decimal, signed_decimal};
use crate::strings::string_push_str;
use crate::text::{bounded, bounded_text, trim};
use crate::tool_rows::MAX_IDENTITY_BYTES;

verus! {

broadcast use vstd::string::group_string_axioms;

/// What follows from an event once the dialogs have had it.
#[derive(Debug, PartialEq, Eq)]
pub enum DialogOutcome {
    /// No dialog is open: the event is the prompt's.
    NotHandled,
    /// A dialog took the event; nothing else follows.
    Handled,
    /// Streamed text that arrived while a dialog is open, for the transcript.
    Stream(String),
    /// The agent picker closed on an agent: switch to its mode.
    AgentChosen { mode: ConversationMode, name: String },
    /// The theme picker closed on a theme.
    ThemeChosen { id: String, name: String },
    /// The model picker closed on a model: `provider` (when the id names a
    /// known one) and `model` are what the conversation uses from now on,
    /// bounded in length.
    ModelChosen { id: String, provider: Option<String>, model: String },
    /// The sessions dialog closed without a choice; its listing goes too.
    SessionsClosed,
    /// `/` typed into the empty filter of the sessions dialog: it closes, and
    /// a slash command starts in the prompt.
    StartCommand,
    /// A session is deleted (the dialog no longer lists it).
    DeleteSession { id: i64, title: String },
    /// The sessions dialog closed on a session: switch to it.
    SwitchSession { id: i64, title: String },
    /// The skills dialog closed on a skill: the prompt loads it.
    SkillChosen(String),
    /// The permission dialog closed with a decision.
    PermissionDecided(PermissionDecision),
    /// The question was dismissed.
    QuestionDismissed,
    /// The question was answered.
    QuestionAnswered(String),
    /// The shortcut overlay opens the agent picker.
    OpenAgents,
    /// The shortcut overlay opens the theme picker.
    OpenThemes,
    /// The shortcut overlay opens the model picker.
    OpenModels,
    /// The shortcut overlay opens the status dialog.
    OpenStatus,
    /// The shortcut overlay opens the sessions dialog.
    OpenSessions,
    /// The shortcut overlay sets the conversation mode.
    SetMode(ConversationMode),
    /// The shortcut overlay toggles the conversation mode.
    ToggleMode,
    /// The shortcut overlay clears the screen.
    ClearScreen,
    /// The git dialog moved to another change: its diff must be reloaded.
    GitReloadDiff,
    /// The git dialog asks to stage or unstage the highlighted change.
    GitStage(StageRequest),
    /// The git dialog asks to commit with this message.
    GitCommit(String),
    /// The git dialog refused to commit, saying why.
    GitRefused(String),
}

/// What a key does in a list picker.
#[derive(Debug, Clone, Copy, PartialEq, Eq, Structural)]
pub enum PickerKey {
    Close,
    Type(char),
    Erase,
    Up,
    Down,
    Choose,
    Other,
}

/// The keys of the agent, theme and model pickers.
pub open spec fn picker_key(e: UiEvent) -> PickerKey {
    match e {
        UiEvent::Input(i) => match i {
            Input::Quit | Input::Cancel => PickerKey::Close,
            Input::Character(c) => PickerKey::Type(c),
            Input::Backspace => PickerKey::Erase,
            Input::Up | Input::ScrollUp | Input::PageUp => PickerKey::Up,
            Input::Down | Input::ScrollDown | Input::PageDown | Input::ToggleMode => PickerKey::Down,
            Input::Submit => PickerKey::Choose,
            _ => PickerKey::Other,
        },
        _ => PickerKey::Other,
    }
}

fn picker_key_of(e: &UiEvent) -> (k: PickerKey)
    ensures
        k == picker_key(*e),
{
    match e {
        UiEvent::Input(i) => match i {
            Input::Quit | Input::Cancel => PickerKey::Close,
            Input::Character(c) => PickerKey::Type(*c),
            Input::Backspace => PickerKey::Erase,
            Input::Up | Input::ScrollUp | Input::PageUp => PickerKey::Up,
            Input::Down | Input::ScrollDown | Input::PageDown | Input::ToggleMode => PickerKey::Down,
            Input::Submit => PickerKey::Choose,
            _ => PickerKey::Other,
        },
        _ => PickerKey::Other,
    }
}

/// A filter after the last character is deleted (if any).
pub open spec fn erased(f: Seq<char>) -> Seq<char> {
    if f.len() > 0 {
        f.drop_last()
    } else {
        f
    }
}

/// The entry at the selection, when it is within the list.
pub open spec fn at_selection<T>(v: Seq<T>, selected: nat) -> Option<T> {
    if selected < v.len() {
        Some(v[selected as int])
    } else {
        None
    }
}

/// The entry at the selection, clamped to the last entry; none in an empty
/// list.
pub open spec fn at_clamped_selection<T>(v: Seq<T>, selected: nat) -> Option<T> {
    if v.len() == 0 {
        None
    } else if selected < v.len() {
        Some(v[selected as int])
    } else {
        Some(v[v.len() - 1])
    }
}

/// The agent picker after an event, and what follows.
pub open spec fn agents_step(
    d: AgentsDialogState,
    e: UiEvent,
    after: Option<AgentsDialogState>,
    out: DialogOutcome,
) -> bool {
    let count = visible_agents(d.items@, d.filter@).len();
    match picker_key(e) {
        PickerKey::Close => after is None && out == DialogOutcome::Handled,
        PickerKey::Type(c) => {
            &&& out == DialogOutcome::Handled
            &&& after matches Some(a)
            &&& a.filter@ == d.filter@.push(c)
            &&& a == (AgentsDialogState { filter: a.filter, selected: 0, scroll_offset: 0, ..d })
        },
        PickerKey::Erase => {
            &&& out == DialogOutcome::Handled
            &&& after matches Some(a)
            &&& a.filter@ == erased(d.filter@)
            &&& a == (AgentsDialogState { filter: a.filter, selected: 0, scroll_offset: 0, ..d })
        },
        PickerKey::Up => out == DialogOutcome::Handled && after == Some(
            AgentsDialogState { selected: step_back(d.selected as nat, count) as usize, ..d },
        ),
        PickerKey::Down => out == DialogOutcome::Handled && after == Some(
            AgentsDialogState { selected: cycle_next(d.selected as nat, count) as usize, ..d },
        ),
        PickerKey::Choose => after is None && match at_selection(
            visible_agents(d.items@, d.filter@),
            d.selected as nat,
        ) {
            Some(a) => out matches DialogOutcome::AgentChosen { mode, name } && mode == a.mode
                && name@ == a.name@,
            None => out == DialogOutcome::Handled,
        },
        PickerKey::Other => after == Some(d) && out == DialogOutcome::Handled,
    }
}

/// The theme picker after an event, and what follows.
pub open spec fn themes_step(
    d: ThemesDialogState,
    e: UiEvent,
    after: Option<ThemesDialogState>,
    out: DialogOutcome,
) -> bool {
    let count = visible_themes(d.items@, d.filter@).len();
    match picker_key(e) {
        PickerKey::Close => after is None && out == DialogOutcome::Handled,
        PickerKey::Type(c) => {
            &&& out == DialogOutcome::Handled
            &&& after matches Some(a)
            &&& a.filter@ == d.filter@.push(c)
            &&& a == (ThemesDialogState { filter: a.filter, selected: 0, scroll_offset: 0, ..d })
        },
        PickerKey::Erase => {
            &&& out == DialogOutcome::Handled
            &&& after matches Some(a)
            &&& a.filter@ == erased(d.filter@)
            &&& a == (ThemesDialogState { filter: a.filter, selected: 0, scroll_offset: 0, ..d })
        },
        PickerKey::Up => out == DialogOutcome::Handled && after == Some(
            ThemesDialogState {
                selected: cycle_prev_or_reset(d.selected as nat, count) as usize,
                ..d
            },
        ),
        PickerKey::Down => out == DialogOutcome::Handled && after == Some(
            ThemesDialogState {
                selected: cycle_next_or_reset(d.selected as nat, count) as usize,
                ..d
            },
        ),
        PickerKey::Choose => after is None && match at_clamped_selection(
            visible_themes(d.items@, d.filter@),
            d.selected as nat,
        ) {
            Some(t) => out matches DialogOutcome::ThemeChosen { id, name } && id@ == t.id@ && name@
                == t.name@,
            None => out == DialogOutcome::Handled,
        },
        PickerKey::Other => after == Some(d) && out == DialogOutcome::Handled,
    }
}

/// What choosing model `id` sets: the provider and model it names when it
/// starts with a known provider, otherwise the id as the model; both bounded
/// in length.
pub open spec fn model_choice(id: Seq<char>, provider: Option<String>, model: String) -> bool {
    match provider_model_split(id) {
        Some((p, m)) => provider matches Some(pv) && pv@ == bounded_text(
            p,
            MAX_IDENTITY_BYTES as int,
        ) && model@ == bounded_text(m, MAX_IDENTITY_BYTES as int),
        None => provider is None && model@ == bounded_text(id, MAX_IDENTITY_BYTES as int),
    }
}

/// The model picker after an event, and what follows.
pub open spec fn models_step(
    d: ModelsDialogState,
    e: UiEvent,
    after: Option<ModelsDialogState>,
    out: DialogOutcome,
) -> bool {
    let count = visible_models(d.items@, d.filter@).len();
    match picker_key(e) {
        PickerKey::Close => after is None && out == DialogOutcome::Handled,
        PickerKey::Type(c) => {
            &&& out == DialogOutcome::Handled
            &&& after matches Some(a)
            &&& a.filter@ == d.filter@.push(c)
            &&& a == (ModelsDialogState { filter: a.filter, selected: 0, scroll_offset: 0, ..d })
        },
        PickerKey::Erase => {
            &&& out == DialogOutcome::Handled
            &&& after matches Some(a)
            &&& a.filter@ == erased(d.filter@)
            &&& a == (ModelsDialogState { filter: a.filter, selected: 0, scroll_offset: 0, ..d })
        },
        PickerKey::Up => out == DialogOutcome::Handled && after == Some(
            ModelsDialogState { selected: step_back(d.selected as nat, count) as usize, ..d },
        ),
        PickerKey::Down => out == DialogOutcome::Handled && after == Some(
            ModelsDialogState { selected: cycle_next(d.selected as nat, count) as usize, ..d },
        ),
        PickerKey::Choose => after is None && match at_selection(
            visible_models(d.items@, d.filter@),
            d.selected as nat,
        ) {
            Some(m) => out matches DialogOutcome::ModelChosen { id, provider, model } && id@
                == m.id@ && model_choice(m.id@, provider, model),
            None => out == DialogOutcome::Handled,
        },
        PickerKey::Other => after == Some(d) && out == DialogOutcome::Handled,
    }
}

fn agents_handle(d: AgentsDialogState, e: &UiEvent) -> (r: (
    Option<AgentsDialogState>,
    DialogOutcome,
))
    ensures
        agents_step(d, *e, r.0, r.1),
{
    let mut d = d;
    match picker_key_of(e) {
        PickerKey::Close => (None, DialogOutcome::Handled),
        PickerKey::Type(c) => {
            d.push_char(c);
            (Some(d), DialogOutcome::Handled)
        },
        PickerKey::Erase => {
            d.pop_char();
            (Some(d), DialogOutcome::Handled)
        },
        PickerKey::Up => {
            d.previous();
            (Some(d), DialogOutcome::Handled)
        },
        PickerKey::Down => {
            d.next();
            (Some(d), DialogOutcome::Handled)
        },
        PickerKey::Choose => {
            let out = match d.selected_agent() {
                Some(a) => DialogOutcome::AgentChosen { mode: a.mode, name: a.name.clone() },
                None => DialogOutcome::Handled,
            };
            (None, out)
        },
        PickerKey::Other => (Some(d), DialogOutcome::Handled),
    }
}

fn themes_handle(d: ThemesDialogState, e: &UiEvent) -> (r: (
    Option<ThemesDialogState>,
    DialogOutcome,
))
    ensures
        themes_step(d, *e, r.0, r.1),
{
    let mut d = d;
    match picker_key_of(e) {
        PickerKey::Close => (None, DialogOutcome::Handled),
        PickerKey::Type(c) => {
            d.push_char(c);
            (Some(d), DialogOutcome::Handled)
        },
        PickerKey::Erase => {
            d.pop_char();
            (Some(d), DialogOutcome::Handled)
        },
        PickerKey::Up => {
            d.previous();
            (Some(d), DialogOutcome::Handled)
        },
        PickerKey::Down => {
            d.next();
            (Some(d), DialogOutcome::Handled)
        },
        PickerKey::Choose => {
            let out = match d.selected_theme() {
                Some(t) => DialogOutcome::ThemeChosen { id: t.id.clone(), name: t.name.clone() },
                None => DialogOutcome::Handled,
            };
            (None, out)
        },
        PickerKey::Other => (Some(d), DialogOutcome::Handled),
    }
}

/// The provider and model that choosing model `id` sets (see
/// [`model_choice`]).
fn model_choice_of(id: &str) -> (r: (Option<String>, String))
    ensures
        model_choice(id@, r.0, r.1),
{
    match split_provider_model(id) {
        Some((p, m)) => (
            Some(bounded(p.to_owned(), MAX_IDENTITY_BYTES)),
            bounded(m.to_owned(), MAX_IDENTITY_BYTES),
        ),
        None => (None, bounded(id.to_owned(), MAX_IDENTITY_BYTES)),
    }
}

fn models_handle(d: ModelsDialogState, e: &UiEvent) -> (r: (
    Option<ModelsDialogState>,
    DialogOutcome,
))
    ensures
        models_step(d, *e, r.0, r.1),
{
    let mut d = d;
    match picker_key_of(e) {
        PickerKey::Close => (None, DialogOutcome::Handled),
        PickerKey::Type(c) => {
            d.push_char(c);
            (Some(d), DialogOutcome::Handled)
        },
        PickerKey::Erase => {
            d.pop_char();
            (Some(d), DialogOutcome::Handled)
        },
        PickerKey::Up => {
            d.previous();
            (Some(d), DialogOutcome::Handled)
        },
        PickerKey::Down => {
            d.next();
            (Some(d), DialogOutcome::Handled)
        },
        PickerKey::Choose => {
            let out = match d.selected_model() {
                Some(m) => {
                    let (provider, model) = model_choice_of(m.id.as_str());
                    DialogOutcome::ModelChosen { id: m.id.clone(), provider, model }
                },
                None => DialogOutcome::Handled,
            };
            (None, out)
        },
        PickerKey::Other => (Some(d), DialogOutcome::Handled),
    }
}

/// The sessions dialog after an event, and what follows.
pub open spec fn sessions_step(
    d: SessionsDialogState,
    e: UiEvent,
    after: Option<SessionsDialogState>,
    out: DialogOutcome,
) -> bool {
    let v = visible_sessions(d.items@, d.filter@);
    match e {
        UiEvent::Input(Input::Quit) | UiEvent::Input(Input::Cancel) => after is None && out
            == DialogOutcome::SessionsClosed,
        UiEvent::Input(Input::Character(c)) => if d.filter@.len() == 0 && c == '/' {
            after is None && out == DialogOutcome::StartCommand
        } else if d.filter@.len() == 0 && c == 'd' {
            match at_clamped_selection(v, d.selected as nat) {
                Some(s) => {
                    &&& out matches DialogOutcome::DeleteSession { id, title }
                    &&& id == s.id
                    &&& title@ == s.title@
                    &&& after matches Some(a)
                    &&& a.items@ == filter_by(d.items@, session_lacks_id(s.id))
                    &&& a == (SessionsDialogState {
                        items: a.items,
                        selected: clamp_selection(
                            d.selected as nat,
                            visible_sessions(a.items@, d.filter@).len(),
                        ) as usize,
                        ..d
                    })
                },
                None => after == Some(d) && out == DialogOutcome::Handled,
            }
        } else {
            &&& out == DialogOutcome::Handled
            &&& after matches Some(a)
            &&& a.filter@ == d.filter@.push(c)
            &&& a == (SessionsDialogState { filter: a.filter, selected: 0, scroll_offset: 0, ..d })
        },
        UiEvent::Input(Input::Backspace) => {
            &&& out == DialogOutcome::Handled
            &&& after matches Some(a)
            &&& a.filter@ == erased(d.filter@)
            &&& a == (SessionsDialogState { filter: a.filter, selected: 0, scroll_offset: 0, ..d })
        },
        UiEvent::Input(Input::Up) | UiEvent::Input(Input::ScrollUp) | UiEvent::Input(
            Input::PageUp,
        ) => out == DialogOutcome::Handled && after == Some(
            SessionsDialogState {
                selected: cycle_prev_or_reset(d.selected as nat, v.len()) as usize,
                ..d
            },
        ),
        UiEvent::Input(Input::Down) | UiEvent::Input(Input::ScrollDown) | UiEvent::Input(
            Input::PageDown,
        ) | UiEvent::Input(Input::ToggleMode) => out == DialogOutcome::Handled && after == Some(
            SessionsDialogState {
                selected: cycle_next_or_reset(d.selected as nat, v.len()) as usize,
                ..d
            },
        ),
        UiEvent::Input(Input::Submit) => after is None && match at_clamped_selection(
            v,
            d.selected as nat,
        ) {
            Some(s) => out matches DialogOutcome::SwitchSession { id, title } && id == s.id
                && title@ == s.title@,
            None => out == DialogOutcome::SessionsClosed,
        },
        _ => after == Some(d) && out == DialogOutcome::Handled,
    }
}

/// Lines the skill preview scrolls by for a page key.
pub const PREVIEW_PAGE_LINES: u16 = 5;

/// The skills dialog after an event, and what follows.
pub open spec fn skills_step(
    d: SkillsDialogState,
    e: UiEvent,
    after: Option<SkillsDialogState>,
    out: DialogOutcome,
) -> bool {
    let v = visible_skills(d.skills@, d.filter@);
    match e {
        UiEvent::Input(Input::Quit) | UiEvent::Input(Input::Cancel) => after is None && out
            == DialogOutcome::Handled,
        UiEvent::Input(Input::Character(c)) => {
            &&& out == DialogOutcome::Handled
            &&& after matches Some(a)
            &&& a.filter@ == d.filter@.push(c)
            &&& a == (SkillsDialogState {
                filter: a.filter,
                selected: 0,
                scroll_offset: 0,
                preview_scroll: 0,
                ..d
            })
        },
        UiEvent::Input(Input::Backspace) => {
            &&& out == DialogOutcome::Handled
            &&& after matches Some(a)
            &&& a.filter@ == erased(d.filter@)
            &&& a == (SkillsDialogState {
                filter: a.filter,
                selected: 0,
                scroll_offset: 0,
                preview_scroll: 0,
                ..d
            })
        },
        UiEvent::Input(Input::Up) | UiEvent::Input(Input::ScrollUp) => out
            == DialogOutcome::Handled && after == Some(
            SkillsDialogState {
                selected: cycle_prev_or_reset(d.selected as nat, v.len()) as usize,
                preview_scroll: 0,
                ..d
            },
        ),
        UiEvent::Input(Input::Down) | UiEvent::Input(Input::ScrollDown) => out
            == DialogOutcome::Handled && after == Some(
            SkillsDialogState {
                selected: cycle_next_or_reset(d.selected as nat, v.len()) as usize,
                preview_scroll: 0,
                ..d
            },
        ),
        UiEvent::Input(Input::PageUp) => out == DialogOutcome::Handled && after == Some(
            SkillsDialogState {
                preview_scroll: if d.preview_scroll >= PREVIEW_PAGE_LINES {
                    (d.preview_scroll - PREVIEW_PAGE_LINES) as u16
                } else {
                    0
                },
                ..d
            },
        ),
        UiEvent::Input(Input::PageDown) => out == DialogOutcome::Handled && after == Some(
            SkillsDialogState {
                preview_scroll: if d.preview_scroll + PREVIEW_PAGE_LINES <= u16::MAX {
                    (d.preview_scroll + PREVIEW_PAGE_LINES) as u16
                } else {
                    u16::MAX
                },
                ..d
            },
        ),
        UiEvent::Input(Input::Submit) => after is None && match at_clamped_selection(
            v,
            d.selected as nat,
        ) {
            Some(s) => out matches DialogOutcome::SkillChosen(name) && name@ == s.name@,
            None => out == DialogOutcome::Handled,
        },
        _ => after == Some(d) && out == DialogOutcome::Handled,
    }
}

fn sessions_handle(d: SessionsDialogState, e: &UiEvent) -> (r: (
    Option<SessionsDialogState>,
    DialogOutcome,
))
    ensures
        sessions_step(d, *e, r.0, r.1),
{
    let mut d = d;
    match e {
        UiEvent::Input(Input::Quit) | UiEvent::Input(Input::Cancel) => (
            None,
            DialogOutcome::SessionsClosed,
        ),
        UiEvent::Input(Input::Character(c)) => {
            let c = *c;
            let empty = d.filter.as_str().is_empty();
            if empty && c == '/' {
                (None, DialogOutcome::StartCommand)
            } else if empty && c == 'd' {
                let chosen = match d.selected_session() {
                    Some(s) => Some((s.id, s.title.clone())),
                    None => None,
                };
                match chosen {
                    Some((id, title)) => {
                        d.remove_item(id);
                        (Some(d), DialogOutcome::DeleteSession { id, title })
                    },
                    None => (Some(d), DialogOutcome::Handled),
                }
            } else {
                d.push_char(c);
                (Some(d), DialogOutcome::Handled)
            }
        },
        UiEvent::Input(Input::Backspace) => {
            d.pop_char();
            (Some(d), DialogOutcome::Handled)
        },
        UiEvent::Input(Input::Up) | UiEvent::Input(Input::ScrollUp) | UiEvent::Input(
            Input::PageUp,
        ) => {
            d.previous();
            (Some(d), DialogOutcome::Handled)
        },
        UiEvent::Input(Input::Down) | UiEvent::Input(Input::ScrollDown) | UiEvent::Input(
            Input::PageDown,
        ) | UiEvent::Input(Input::ToggleMode) => {
            d.next();
            (Some(d), DialogOutcome::Handled)
        },
        UiEvent::Input(Input::Submit) => {
            let out = match d.selected_session() {
                Some(s) => DialogOutcome::SwitchSession { id: s.id, title: s.title.clone() },
                None => DialogOutcome::SessionsClosed,
            };
            (None, out)
        },
        _ => (Some(d), DialogOutcome::Handled),
    }
}

fn skills_handle(d: SkillsDialogState, e: &UiEvent) -> (r: (
    Option<SkillsDialogState>,
    DialogOutcome,
))
    ensures
        skills_step(d, *e, r.0, r.1),
{
    let mut d = d;
    match e {
        UiEvent::Input(Input::Quit) | UiEvent::Input(Input::Cancel) => (
            None,
            DialogOutcome::Handled,
        ),
        UiEvent::Input(Input::Character(c)) => {
            d.push_char(*c);
            (Some(d), DialogOutcome::Handled)
        },
        UiEvent::Input(Input::Backspace) => {
            d.pop_char();
            (Some(d), DialogOutcome::Handled)
        },
        UiEvent::Input(Input::Up) | UiEvent::Input(Input::ScrollUp) => {
            d.previous();
            (Some(d), DialogOutcome::Handled)
        },
        UiEvent::Input(Input::Down) | UiEvent::Input(Input::ScrollDown) => {
            d.next();
            (Some(d), DialogOutcome::Handled)
        },
        UiEvent::Input(Input::PageUp) => {
            d.scroll_preview_up(PREVIEW_PAGE_LINES);
            (Some(d), DialogOutcome::Handled)
        },
        UiEvent::Input(Input::PageDown) => {
            d.scroll_preview_down(PREVIEW_PAGE_LINES);
            (Some(d), DialogOutcome::Handled)
        },
        UiEvent::Input(Input::Submit) => {
            let out = match d.selected_skill() {
                Some(s) => DialogOutcome::SkillChosen(s.name.clone()),
                None => DialogOutcome::Handled,
            };
            (None, out)
        },
        _ => (Some(d), DialogOutcome::Handled),
    }
}

/// The permission dialog after an event, and what follows.
pub open spec fn permission_step(
    d: PermissionDialogState,
    e: UiEvent,
    after: Option<PermissionDialogState>,
    out: DialogOutcome,
) -> bool {
    let prev = PermissionDialogState {
        selected_decision: (if d.selected_decision == 0 {
            2
        } else {
            d.selected_decision - 1
        }) as usize,
        ..d
    };
    let next = PermissionDialogState {
        selected_decision: ((d.selected_decision + 1) % 3) as usize,
        ..d
    };
    match e {
        UiEvent::Input(Input::Left) | UiEvent::Input(Input::Up) => out == DialogOutcome::Handled
            && after == Some(prev),
        UiEvent::Input(Input::Right) | UiEvent::Input(Input::Down) | UiEvent::Input(
            Input::ToggleMode,
        ) => out == DialogOutcome::Handled && after == Some(next),
        UiEvent::Input(Input::Character(c)) => out == DialogOutcome::Handled && after == if c
            == 'h' || c == 'k' {
            Some(prev)
        } else if c == 'l' || c == 'j' {
            Some(next)
        } else {
            Some(d)
        },
        UiEvent::Input(Input::Quit) | UiEvent::Input(Input::Cancel) => after is None && out
            == DialogOutcome::PermissionDecided(PermissionDecision::Deny),
        UiEvent::Input(Input::Submit) => after is None && out == DialogOutcome::PermissionDecided(
            decision_at(d.selected_decision as nat),
        ),
        _ => after == Some(d) && out == DialogOutcome::Handled,
    }
}

/// The question dialog after an event, and what follows.
pub open spec fn question_step(
    d: QuestionDialogState,
    e: UiEvent,
    after: Option<QuestionDialogState>,
    out: DialogOutcome,
) -> bool {
    let n = d.options@.len();
    let prev_sel: int = if d.selected_option == 0 || d.selected_option > n {
        n as int
    } else {
        d.selected_option - 1
    };
    let next_sel: int = (d.selected_option + 1) % (n as int + 1);
    let typing = d.typing_custom || d.selected_option == n;
    match e {
        UiEvent::Input(Input::Up) | UiEvent::Input(Input::ScrollUp) => out
            == DialogOutcome::Handled && after == Some(
            QuestionDialogState {
                selected_option: prev_sel as usize,
                typing_custom: prev_sel == n,
                ..d
            },
        ),
        UiEvent::Input(Input::Down) | UiEvent::Input(Input::ScrollDown) | UiEvent::Input(
            Input::ToggleMode,
        ) => out == DialogOutcome::Handled && after == Some(
            QuestionDialogState {
                selected_option: next_sel as usize,
                typing_custom: next_sel == n,
                ..d
            },
        ),
        UiEvent::Input(Input::Character(c)) => out == DialogOutcome::Handled && if typing {
            &&& after matches Some(a)
            &&& a.custom_answer@ == d.custom_answer@.push(c)
            &&& a == (QuestionDialogState {
                custom_answer: a.custom_answer,
                selected_option: n as usize,
                typing_custom: true,
                ..d
            })
        } else {
            after == Some(d)
        },
        UiEvent::Input(Input::Backspace) => out == DialogOutcome::Handled && if typing {
            &&& after matches Some(a)
            &&& a.custom_answer@ == erased(d.custom_answer@)
            &&& a == (QuestionDialogState {
                custom_answer: a.custom_answer,
                selected_option: n as usize,
                typing_custom: true,
                ..d
            })
        } else {
            after == Some(d)
        },
        UiEvent::Input(Input::Quit) | UiEvent::Input(Input::Cancel) => after is None && out
            == DialogOutcome::QuestionDismissed,
        UiEvent::Input(Input::Submit) => {
            &&& after is None
            &&& out matches DialogOutcome::QuestionAnswered(a)
            &&& a@ == if d.selected_option < n {
                d.options@[d.selected_option as int]@
            } else {
                d.custom_answer@
            }
        },
        _ => after == Some(d) && out == DialogOutcome::Handled,
    }
}

/// What a key does while the shortcut overlay shows (it hides either way).
pub open spec fn shortcut_outcome(e: UiEvent) -> DialogOutcome {
    match e {
        UiEvent::Input(Input::Character(c)) => if c == 'a' {
            DialogOutcome::OpenAgents
        } else if c == 't' {
            DialogOutcome::OpenThemes
        } else if c == 'm' {
            DialogOutcome::OpenModels
        } else if c == 'p' {
            DialogOutcome::SetMode(ConversationMode::Plan)
        } else if c == 'b' {
            DialogOutcome::SetMode(ConversationMode::Build)
        } else if c == 's' {
            DialogOutcome::OpenStatus
        } else if c == 'r' {
            DialogOutcome::OpenSessions
        } else if c == 'c' {
            DialogOutcome::ClearScreen
        } else {
            DialogOutcome::Handled
        },
        UiEvent::Input(Input::ToggleMode) => DialogOutcome::ToggleMode,
        _ => DialogOutcome::Handled,
    }
}

/// Whether an event closes the status dialog.
pub open spec fn closes_status(e: UiEvent) -> bool {
    match e {
        UiEvent::Input(Input::Quit) | UiEvent::Input(Input::Cancel) | UiEvent::Input(
            Input::Submit,
        ) | UiEvent::Input(Input::Clear) => true,
        _ => false,
    }
}

/// Lines the diff scrolls by for a page key.
pub const DIFF_PAGE_LINES: u16 = 5;

/// The git dialog after an event, and what follows.
pub open spec fn git_step(
    d: GitDialogState,
    e: UiEvent,
    after: Option<GitDialogState>,
    out: DialogOutcome,
) -> bool {
    let n = d.changes@.len();
    if d.commit_mode {
        match e {
            UiEvent::Input(Input::Quit) | UiEvent::Input(Input::Cancel) => out
                == DialogOutcome::Handled && after == Some(
                GitDialogState { commit_mode: false, status_message: None, ..d },
            ),
            UiEvent::Input(Input::Submit) => if trim(d.commit_message@).len() > 0 {
                &&& out matches DialogOutcome::GitCommit(m)
                &&& m@ == trim(d.commit_message@)
                &&& after == Some(d)
            } else {
                &&& out matches DialogOutcome::GitRefused(m)
                &&& m@ == "commit message cannot be empty"@
                &&& after matches Some(g)
                &&& g.status_message matches Some(sm) && sm@ == m@
                &&& g == (GitDialogState { status_message: g.status_message, ..d })
            },
            UiEvent::Input(Input::Character(ch)) => {
                &&& out == DialogOutcome::Handled
                &&& after matches Some(g)
                &&& g.commit_message@ == d.commit_message@.push(ch)
                &&& g == (GitDialogState { commit_message: g.commit_message, ..d })
            },
            UiEvent::Input(Input::Backspace) => {
                &&& out == DialogOutcome::Handled
                &&& after matches Some(g)
                &&& g.commit_message@ == erased(d.commit_message@)
                &&& g == (GitDialogState { commit_message: g.commit_message, ..d })
            },
            UiEvent::Paste(text) => {
                &&& out == DialogOutcome::Handled
                &&& after matches Some(g)
                &&& g.commit_message@ == d.commit_message@ + text@
                &&& g == (GitDialogState { commit_message: g.commit_message, ..d })
            },
            _ => after == Some(d) && out == DialogOutcome::Handled,
        }
    } else {
        let prev: int = if n == 0 {
            d.selected as int
        } else if d.selected > 0 {
            d.selected - 1
        } else {
            n - 1
        };
        let next: int = if n == 0 {
            d.selected as int
        } else if d.selected + 1 < n {
            d.selected + 1
        } else {
            0
        };
        let moved = if n > 0 {
            DialogOutcome::GitReloadDiff
        } else {
            DialogOutcome::Handled
        };
        let scroll_after_move: u16 = if n > 0 {
            0
        } else {
            d.diff_scroll
        };
        let total = (lines(d.diff@).len() % 65536) as int;
        let max_scroll = if total > 0 {
            total - 1
        } else {
            0
        };
        match e {
            UiEvent::Input(Input::Quit) | UiEvent::Input(Input::Cancel) => after is None && out
                == DialogOutcome::Handled,
            UiEvent::Input(Input::Up) | UiEvent::Input(Input::ScrollUp) => out == moved && after
                == Some(GitDialogState { selected: prev as usize, diff_scroll: scroll_after_move, ..d }),
            UiEvent::Input(Input::Down) | UiEvent::Input(Input::ScrollDown) => out == moved
                && after == Some(GitDialogState { selected: next as usize, diff_scroll: scroll_after_move, ..d }),
            UiEvent::Input(Input::PageUp) => out == DialogOutcome::Handled && after == Some(
                GitDialogState {
                    diff_scroll: if d.diff_scroll >= DIFF_PAGE_LINES {
                        (d.diff_scroll - DIFF_PAGE_LINES) as u16
                    } else {
                        0
                    },
                    ..d
                },
            ),
            UiEvent::Input(Input::PageDown) => out == DialogOutcome::Handled && after == Some(
                GitDialogState {
                    diff_scroll: if d.diff_scroll + DIFF_PAGE_LINES < max_scroll {
                        (d.diff_scroll + DIFF_PAGE_LINES) as u16
                    } else {
                        max_scroll as u16
                    },
                    ..d
                },
            ),
            UiEvent::Input(Input::Character(c)) => if c == ' ' {
                &&& after == Some(d)
                &&& if d.selected < n {
                    &&& out matches DialogOutcome::GitStage(q)
                    &&& q.path@ == d.changes@[d.selected as int].path@
                    &&& q.unstage == d.changes@[d.selected as int].staged
                } else {
                    out == DialogOutcome::Handled
                }
            } else if c == 'c' || c == 'C' {
                &&& out == DialogOutcome::Handled
                &&& after == Some(GitDialogState { commit_mode: true, status_message: None, ..d })
            } else {
                after == Some(d) && out == DialogOutcome::Handled
            },
            _ => after == Some(d) && out == DialogOutcome::Handled,
        }
    }
}

fn permission_handle(d: PermissionDialogState, e: &UiEvent) -> (r: (
    Option<PermissionDialogState>,
    DialogOutcome,
))
    ensures
        permission_step(d, *e, r.0, r.1),
{
    let mut d = d;
    match e {
        UiEvent::Input(Input::Left) | UiEvent::Input(Input::Up) => {
            d.previous();
            (Some(d), DialogOutcome::Handled)
        },
        UiEvent::Input(Input::Right) | UiEvent::Input(Input::Down) | UiEvent::Input(
            Input::ToggleMode,
        ) => {
            d.next();
            (Some(d), DialogOutcome::Handled)
        },
        UiEvent::Input(Input::Character(c)) => {
            let c = *c;
            if c == 'h' || c == 'k' {
                d.previous();
            } else if c == 'l' || c == 'j' {
                d.next();
            }
            (Some(d), DialogOutcome::Handled)
        },
        UiEvent::Input(Input::Quit) | UiEvent::Input(Input::Cancel) => (
            None,
            DialogOutcome::PermissionDecided(PermissionDecision::Deny),
        ),
        UiEvent::Input(Input::Submit) => (None, DialogOutcome::PermissionDecided(d.selected())),
        _ => (Some(d), DialogOutcome::Handled),
    }
}

fn question_handle(d: QuestionDialogState, e: &UiEvent) -> (r: (
    Option<QuestionDialogState>,
    DialogOutcome,
))
    requires
        d.options@.len() < usize::MAX,
    ensures
        question_step(d, *e, r.0, r.1),
{
    let mut d = d;
    let typing = d.typing_custom || d.selected_option == d.options.len();
    match e {
        UiEvent::Input(Input::Up) | UiEvent::Input(Input::ScrollUp) => {
            d.previous();
            (Some(d), DialogOutcome::Handled)
        },
        UiEvent::Input(Input::Down) | UiEvent::Input(Input::ScrollDown) | UiEvent::Input(
            Input::ToggleMode,
        ) => {
            d.next();
            (Some(d), DialogOutcome::Handled)
        },
        UiEvent::Input(Input::Character(c)) => {
            if typing {
                d.push_char(*c);
            }
            (Some(d), DialogOutcome::Handled)
        },
        UiEvent::Input(Input::Backspace) => {
            if typing {
                d.pop_char();
            }
            (Some(d), DialogOutcome::Handled)
        },
        UiEvent::Input(Input::Quit) | UiEvent::Input(Input::Cancel) => (
            None,
            DialogOutcome::QuestionDismissed,
        ),
        UiEvent::Input(Input::Submit) => (
            None,
            DialogOutcome::QuestionAnswered(d.selected_answer()),
        ),
        _ => (Some(d), DialogOutcome::Handled),
    }
}

fn shortcut_outcome_of(e: &UiEvent) -> (out: DialogOutcome)
    ensures
        out == shortcut_outcome(*e),
{
    match e {
        UiEvent::Input(Input::Character(c)) => {
            let c = *c;
            if c == 'a' {
                DialogOutcome::OpenAgents
            } else if c == 't' {
                DialogOutcome::OpenThemes
            } else if c == 'm' {
                DialogOutcome::OpenModels
            } else if c == 'p' {
                DialogOutcome::SetMode(ConversationMode::Plan)
            } else if c == 'b' {
                DialogOutcome::SetMode(ConversationMode::Build)
            } else if c == 's' {
                DialogOutcome::OpenStatus
            } else if c == 'r' {
                DialogOutcome::OpenSessions
            } else if c == 'c' {
                DialogOutcome::ClearScreen
            } else {
                DialogOutcome::Handled
            }
        },
        UiEvent::Input(Input::ToggleMode) => DialogOutcome::ToggleMode,
        _ => DialogOutcome::Handled,
    }
}

fn closes_status_of(e: &UiEvent) -> (b: bool)
    ensures
        b == closes_status(*e),
{
    match e {
        UiEvent::Input(Input::Quit) | UiEvent::Input(Input::Cancel) | UiEvent::Input(
            Input::Submit,
        ) | UiEvent::Input(Input::Clear) => true,
        _ => false,
    }
}

fn git_handle(d: GitDialogState, e: &UiEvent) -> (r: (Option<GitDialogState>, DialogOutcome))
    requires
        !d.commit_mode && *e == UiEvent::Input(Input::PageDown) ==> d.diff_scroll + DIFF_PAGE_LINES
            <= u16::MAX,
    ensures
        git_step(d, *e, r.0, r.1),
{
    let mut d = d;
    if d.commit_mode {
        match e {
            UiEvent::Input(Input::Quit) | UiEvent::Input(Input::Cancel) => {
                d.exit_commit_mode();
                (Some(d), DialogOutcome::Handled)
            },
            UiEvent::Input(Input::Submit) => {
                let out = match d.commit_request() {
                    Ok(m) => DialogOutcome::GitCommit(m),
                    Err(m) => DialogOutcome::GitRefused(m),
                };
                (Some(d), out)
            },
            UiEvent::Input(Input::Character(ch)) => {
                d.push_commit_char(*ch);
                (Some(d), DialogOutcome::Handled)
            },
            UiEvent::Input(Input::Backspace) => {
                d.pop_commit_char();
                (Some(d), DialogOutcome::Handled)
            },
            UiEvent::Paste(text) => {
                d.push_commit_str(text.as_str());
                (Some(d), DialogOutcome::Handled)
            },
            _ => (Some(d), DialogOutcome::Handled),
        }
    } else {
        match e {
            UiEvent::Input(Input::Quit) | UiEvent::Input(Input::Cancel) => (
                None,
                DialogOutcome::Handled,
            ),
            UiEvent::Input(Input::Up) | UiEvent::Input(Input::ScrollUp) => {
                let reload = d.previous();
                (Some(d), if reload {
                    DialogOutcome::GitReloadDiff
                } else {
                    DialogOutcome::Handled
                })
            },
            UiEvent::Input(Input::Down) | UiEvent::Input(Input::ScrollDown) => {
                let reload = d.next();
                (Some(d), if reload {
                    DialogOutcome::GitReloadDiff
                } else {
                    DialogOutcome::Handled
                })
            },
            UiEvent::Input(Input::PageUp) => {
                d.scroll_diff_up(DIFF_PAGE_LINES);
                (Some(d), DialogOutcome::Handled)
            },
            UiEvent::Input(Input::PageDown) => {
                d.scroll_diff_down(DIFF_PAGE_LINES);
                (Some(d), DialogOutcome::Handled)
            },
            UiEvent::Input(Input::Character(c)) => {
                let c = *c;
                if c == ' ' {
                    let out = match d.toggle_stage_request() {
                        Some(q) => DialogOutcome::GitStage(q),
                        None => DialogOutcome::Handled,
                    };
                    (Some(d), out)
                } else if c == 'c' || c == 'C' {
                    d.enter_commit_mode();
                    (Some(d), DialogOutcome::Handled)
                } else {
                    (Some(d), DialogOutcome::Handled)
                }
            },
            _ => (Some(d), DialogOutcome::Handled),
        }
    }
}

/// The dialogs of the interface: at most one of each is open, and the
/// shortcut overlay is shown or not.
#[derive(Debug)]
pub struct DialogSet {
    pub permission: Option<PermissionDialogState>,
    pub question: Option<QuestionDialogState>,
    pub which_key: WhichKeyState,
    pub status: Option<StatusDialogState>,
    pub sessions: Option<SessionsDialogState>,
    pub agents: Option<AgentsDialogState>,
    pub themes: Option<ThemesDialogState>,
    pub models: Option<ModelsDialogState>,
    pub git: Option<GitDialogState>,
    pub skills: Option<SkillsDialogState>,
}

/// Whether any dialog is open or the shortcut overlay is shown.
pub open spec fn any_open(s: DialogSet) -> bool {
    s.permission is Some || s.question is Some || s.which_key.visible || s.status is Some
        || s.sessions is Some || s.agents is Some || s.themes is Some || s.models is Some
        || s.git is Some || s.skills is Some
}

/// What the open dialogs do with an event, and what follows: with none open
/// the event is not theirs; a resize is taken, and streamed text passed on,
/// whatever is open; any other event goes to the first open one of the
/// permission dialog, the question, the shortcut overlay, the status dialog,
/// the sessions dialog, the agent, theme and model pickers, the git dialog
/// and the skills dialog, and the others stay as they were.
pub open spec fn dialog_step(s: DialogSet, e: UiEvent, t: DialogSet, out: DialogOutcome) -> bool {
    if !any_open(s) {
        t == s && out == DialogOutcome::NotHandled
    } else {
        match e {
            UiEvent::Resize { .. } => t == s && out == DialogOutcome::Handled,
            UiEvent::StreamDelta(d) => {
                &&& t == s
                &&& out matches DialogOutcome::Stream(x)
                &&& x@ == d@
            },
            _ => if s.permission is Some {
                permission_step(s.permission->0, e, t.permission, out) && t == (DialogSet {
                    permission: t.permission,
                    ..s
                })
            } else if s.question is Some {
                question_step(s.question->0, e, t.question, out) && t == (DialogSet {
                    question: t.question,
                    ..s
                })
            } else if s.which_key.visible {
                out == shortcut_outcome(e) && t == (DialogSet {
                    which_key: WhichKeyState { visible: false },
                    ..s
                })
            } else if s.status is Some {
                out == DialogOutcome::Handled && t == (DialogSet {
                    status: if closes_status(e) {
                        None
                    } else {
                        s.status
                    },
                    ..s
                })
            } else if s.sessions is Some {
                sessions_step(s.sessions->0, e, t.sessions, out) && t == (DialogSet {
                    sessions: t.sessions,
                    ..s
                })
            } else if s.agents is Some {
                agents_step(s.agents->0, e, t.agents, out) && t == (DialogSet {
                    agents: t.agents,
                    ..s
                })
            } else if s.themes is Some {
                themes_step(s.themes->0, e, t.themes, out) && t == (DialogSet {
                    themes: t.themes,
                    ..s
                })
            } else if s.models is Some {
                models_step(s.models->0, e, t.models, out) && t == (DialogSet {
                    models: t.models,
                    ..s
                })
            } else if s.git is Some {
                git_step(s.git->0, e, t.git, out) && t == (DialogSet { git: t.git, ..s })
            } else {
                skills_step(s.skills->0, e, t.skills, out) && t == (DialogSet {
                    skills: t.skills,
                    ..s
                })
            },
        }
    }
}

/// The limits that handling an event needs: a question lists fewer than
/// `usize::MAX` answers, and paging the diff of the git dialog down stays
/// within `u16`.
pub open spec fn dialog_limits(s: DialogSet, e: UiEvent) -> bool {
    &&& s.question matches Some(q) ==> q.options@.len() < usize::MAX
    &&& s.git matches Some(g) ==> (!g.commit_mode && e == UiEvent::Input(Input::PageDown)
        ==> g.diff_scroll + DIFF_PAGE_LINES <= u16::MAX)
}

impl DialogSet {
    /// No dialog open, and the shortcut overlay hidden.
    pub fn new() -> (s: Self)
        ensures
            !any_open(s),
    {
        DialogSet {
            permission: None,
            question: None,
            which_key: WhichKeyState::new(),
            status: None,
            sessions: None,
            agents: None,
            themes: None,
            models: None,
            git: None,
            skills: None,
        }
    }

    /// Whether any dialog is open or the shortcut overlay is shown.
    pub fn has_dialog(&self) -> (b: bool)
        ensures
            b == any_open(*self),
    {
        self.permission.is_some() || self.question.is_some() || self.which_key.visible
            || self.status.is_some() || self.sessions.is_some() || self.agents.is_some()
            || self.themes.is_some() || self.models.is_some() || self.git.is_some()
            || self.skills.is_some()
    }

    /// Gives `event` to the open dialogs (see [`dialog_step`]) and says what
    /// follows.
    pub fn handle_dialog_input(&mut self, event: &UiEvent) -> (out: DialogOutcome)
        requires
            dialog_limits(*old(self), *event),
        ensures
            dialog_step(*old(self), *event, *final(self), out),
    {
        if !self.has_dialog() {
            return DialogOutcome::NotHandled;
        }
        match event {
            UiEvent::Resize { .. } => {
                return DialogOutcome::Handled;
            },
            UiEvent::StreamDelta(delta) => {
                return DialogOutcome::Stream(delta.clone());
            },
            _ => {},
        }
        if self.permission.is_some() {
            let d = self.permission.take().unwrap();
            let (after, out) = permission_handle(d, event);
            self.permission = after;
            return out;
        }
        if self.question.is_some() {
            let d = self.question.take().unwrap();
            let (after, out) = question_handle(d, event);
            self.question = after;
            return out;
        }
        if self.which_key.visible {
            self.which_key.hide_overlay();
            return shortcut_outcome_of(event);
        }
        if self.status.is_some() {
            if closes_status_of(event) {
                self.status = None;
            }
            return DialogOutcome::Handled;
        }
        if self.sessions.is_some() {
            let d = self.sessions.take().unwrap();
            let (after, out) = sessions_handle(d, event);
            self.sessions = after;
            return out;
        }
        if self.agents.is_some() {
            let d = self.agents.take().unwrap();
            let (after, out) = agents_handle(d, event);
            self.agents = after;
            return out;
        }
        if self.themes.is_some() {
            let d = self.themes.take().unwrap();
            let (after, out) = themes_handle(d, event);
            self.themes = after;
            return out;
        }
        if self.models.is_some() {
            let d = self.models.take().unwrap();
            let (after, out) = models_handle(d, event);
            self.models = after;
            return out;
        }
        if self.git.is_some() {
            let d = self.git.take().unwrap();
            let (after, out) = git_handle(d, event);
            self.git = after;
            return out;
        }
        let d = self.skills.take().unwrap();
        let (after, out) = skills_handle(d, event);
        self.skills = after;
        out
    }
}

/// The text of an optional string.
pub open spec fn opt_text(o: Option<String>) -> Option<Seq<char>> {
    match o {
        Some(s) => Some(s@),
        None => None,
    }
}

/// The status line shown after an outcome, for the outcomes that set one.
pub open spec fn outcome_diagnostic(o: DialogOutcome) -> Option<Seq<char>> {
    match o {
        DialogOutcome::PermissionDecided(d) => Some(
            match d {
                PermissionDecision::Deny => "Permission denied"@,
                PermissionDecision::AllowOnce => "Permission granted (once)"@,
                PermissionDecision::AllowAlways => "Permission granted (always)"@,
            },
        ),
        DialogOutcome::QuestionDismissed => Some("Question dismissed"@),
        DialogOutcome::QuestionAnswered(a) => Some("Answer selected: "@ + a@),
        DialogOutcome::ClearScreen => Some("screen cleared"@),
        DialogOutcome::DeleteSession { id: _, title } => Some("session deleted: "@ + title@),
        DialogOutcome::SwitchSession { id, title } => Some(
            "switched to session #"@ + signed_decimal(id as int) + " ("@ + title@ + ")"@,
        ),
        DialogOutcome::AgentChosen { mode: _, name } => Some("agent selected: "@ + name@),
        DialogOutcome::ThemeChosen { id: _, name } => Some("theme switched to: "@ + name@),
        DialogOutcome::ModelChosen { id, provider: _, model: _ } => Some(
            "model switched to: "@ + id@,
        ),
        DialogOutcome::GitRefused(e) => Some("git error: "@ + e@),
        DialogOutcome::SkillChosen(name) => Some("skill selected: "@ + name@),
        _ => None,
    }
}

fn prefixed(prefix: &str, text: &str) -> (r: String)
    ensures
        r@ == prefix@ + text@,
{
    let mut r = prefix.to_owned();
    string_push_str(&mut r, text);
    r
}

impl DialogOutcome {
    /// The status line the interface shows after this outcome, when it sets
    /// one (see [`outcome_diagnostic`]).
    pub fn diagnostic(&self) -> (r: Option<String>)
        ensures
            opt_text(r) == outcome_diagnostic(*self),
    {
        match self {
            DialogOutcome::PermissionDecided(d) => Some(
                match d {
                    PermissionDecision::Deny => "Permission denied".to_owned(),
                    PermissionDecision::AllowOnce => "Permission granted (once)".to_owned(),
                    PermissionDecision::AllowAlways => "Permission granted (always)".to_owned(),
                },
            ),
            DialogOutcome::QuestionDismissed => Some("Question dismissed".to_owned()),
            DialogOutcome::QuestionAnswered(a) => Some(prefixed("Answer selected: ", a.as_str())),
            DialogOutcome::ClearScreen => Some("screen cleared".to_owned()),
            DialogOutcome::DeleteSession { id: _, title } => Some(
                prefixed("session deleted: ", title.as_str()),
            ),
            DialogOutcome::SwitchSession { id, title } => {
                let digits = i64_to_decimal(*id);
                let mut r = prefixed("switched to session #", digits.as_str());
                string_push_str(&mut r, " (");
                string_push_str(&mut r, title.as_str());
                string_push_str(&mut r, ")");
                Some(r)
            },
            DialogOutcome::AgentChosen { mode: _, name } => Some(
                prefixed("agent selected: ", name.as_str()),
            ),
            DialogOutcome::ThemeChosen { id: _, name } => Some(
                prefixed("theme switched to: ", name.as_str()),
            ),
            DialogOutcome::ModelChosen { id, provider: _, model: _ } => Some(
                prefixed("model switched to: ", id.as_str()),
            ),
            DialogOutcome::GitRefused(e) => Some(prefixed("git error: ", e.as_str())),
            DialogOutcome::SkillChosen(name) => Some(prefixed("skill selected: ", name.as_str())),
            _ => None,
        }
    }
}

/// The status line after git answered a commit: its output, or its error.
pub open spec fn commit_diagnostic(result: Result<String, String>) -> Seq<char> {
    match result {
        Ok(out) => "git: "@ + out@,
        Err(e) => "git error: "@ + e@,
    }
}

/// The status line after git answered a commit (see [`commit_diagnostic`]).
pub fn git_commit_diagnostic(result: &Result<String, String>) -> (r: String)
    ensures
        r@ == commit_diagnostic(*result),
{
    match result {
        Ok(out) => prefixed("git: ", out.as_str()),
        Err(e) => prefixed("git error: ", e.as_str()),
    }
}

} // verus!
