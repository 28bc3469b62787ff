//! The confirmation asked before a sensitive tool call: deny, allow once, or
//! always allow.
use vstd::prelude::*;

use super::common::next_index;

verus! {

broadcast use vstd::string::group_string_axioms;

/// What the agent wants to do.
#[derive(Clone, Debug, PartialEq, Eq)]
pub struct PermissionPrompt {
    pub tool_name: String,
    pub action_desc: String,
    pub reason: String,
}

/// The user's answer.
#[derive(Clone, Copy, Debug, PartialEq, Eq, Structural)]
pub enum PermissionDecision {
    Deny,
    AllowOnce,
    AllowAlways,
}

/// State of the confirmation dialog. `selected_decision` indexes the
/// buttons: 0 deny, 1 allow once, 2 always allow.
#[derive(Debug, Clone, PartialEq, Eq)]
pub struct PermissionDialogState {
    pub prompt: Option<PermissionPrompt>,
    pub selected_decision: usize,
}

/// The decision shown on button `i` (taken modulo the three buttons).
pub open spec fn decision_at(i: nat) -> PermissionDecision {
    if i % 3 == 0 {
        PermissionDecision::Deny
    } else if i % 3 == 1 {
        PermissionDecision::AllowOnce
    } else {
        PermissionDecision::AllowAlways
    }
}

/// Whether `p` holds the given tool name, action and reason.
pub open spec fn prompt_is(p: PermissionPrompt, tool: Seq<char>, action: Seq<char>, reason: Seq<
    char,
>) -> bool {
    p.tool_name@ == tool && p.action_desc@ == action && p.reason@ == reason
}

impl Default for PermissionDialogState {
    fn default() -> (s: Self)
        ensures
            s.prompt is None,
            s.selected_decision == 1,
    {
        Self::new()
    }
}

impl PermissionDialogState {
    /// An inactive dialog with "allow once" highlighted.
    pub fn new() -> (s: Self)
        ensures
            s.prompt is None,
            s.selected_decision == 1,
    {
        PermissionDialogState { prompt: None, selected_decision: 1 }
    }

    /// An active dialog for the given request, with "allow once" highlighted.
    pub fn with_prompt(tool_name: &str, action_desc: &str, reason: &str) -> (s: Self)
        ensures
            s.prompt matches Some(p) && prompt_is(p, tool_name@, action_desc@, reason@),
            s.selected_decision == 1,
    {
        PermissionDialogState {
            prompt: Some(
                PermissionPrompt {
                    tool_name: tool_name.to_owned(),
                    action_desc: action_desc.to_owned(),
                    reason: reason.to_owned(),
                },
            ),
            selected_decision: 1,
        }
    }

    /// Highlights the next button, wrapping after the last.
    pub fn next(&mut self)
        ensures
            final(self).selected_decision == (old(self).selected_decision + 1) % 3,
            final(self).prompt == old(self).prompt,
    {
        self.selected_decision = next_index(self.selected_decision, 3);
    }

    /// Highlights the previous button, wrapping before the first.
    pub fn previous(&mut self)
        ensures
            final(self).selected_decision == if old(self).selected_decision == 0 {
                2
            } else {
                old(self).selected_decision - 1
            },
            final(self).prompt == old(self).prompt,
    {
        self.selected_decision = if self.selected_decision == 0 {
            2
        } else {
            self.selected_decision - 1
        };
    }

    /// The highlighted decision (see [`decision_at`]).
    pub fn selected(&self) -> (d: PermissionDecision)
        ensures
            d == decision_at(self.selected_decision as nat),
    {
        let i = self.selected_decision % 3;
        if i == 0 {
            PermissionDecision::Deny
        } else if i == 1 {
            PermissionDecision::AllowOnce
        } else {
            PermissionDecision::AllowAlways
        }
    }

    /// Whether a request is being shown.
    pub fn is_active(&self) -> (b: bool)
        ensures
            b == self.prompt is Some,
    {
        self.prompt.is_some()
    }

    /// Dismisses the request and highlights "allow once" again.
    pub fn clear(&mut self)
        ensures
            final(self).prompt is None,
            final(self).selected_decision == 1,
    {
        self.prompt = None;
        self.selected_decision = 1;
    }

    /// Shows a new request, with "allow once" highlighted.
    pub fn show(&mut self, tool_name: &str, action_desc: &str, reason: &str)
        ensures
            final(self).prompt matches Some(p) && prompt_is(p, tool_name@, action_desc@, reason@),
            final(self).selected_decision == 1,
    {
        self.prompt = Some(
            PermissionPrompt {
                tool_name: tool_name.to_owned(),
                action_desc: action_desc.to_owned(),
                reason: reason.to_owned(),
            },
        );
        self.selected_decision = 1;
    }

    /// Shows `prompt`, with "allow once" highlighted.
    pub fn show_prompt(&mut self, prompt: PermissionPrompt)
        ensures
            final(self).prompt == Some(prompt),
            final(self).selected_decision == 1,
    {
        self.prompt = Some(prompt);
        self.selected_decision = 1;
    }
}


/// What the confirmation shows: the tool, the action and the reason, with
/// placeholders when nothing is pending, and which button is lit.
#[derive(Debug, Clone, PartialEq, Eq)]
pub struct PermissionView {
    pub tool_name: String,
    pub action: String,
    pub reason: String,
    /// The lit button: the decision at the selection, none when the
    /// selection is past the three buttons.
    pub lit: Option<PermissionDecision>,
}

/// What the confirmation shows (see [`PermissionView`]).
pub open spec fn permission_view_ok(v: PermissionView, d: PermissionDialogState) -> bool {
    &&& match d.prompt {
        Some(p) => v.tool_name@ == p.tool_name@ && v.action@ == p.action_desc@ && v.reason@ == p.reason@,
        None => v.tool_name@ == "unknown"@ && v.action@ == "No pending action description"@ && v.reason@
            == "No reason provided"@,
    }
    &&& v.lit == if d.selected_decision < 3 {
        Some(decision_at(d.selected_decision as nat))
    } else {
        None
    }
}

impl PermissionDialogState {
    /// What the confirmation shows (see [`permission_view_ok`]).
    pub fn view(&self) -> (r: PermissionView)
        ensures
            permission_view_ok(r, *self),
    {
        let (tool_name, action, reason) = match &self.prompt {
            Some(p) => (p.tool_name.clone(), p.action_desc.clone(), p.reason.clone()),
            None => (
                "unknown".to_owned(),
                "No pending action description".to_owned(),
                "No reason provided".to_owned(),
            ),
        };
        let lit = if self.selected_decision < 3 {
            Some(self.selected())
        } else {
            None
        };
        PermissionView { tool_name, action, reason, lit }
    }
}

} // verus!
