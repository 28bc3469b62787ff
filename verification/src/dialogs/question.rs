//! A clarifying question from the agent: pick one of the offered answers or
//! type a custom one (the extra entry after the options).
use vstd::prelude::*;

use super::common::next_index;
use crate::strings::{string_clear, string_pop, string_push};

verus! {

broadcast use vstd::string::group_string_axioms;

/// State of the question dialog. `selected_option` ranges over the options
/// and then the custom-answer entry at index `options.len()`.
#[derive(Debug, Clone, PartialEq, Eq)]
pub struct QuestionDialogState {
    pub question: String,
    pub options: Vec<String>,
    pub selected_option: usize,
    pub custom_answer: String,
    pub typing_custom: bool,
}

impl Default for QuestionDialogState {
    fn default() -> (s: Self)
        ensures
            s.question@.len() == 0,
            s.options@.len() == 0,
            s.selected_option == 0,
            s.custom_answer@.len() == 0,
            s.typing_custom,
    {
        let s = Self::new("", Vec::new());
        proof {
            reveal_strlit("");
        }
        s
    }
}

impl QuestionDialogState {
    /// The dialog for `question` with the given answers; with no answers to
    /// choose from, the user types one.
    pub fn new(question: &str, options: Vec<String>) -> (s: Self)
        ensures
            s.question@ == question@,
            s.options == options,
            s.selected_option == 0,
            s.custom_answer@.len() == 0,
            s.typing_custom == (options@.len() == 0),
    {
        let typing_custom = options.len() == 0;
        QuestionDialogState {
            question: question.to_owned(),
            options,
            selected_option: 0,
            custom_answer: String::new(),
            typing_custom,
        }
    }

    /// Highlights the next entry, wrapping after the custom-answer entry.
    pub fn next(&mut self)
        requires
            old(self).options@.len() < usize::MAX,
        ensures
            final(self).selected_option == (old(self).selected_option + 1) % (
            old(self).options@.len() as int + 1),
            final(self).typing_custom == (final(self).selected_option == old(self).options@.len()),
            final(self).options == old(self).options,
            final(self).question == old(self).question,
            final(self).custom_answer == old(self).custom_answer,
    {
        let total = self.options.len() + 1;
        self.selected_option = next_index(self.selected_option, total);
        self.typing_custom = self.selected_option == self.options.len();
    }

    /// Highlights the previous entry, wrapping from the first (or from past
    /// the end) to the custom-answer entry.
    pub fn previous(&mut self)
        requires
            old(self).options@.len() < usize::MAX,
        ensures
            final(self).selected_option == if old(self).selected_option == 0
                || old(self).selected_option > old(self).options@.len() {
                old(self).options@.len() as int
            } else {
                old(self).selected_option - 1
            },
            final(self).typing_custom == (final(self).selected_option == old(self).options@.len()),
            final(self).options == old(self).options,
            final(self).question == old(self).question,
            final(self).custom_answer == old(self).custom_answer,
    {
        let total = self.options.len() + 1;
        self.selected_option = if self.selected_option == 0 || self.selected_option >= total {
            total - 1
        } else {
            self.selected_option - 1
        };
        self.typing_custom = self.selected_option == self.options.len();
    }

    /// Types a character of the custom answer, which becomes the selection.
    pub fn push_char(&mut self, c: char)
        ensures
            final(self).custom_answer@ == old(self).custom_answer@.push(c),
            final(self).selected_option == old(self).options@.len(),
            final(self).typing_custom,
            final(self).options == old(self).options,
            final(self).question == old(self).question,
    {
        string_push(&mut self.custom_answer, c);
        self.selected_option = self.options.len();
        self.typing_custom = true;
    }

    /// Deletes the custom answer's last character (if any); the custom answer
    /// becomes the selection.
    pub fn pop_char(&mut self)
        ensures
            final(self).custom_answer@ == if old(self).custom_answer@.len() > 0 {
                old(self).custom_answer@.drop_last()
            } else {
                old(self).custom_answer@
            },
            final(self).selected_option == old(self).options@.len(),
            final(self).typing_custom,
            final(self).options == old(self).options,
            final(self).question == old(self).question,
    {
        string_pop(&mut self.custom_answer);
        self.selected_option = self.options.len();
        self.typing_custom = true;
    }

    /// The chosen answer: the highlighted option, or the custom answer.
    pub fn selected_answer(&self) -> (a: String)
        ensures
            a@ == if self.selected_option < self.options@.len() {
                self.options@[self.selected_option as int]@
            } else {
                self.custom_answer@
            },
    {
        if self.selected_option < self.options.len() {
            self.options[self.selected_option].clone()
        } else {
            self.custom_answer.clone()
        }
    }

    /// Whether a question is being asked.
    pub fn is_active(&self) -> (b: bool)
        ensures
            b == (self.question@.len() > 0 || self.options@.len() > 0),
    {
        !self.question.as_str().is_empty() || self.options.len() > 0
    }

    /// Dismisses the question.
    pub fn clear(&mut self)
        ensures
            final(self).question@.len() == 0,
            final(self).options@.len() == 0,
            final(self).selected_option == 0,
            final(self).custom_answer@.len() == 0,
            !final(self).typing_custom,
    {
        string_clear(&mut self.question);
        self.options.clear();
        self.selected_option = 0;
        string_clear(&mut self.custom_answer);
        self.typing_custom = false;
    }
}


/// What the question dialog shows.
#[derive(Debug, Clone, PartialEq, Eq)]
pub struct QuestionView {
    /// The question, or a stand-in line when the agent gave none.
    pub question: String,
    /// For each offered answer, whether it is the selected one.
    pub option_selected: Vec<bool>,
    /// Whether the custom entry after the options is selected.
    pub custom_selected: bool,
    /// The typed answer, or `[input]` while nothing is typed.
    pub custom_text: String,
}

/// What the question dialog shows (see [`QuestionView`]).
pub open spec fn question_view_ok(v: QuestionView, d: QuestionDialogState) -> bool {
    &&& v.question@ == if d.question@.len() == 0 {
        "Agent asked a question:"@
    } else {
        d.question@
    }
    &&& v.option_selected@.len() == d.options@.len()
    &&& forall|i: int| 0 <= i < d.options@.len() ==> #[trigger] v.option_selected@[i] == (i == d.selected_option)
    &&& v.custom_selected == (d.selected_option == d.options@.len())
    &&& v.custom_text@ == if d.custom_answer@.len() == 0 {
        "[input]"@
    } else {
        d.custom_answer@
    }
}

impl QuestionDialogState {
    /// What the dialog shows (see [`question_view_ok`]).
    pub fn view(&self) -> (r: QuestionView)
        ensures
            question_view_ok(r, *self),
    {
        let question = if self.question.as_str().is_empty() {
            "Agent asked a question:".to_owned()
        } else {
            self.question.clone()
        };
        let mut option_selected: Vec<bool> = Vec::new();
        let mut i: usize = 0;
        while i < self.options.len()
            invariant
                i <= self.options@.len(),
                option_selected@.len() == i,
                forall|j: int| 0 <= j < i ==> #[trigger] option_selected@[j] == (j == self.selected_option),
            decreases self.options@.len() - i,
        {
            option_selected.push(i == self.selected_option);
            i = i + 1;
        }
        let custom_text = if self.custom_answer.as_str().is_empty() {
            "[input]".to_owned()
        } else {
            self.custom_answer.clone()
        };
        QuestionView {
            question,
            option_selected,
            custom_selected: self.selected_option == self.options.len(),
            custom_text,
        }
    }
}

} // verus!
