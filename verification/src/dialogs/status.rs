//! The status summary: mode, provider, model, theme, branch, directory and
//! transcript size.
use vstd::prelude::*;

verus! {

broadcast use vstd::string::group_string_axioms;

/// What the status dialog shows.
#[derive(Debug, Clone, PartialEq, Eq)]
pub struct StatusDialogState {
    pub mode: String,
    pub provider: String,
    pub model: String,
    pub theme: String,
    pub branch: String,
    pub cwd: String,
    pub transcript_bytes: usize,
    pub status: String,
}

impl StatusDialogState {
    /// The summary of the given settings, with no transcript size or status.
    pub fn new(mode: &str, provider: &str, model: &str, theme: &str, branch: &str, cwd: &str) -> (s:
        Self)
        ensures
            s.mode@ == mode@,
            s.provider@ == provider@,
            s.model@ == model@,
            s.theme@ == theme@,
            s.branch@ == branch@,
            s.cwd@ == cwd@,
            s.transcript_bytes == 0,
            s.status@.len() == 0,
    {
        StatusDialogState {
            mode: mode.to_owned(),
            provider: provider.to_owned(),
            model: model.to_owned(),
            theme: theme.to_owned(),
            branch: branch.to_owned(),
            cwd: cwd.to_owned(),
            transcript_bytes: 0,
            status: String::new(),
        }
    }

    /// The same summary with the transcript size and status filled in.
    pub fn with_details(self, transcript_bytes: usize, status: &str) -> (s: Self)
        ensures
            s.transcript_bytes == transcript_bytes,
            s.status@ == status@,
            s.mode == self.mode,
            s.provider == self.provider,
            s.model == self.model,
            s.theme == self.theme,
            s.branch == self.branch,
            s.cwd == self.cwd,
    {
        let mut s = self;
        s.transcript_bytes = transcript_bytes;
        s.status = status.to_owned();
        s
    }
}

} // verus!
