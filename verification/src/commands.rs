//! Conversation modes and statuses, and the small text rules around prompts:
//! provider-qualified model ids, shell commands that need confirmation,
//! finish reasons, and the rotating prompt placeholder.
use vstd::prelude::*;
use vstd::string::StringSliceAdditionalSpecFns;
use vstd::utf8::*;

use crate::search::{seq_contains, str_contains, str_eq, str_eq_ignore_ascii_case, eq_ignore_ascii_case};
use crate::strings::{lowercase, string_push_str, to_lowercase};
use crate::text::{chars_of, starts_with, trim};
use crate::lines::{strip_prefix, trimmed, without_prefix};
use crate::search::str_starts_with;
use crate::dialogs::models::ModelInfo;
use crate::text::bounded_text;
use crate::tool_rows::MAX_IDENTITY_BYTES;
use crate::utf8::{char_byte_offsets, lemma_encode_take, lemma_prefix_is_char_boundary, utf8_len};

verus! {

broadcast use {vstd::utf8::group_utf8_lib, vstd::string::group_string_axioms};

/// Whether the agent may change the workspace.
#[derive(Debug, Clone, Copy, PartialEq, Eq, Structural)]
pub enum ConversationMode {
    Plan,
    Build,
}

/// Why a generation stopped.
#[derive(Debug, Clone, Copy, PartialEq, Eq, Structural)]
pub enum FinishReason {
    Stop,
    Length,
    ToolCall,
    Error,
}

/// State of the current turn.
#[derive(Debug, Clone, Copy, Default, PartialEq, Eq, Structural)]
pub enum ConversationStatus {
    #[default]
    Idle,
    Active,
    Finished(FinishReason),
    Error,
    Cancelled,
    Rejected,
}

/// How the status dialog names a conversation mode.
pub fn mode_label(mode: ConversationMode) -> (s: &'static str)
    ensures
        s@ == match mode {
            ConversationMode::Plan => "Plan (Read-only)"@,
            ConversationMode::Build => "Build (Edits enabled)"@,
        },
{
    match mode {
        ConversationMode::Plan => "Plan (Read-only)",
        ConversationMode::Build => "Build (Edits enabled)",
    }
}

/// How the status dialog names the state of the current turn.
pub fn status_label(status: ConversationStatus) -> (s: &'static str)
    ensures
        s@ == match status {
            ConversationStatus::Idle => "Idle"@,
            ConversationStatus::Active => "Active (Generating)"@,
            ConversationStatus::Finished(_) => "Finished"@,
            ConversationStatus::Cancelled => "Cancelled"@,
            ConversationStatus::Rejected => "Rejected"@,
            ConversationStatus::Error => "Error"@,
        },
{
    match status {
        ConversationStatus::Idle => "Idle",
        ConversationStatus::Active => "Active (Generating)",
        ConversationStatus::Finished(_) => "Finished",
        ConversationStatus::Cancelled => "Cancelled",
        ConversationStatus::Rejected => "Rejected",
        ConversationStatus::Error => "Error",
    }
}

/// The finish reason a provider's reason string denotes, compared without
/// regard to ASCII case.
pub open spec fn finish_reason_of(v: Seq<char>) -> Option<FinishReason> {
    if eq_ignore_ascii_case(v, "stop"@) {
        Some(FinishReason::Stop)
    } else if eq_ignore_ascii_case(v, "length"@) || eq_ignore_ascii_case(v, "max_tokens"@) {
        Some(FinishReason::Length)
    } else if eq_ignore_ascii_case(v, "tool_call"@) || eq_ignore_ascii_case(v, "tool_calls"@)
        || eq_ignore_ascii_case(v, "tool_use"@) {
        Some(FinishReason::ToolCall)
    } else if eq_ignore_ascii_case(v, "error"@) {
        Some(FinishReason::Error)
    } else {
        None
    }
}

/// Parses a provider's finish reason (see [`finish_reason_of`]).
pub fn parse_finish_reason(value: &str) -> (r: Option<FinishReason>)
    ensures
        r == finish_reason_of(value@),
{
    if str_eq_ignore_ascii_case(value, "stop") {
        Some(FinishReason::Stop)
    } else if str_eq_ignore_ascii_case(value, "length") || str_eq_ignore_ascii_case(
        value,
        "max_tokens",
    ) {
        Some(FinishReason::Length)
    } else if str_eq_ignore_ascii_case(value, "tool_call") || str_eq_ignore_ascii_case(
        value,
        "tool_calls",
    ) || str_eq_ignore_ascii_case(value, "tool_use") {
        Some(FinishReason::ToolCall)
    } else if str_eq_ignore_ascii_case(value, "error") {
        Some(FinishReason::Error)
    } else {
        None
    }
}

// ---------------------------------------------------------------------------
// Provider-qualified model ids
// ---------------------------------------------------------------------------

/// The providers whose name may prefix a model id.
pub open spec fn is_known_provider(p: Seq<char>) -> bool {
    ||| p == "openai"@
    ||| p == "anthropic"@
    ||| p == "ollama"@
    ||| p == "9router"@
    ||| p == "groq"@
    ||| p == "deepseek"@
    ||| p == "gemini"@
    ||| p == "openrouter"@
    ||| p == "together"@
}

fn known_provider(p: &str) -> (b: bool)
    ensures
        b == is_known_provider(p@),
{
    str_eq(p, "openai") || str_eq(p, "anthropic") || str_eq(p, "ollama") || str_eq(p, "9router")
        || str_eq(p, "groq") || str_eq(p, "deepseek") || str_eq(p, "gemini") || str_eq(
        p,
        "openrouter",
    ) || str_eq(p, "together")
}

/// Position of the first occurrence of `c` in `s`.
pub open spec fn first_index_of(s: Seq<char>, c: char) -> Option<int> {
    if exists|i: int| 0 <= i < s.len() && s[i] == c {
        Some(choose|i: int| 0 <= i < s.len() && s[i] == c && forall|j: int| 0 <= j < i ==> s[j] != c)
    } else {
        None
    }
}

/// `id` split at its first `'/'` when the part before it is a known provider.
pub open spec fn provider_model_split(id: Seq<char>) -> Option<(Seq<char>, Seq<char>)> {
    match first_index_of(id, '/') {
        Some(i) => if is_known_provider(id.take(i)) {
            Some((id.take(i), id.skip(i + 1)))
        } else {
            None
        },
        None => None,
    }
}

/// Splits `"provider/model"` into its parts when the provider is known (see
/// [`provider_model_split`]).
pub fn split_provider_model(id: &str) -> (r: Option<(&str, &str)>)
    ensures
        match provider_model_split(id@) {
            Some((p, m)) => r matches Some((rp, rm)) && rp@ == p && rm@ == m,
            None => r is None,
        },
{
    let v = chars_of(id);
    let n = v.len();
    let mut k: usize = 0;
    while k < n && v[k] != '/'
        invariant
            k <= n,
            n == v@.len(),
            forall|j: int| 0 <= j < k ==> v@[j] != '/',
        decreases n - k,
    {
        k = k + 1;
    }
    if k == n {
        assert(!exists|i: int| 0 <= i < v@.len() && v@[i] == '/');
        return None;
    }
    proof {
        assert(v@[k as int] == '/');
        let i = choose|i: int|
            0 <= i < v@.len() && v@[i] == '/' && forall|j: int| 0 <= j < i ==> v@[j] != '/';
        assert(i == k) by {
            if i < k {
                assert(v@[i] != '/');
            }
            if i > k {
                assert(v@[k as int] != '/');
            }
        }
    }
    let nbytes = id.as_bytes().len();
    proof {
        assert(v@.take(n as int) =~= v@);
    }
    let offs = char_byte_offsets(&v);
    let cut = offs[k];
    proof {
        lemma_prefix_is_char_boundary(id@, k as int);
        lemma_encode_take(id@, k as int);
    }
    let (head, rest) = id.split_at(cut);
    proof {
        assert(encode_utf8(head@) =~= encode_utf8(id@.take(k as int)));
        assert(head@ == id@.take(k as int)) by {
            assert(decode_utf8(encode_utf8(head@)) == head@);
            assert(decode_utf8(encode_utf8(id@.take(k as int))) == id@.take(k as int));
        }
        assert(encode_utf8(rest@) =~= encode_utf8(id@.skip(k as int)));
        assert(rest@ == id@.skip(k as int)) by {
            assert(decode_utf8(encode_utf8(rest@)) == rest@);
            assert(decode_utf8(encode_utf8(id@.skip(k as int))) == id@.skip(k as int));
        }
        assert(rest@.take(1) =~= seq!['/']);
        lemma_prefix_is_char_boundary(rest@, 1);
        crate::utf8::lemma_encode_utf8_single('/');
        assert(utf8_len(rest@.take(1)) == 1);
        lemma_encode_take(rest@, 1);
    }
    let (_slash, model) = rest.split_at(1);
    proof {
        assert(encode_utf8(model@) =~= encode_utf8(rest@.skip(1)));
        assert(model@ == rest@.skip(1)) by {
            assert(decode_utf8(encode_utf8(model@)) == model@);
            assert(decode_utf8(encode_utf8(rest@.skip(1))) == rest@.skip(1));
        }
        assert(model@ =~= id@.skip(k + 1));
    }
    if known_provider(head) {
        Some((head, model))
    } else {
        None
    }
}

// ---------------------------------------------------------------------------
// Sensitive shell commands
// ---------------------------------------------------------------------------

/// A shell command needs confirmation when, trimmed and lowercased, it is one
/// of the bare destructive commands or contains one followed by a space or tab.
pub open spec fn sensitive_command(cmd: Seq<char>) -> bool {
    let l = lowercase(trim(cmd));
    ||| l == "rm"@
    ||| l == "dd"@
    ||| l == "kill"@
    ||| l == "mkfs"@
    ||| seq_contains(l, "rm "@)
    ||| seq_contains(l, "rm\t"@)
    ||| seq_contains(l, "git reset"@)
    ||| seq_contains(l, "git clean"@)
    ||| seq_contains(l, "mkfs"@)
    ||| seq_contains(l, "dd "@)
    ||| seq_contains(l, "dd\t"@)
    ||| seq_contains(l, "kill "@)
    ||| seq_contains(l, "kill\t"@)
    ||| seq_contains(l, "chmod "@)
    ||| seq_contains(l, "chmod\t"@)
    ||| seq_contains(l, "chown "@)
    ||| seq_contains(l, "chown\t"@)
}

/// Whether a shell command needs the user's confirmation (see
/// [`sensitive_command`]).
pub fn is_sensitive_command(cmd: &str) -> (b: bool)
    ensures
        b == sensitive_command(cmd@),
{
    let t = crate::lines::trimmed(cmd);
    let lower = to_lowercase(t.as_str());
    let l = lower.as_str();
    if str_eq(l, "rm") || str_eq(l, "dd") || str_eq(l, "kill") || str_eq(l, "mkfs") {
        return true;
    }
    str_contains(l, "rm ") || str_contains(l, "rm\t") || str_contains(l, "git reset")
        || str_contains(l, "git clean") || str_contains(l, "mkfs") || str_contains(l, "dd ")
        || str_contains(l, "dd\t") || str_contains(l, "kill ") || str_contains(l, "kill\t")
        || str_contains(l, "chmod ") || str_contains(l, "chmod\t") || str_contains(l, "chown ")
        || str_contains(l, "chown\t")
}

// ---------------------------------------------------------------------------
// Prompt placeholder
// ---------------------------------------------------------------------------

/// Number of placeholder suggestions.
pub const PLACEHOLDER_COUNT: usize = 12;

/// The `i`-th placeholder suggestion.
pub open spec fn placeholder_suggestion_text(i: int) -> Seq<char> {
    if i == 0 {
        "Fix a TODO in the codebase"@
    } else if i == 1 {
        "What is the tech stack of this project?"@
    } else if i == 2 {
        "Write unit tests for this module"@
    } else if i == 3 {
        "Refactor this function for better performance"@
    } else if i == 4 {
        "Add error handling to this code"@
    } else if i == 5 {
        "Explain how this code works"@
    } else if i == 6 {
        "Find and fix a bug in this module"@
    } else if i == 7 {
        "Add documentation to this function"@
    } else if i == 8 {
        "Create a new feature for X"@
    } else if i == 9 {
        "Optimize this database query"@
    } else if i == 10 {
        "Add type hints to this code"@
    } else {
        "Implement caching for this endpoint"@
    }
}

/// The `i`-th placeholder suggestion (see [`placeholder_suggestion_text`]).
pub fn placeholder_suggestion(i: usize) -> (s: &'static str)
    requires
        i < PLACEHOLDER_COUNT,
    ensures
        s@ == placeholder_suggestion_text(i as int),
{
    if i == 0 {
        "Fix a TODO in the codebase"
    } else if i == 1 {
        "What is the tech stack of this project?"
    } else if i == 2 {
        "Write unit tests for this module"
    } else if i == 3 {
        "Refactor this function for better performance"
    } else if i == 4 {
        "Add error handling to this code"
    } else if i == 5 {
        "Explain how this code works"
    } else if i == 6 {
        "Find and fix a bug in this module"
    } else if i == 7 {
        "Add documentation to this function"
    } else if i == 8 {
        "Create a new feature for X"
    } else if i == 9 {
        "Optimize this database query"
    } else if i == 10 {
        "Add type hints to this code"
    } else {
        "Implement caching for this endpoint"
    }
}

/// The placeholder text built around the `i`-th suggestion.
pub open spec fn placeholder_text(i: int) -> Seq<char> {
    "Ask anything... \""@ + placeholder_suggestion_text(i) + "\""@
}

/// The placeholder for a clock reading in milliseconds since the epoch: the
/// suggestion at the reading modulo their number, or the first one when the
/// clock could not be read.
pub fn placeholder_for_time(millis: Option<u128>) -> (s: String)
    ensures
        s@ == placeholder_text(
            match millis {
                Some(m) => (m % (PLACEHOLDER_COUNT as u128)) as int,
                None => 0,
            },
        ),
{
    let index: usize = match millis {
        Some(m) => (m % 12) as usize,
        None => 0,
    };
    let mut s = "Ask anything... \"".to_owned();
    string_push_str(&mut s, placeholder_suggestion(index));
    string_push_str(&mut s, "\"");
    s
}

#[verifier::external_type_specification]
#[verifier::external_body]
pub struct ExSystemTime(std::time::SystemTime);

/// `SystemTime::now()`: the system clock's reading, of which nothing is
/// stated.
#[verifier::external_body]
fn system_now() -> std::time::SystemTime {
    std::time::SystemTime::now()
}

/// `SystemTime::duration_since` with the Unix epoch: how long after the
/// epoch `t` is, `None` when `t` is before it. Nothing is stated of either,
/// since a reading of the clock can be anything.
#[verifier::external_body]
fn since_epoch(t: &std::time::SystemTime) -> Option<std::time::Duration> {
    t.duration_since(std::time::UNIX_EPOCH).ok()
}

/// `Duration::as_millis`: the whole milliseconds of `d`. Nothing is stated of
/// the number: the duration it reads is opaque here.
#[verifier::external_body]
fn whole_millis(d: &std::time::Duration) -> u128 {
    d.as_millis()
}

/// The system clock as milliseconds since the Unix epoch; `None` when the
/// clock reads before the epoch. Nothing is promised of the reading.
pub(crate) fn clock_millis() -> Option<u128> {
    let t = system_now();
    match since_epoch(&t) {
        Some(d) => Some(whole_millis(&d)),
        None => None,
    }
}

/// A placeholder for the prompt input, picked by the current time.
pub fn get_random_placeholder() -> (s: String)
    ensures
        exists|i: int| 0 <= i < PLACEHOLDER_COUNT && s@ == placeholder_text(i),
{
    let m = clock_millis();
    let s = placeholder_for_time(m);
    proof {
        let i = match m {
            Some(m) => (m % (PLACEHOLDER_COUNT as u128)) as int,
            None => 0,
        };
        assert(0 <= i < PLACEHOLDER_COUNT);
    }
    s
}


// ---------------------------------------------------------------------------
// What a submitted prompt asks for
// ---------------------------------------------------------------------------

/// What a submitted prompt asks of the interface itself.
#[derive(Debug, Clone, PartialEq, Eq)]
pub enum LocalCommand {
    /// `/agents`: open the agent picker.
    Agents,
    /// `/themes`: open the theme picker.
    Themes,
    /// `/theme <name>`, with the name trimmed.
    Theme(String),
    /// `/keys`: show the shortcut sheet.
    Keys,
    /// `/status`: open the status dialog.
    Status,
    /// `/clear` or `/home`: stop the turn and clear the screen.
    Clear,
    /// `/compact`: stop the turn and compact the transcript.
    Compact,
    /// `/copy`: copy the transcript (or the model) to the clipboard.
    Copy,
    /// `/model <id>`, with the id trimmed.
    Model(String),
    /// Another slash command, for the command line's parser.
    Other,
    /// Not a command: a message for the agent.
    Message,
}

/// `c` is what submitted text `t` asks for (see [`LocalCommand`]); the
/// arguments of `/theme ` and `/model ` are trimmed.
pub open spec fn local_command_ok(c: LocalCommand, t: Seq<char>) -> bool {
    if !starts_with(t, "/"@) {
        c == LocalCommand::Message
    } else if t == "/agents"@ {
        c == LocalCommand::Agents
    } else if t == "/themes"@ {
        c == LocalCommand::Themes
    } else if starts_with(t, "/theme "@) {
        c matches LocalCommand::Theme(a) && a@ == trim(strip_prefix(t, "/theme "@))
    } else if t == "/keys"@ {
        c == LocalCommand::Keys
    } else if t == "/status"@ {
        c == LocalCommand::Status
    } else if t == "/clear"@ || t == "/home"@ {
        c == LocalCommand::Clear
    } else if t == "/compact"@ {
        c == LocalCommand::Compact
    } else if t == "/copy"@ {
        c == LocalCommand::Copy
    } else if starts_with(t, "/model "@) {
        c matches LocalCommand::Model(a) && a@ == trim(strip_prefix(t, "/model "@))
    } else {
        c == LocalCommand::Other
    }
}

/// What submitted text asks for (see [`local_command_ok`]).
pub fn local_command(text: &str) -> (r: LocalCommand)
    ensures
        local_command_ok(r, text@),
{
    proof {
        reveal_strlit("/");
    }
    if !str_starts_with(text, "/") {
        LocalCommand::Message
    } else if str_eq(text, "/agents") {
        LocalCommand::Agents
    } else if str_eq(text, "/themes") {
        LocalCommand::Themes
    } else if str_starts_with(text, "/theme ") {
        let rest = without_prefix(text, "/theme ");
        LocalCommand::Theme(trimmed(rest.as_str()))
    } else if str_eq(text, "/keys") {
        LocalCommand::Keys
    } else if str_eq(text, "/status") {
        LocalCommand::Status
    } else if str_eq(text, "/clear") || str_eq(text, "/home") {
        LocalCommand::Clear
    } else if str_eq(text, "/compact") {
        LocalCommand::Compact
    } else if str_eq(text, "/copy") {
        LocalCommand::Copy
    } else if str_starts_with(text, "/model ") {
        let rest = without_prefix(text, "/model ");
        LocalCommand::Model(trimmed(rest.as_str()))
    } else {
        LocalCommand::Other
    }
}

/// The model `/model <arg>` switches to: the completion at the selection,
/// else the argument when a known model has that id, else the first
/// completion; none when there is no completion and the argument names no
/// model.
pub open spec fn chosen_model(suggestions: Seq<String>, selected: nat, arg: Seq<char>, models: Seq<ModelInfo>) -> Option<Seq<char>> {
    if selected < suggestions.len() {
        Some(suggestions[selected as int]@)
    } else if arg.len() > 0 && exists|i: int| 0 <= i < models.len() && #[trigger] models[i].id@ == arg {
        Some(arg)
    } else if suggestions.len() > 0 {
        Some(suggestions[0]@)
    } else {
        None
    }
}

/// The model `/model <arg>` switches to (see [`chosen_model`]).
pub fn choose_model(suggestions: &[String], selected: usize, arg: &str, models: &[ModelInfo]) -> (r: Option<String>)
    ensures
        opt_string_view(r) == chosen_model(suggestions@, selected as nat, arg@, models@),
{
    if selected < suggestions.len() {
        return Some(suggestions[selected].clone());
    }
    if !arg.is_empty() {
        let mut i: usize = 0;
        while i < models.len()
            invariant
                i <= models@.len(),
                arg@.len() > 0,
                selected >= suggestions@.len(),
                forall|j: int| 0 <= j < i ==> models@[j].id@ != arg@,
            decreases models@.len() - i,
        {
            if str_eq(models[i].id.as_str(), arg) {
                assert(models@[i as int].id@ == arg@);
                return Some(arg.to_owned());
            }
            i = i + 1;
        }
    }
    if suggestions.len() > 0 {
        Some(suggestions[0].clone())
    } else {
        None
    }
}

pub open spec fn opt_string_view(o: Option<String>) -> Option<Seq<char>> {
    match o {
        Some(s) => Some(s@),
        None => None,
    }
}

/// What switching to model `chosen` sets: the provider and model it names
/// when it is provider-qualified (else only the model), each bounded to
/// [`MAX_IDENTITY_BYTES`], and the message `model switched to: <chosen>`.
#[derive(Debug, Clone, PartialEq, Eq)]
pub struct ModelSwitch {
    pub provider: Option<String>,
    pub model: String,
    pub message: String,
}

pub open spec fn model_switch_ok(r: ModelSwitch, chosen: Seq<char>) -> bool {
    &&& match provider_model_split(chosen) {
        Some((p, m)) => r.provider matches Some(rp) && rp@ == bounded_text(p, MAX_IDENTITY_BYTES as int)
            && r.model@ == bounded_text(m, MAX_IDENTITY_BYTES as int),
        None => r.provider is None && r.model@ == bounded_text(chosen, MAX_IDENTITY_BYTES as int),
    }
    &&& r.message@ == "model switched to: "@ + chosen
}

/// What switching to model `chosen` sets (see [`model_switch_ok`]).
pub fn model_switch(chosen: &str) -> (r: ModelSwitch)
    ensures
        model_switch_ok(r, chosen@),
{
    let mut message = "model switched to: ".to_owned();
    string_push_str(&mut message, chosen);
    match split_provider_model(chosen) {
        Some((p, m)) => ModelSwitch {
            provider: Some(crate::text::bounded(p.to_owned(), MAX_IDENTITY_BYTES)),
            model: crate::text::bounded(m.to_owned(), MAX_IDENTITY_BYTES),
            message,
        },
        None => ModelSwitch {
            provider: None,
            model: crate::text::bounded(chosen.to_owned(), MAX_IDENTITY_BYTES),
            message,
        },
    }
}


// ---------------------------------------------------------------------------
// Command results
// ---------------------------------------------------------------------------

/// The provider and model the interface shows.
#[derive(Debug, Clone, PartialEq, Eq)]
pub struct Identity {
    pub provider: String,
    pub model: String,
}

/// The identity after the command line selected model `chosen`: a
/// provider-qualified id sets both parts; otherwise the model is the id,
/// without a leading `<provider>/` of the provider in use. Both are bounded
/// to [`MAX_IDENTITY_BYTES`].
pub open spec fn selected_identity(old: Identity, new: Identity, chosen: Seq<char>) -> bool {
    match provider_model_split(chosen) {
        Some((p, m)) => new.provider@ == bounded_text(p, MAX_IDENTITY_BYTES as int) && new.model@
            == bounded_text(m, MAX_IDENTITY_BYTES as int),
        None => new.provider == old.provider && new.model@ == bounded_text(
            if old.provider@.len() > 0 {
                strip_prefix(chosen, old.provider@ + "/"@)
            } else {
                chosen
            },
            MAX_IDENTITY_BYTES as int,
        ),
    }
}

impl Identity {
    /// Takes the model the command line selected (see
    /// [`selected_identity`]); gives the message `model switched to: <id>`.
    pub fn select_model(&mut self, chosen: &str) -> (message: String)
        ensures
            selected_identity(*old(self), *final(self), chosen@),
            message@ == "model switched to: "@ + chosen@,
    {
        let mut message = "model switched to: ".to_owned();
        string_push_str(&mut message, chosen);
        match split_provider_model(chosen) {
            Some((p, m)) => {
                self.provider = crate::text::bounded(p.to_owned(), MAX_IDENTITY_BYTES);
                self.model = crate::text::bounded(m.to_owned(), MAX_IDENTITY_BYTES);
            },
            None => {
                let shown = if !self.provider.as_str().is_empty() {
                    let mut prefix = self.provider.clone();
                    string_push_str(&mut prefix, "/");
                    without_prefix(chosen, prefix.as_str())
                } else {
                    chosen.to_owned()
                };
                self.model = crate::text::bounded(shown, MAX_IDENTITY_BYTES);
            },
        }
        message
    }

    /// Takes the provider the command line connected; gives the message
    /// `provider connected: <provider>`.
    pub fn connect(&mut self, provider: &str) -> (message: String)
        ensures
            final(self).provider@ == bounded_text(provider@, MAX_IDENTITY_BYTES as int),
            final(self).model == old(self).model,
            message@ == "provider connected: "@ + provider@,
    {
        self.provider = crate::text::bounded(provider.to_owned(), MAX_IDENTITY_BYTES);
        let mut message = "provider connected: ".to_owned();
        string_push_str(&mut message, provider);
        message
    }
}

/// The message after listing `n` models: `<n> model(s)`.
pub fn models_listed_message(n: usize) -> (r: String)
    ensures
        r@ == crate::numfmt::decimal(n as nat) + " model(s)"@,
{
    let mut r = String::new();
    crate::numfmt::push_decimal(&mut r, n as u64);
    string_push_str(&mut r, " model(s)");
    r
}

/// The message after listing `n` sessions.
pub fn sessions_listed_message(n: usize) -> (r: String)
    ensures
        r@ == crate::numfmt::decimal(n as nat) + " session(s) — press Esc to close"@,
{
    let mut r = String::new();
    crate::numfmt::push_decimal(&mut r, n as u64);
    string_push_str(&mut r, " session(s) — press Esc to close");
    r
}

/// Appends help text to the transcript, on a line of its own unless the
/// transcript is empty.
pub fn append_help(transcript: &mut String, text: &str)
    ensures
        final(transcript)@ == if old(transcript)@.len() == 0 {
            text@
        } else {
            old(transcript)@ + "\n"@ + text@
        },
{
    if !transcript.as_str().is_empty() {
        string_push_str(transcript, "\n");
    }
    string_push_str(transcript, text);
}


/// How the header's status dot is coloured.
#[derive(Debug, Clone, Copy, PartialEq, Eq, Structural)]
pub enum StatusTone {
    /// The mode's colour: the agent is at work.
    Working,
    /// An error.
    Failure,
    /// A cancellation.
    Warning,
    /// Anything else.
    Quiet,
}

/// The tone of the header's status dot: working while a turn is active or a
/// reply streams, else by the status.
pub open spec fn status_tone_of(status: ConversationStatus, streaming: bool) -> StatusTone {
    if status == ConversationStatus::Active || streaming {
        StatusTone::Working
    } else if status == ConversationStatus::Error {
        StatusTone::Failure
    } else if status == ConversationStatus::Cancelled {
        StatusTone::Warning
    } else {
        StatusTone::Quiet
    }
}

/// The tone of the header's status dot (see [`status_tone_of`]).
pub fn status_tone(status: ConversationStatus, streaming: bool) -> (r: StatusTone)
    ensures
        r == status_tone_of(status, streaming),
{
    if status == ConversationStatus::Active || streaming {
        StatusTone::Working
    } else if status == ConversationStatus::Error {
        StatusTone::Failure
    } else if status == ConversationStatus::Cancelled {
        StatusTone::Warning
    } else {
        StatusTone::Quiet
    }
}

/// What follows the status in the header: nothing, or `  ·  ` and the
/// diagnostic.
pub fn diagnostic_suffix(diagnostic: &str) -> (r: String)
    ensures
        r@ == if diagnostic@.len() == 0 {
            Seq::<char>::empty()
        } else {
            "  ·  "@ + diagnostic@
        },
{
    if diagnostic.is_empty() {
        String::new()
    } else {
        let mut r = "  ·  ".to_owned();
        string_push_str(&mut r, diagnostic);
        r
    }
}

} // verus!
