//! What the transcript reads out of a tool call's arguments: the verbs and the
//! target of the call, and the steps of a plan.
use vstd::prelude::*;

use crate::json::{
    all_digits, as_array, get, get2, json_get, json_get2, opt_as_str, opt_deref, opt_str,
    parse_json, parsed_json, JsonValue,
};
use crate::lines::{sub_vec, trimmed};
use crate::numfmt::{decimal, u64_to_decimal};
use crate::search::{ascii_lower, str_eq, to_ascii_lowercase};
use crate::strings::{string_from_chars, string_push, string_push_str};
use crate::text::{chars_of, trim};

verus! {

broadcast use vstd::string::group_string_axioms;

/// The tools the transcript tells apart, each with the names it goes by.
#[derive(Debug, Clone, Copy, PartialEq, Eq, Structural)]
pub enum ToolKind {
    Read,
    Write,
    Edit,
    Patch,
    ListDir,
    Glob,
    Grep,
    Bash,
    Question,
    UpdatePlan,
    Task,
    Execute,
    WebFetch,
    Fetch,
    WebSearch,
    Search,
    Skill,
    Other,
}

/// The kind of the tool called `n`.
pub open spec fn tool_kind(n: Seq<char>) -> ToolKind {
    if n == "read_file"@ || n == "read"@ {
        ToolKind::Read
    } else if n == "write_file"@ || n == "write"@ {
        ToolKind::Write
    } else if n == "edit_file"@ || n == "edit"@ {
        ToolKind::Edit
    } else if n == "patch"@ || n == "apply_patch"@ {
        ToolKind::Patch
    } else if n == "list_dir"@ {
        ToolKind::ListDir
    } else if n == "glob_search"@ || n == "glob"@ {
        ToolKind::Glob
    } else if n == "grep_search"@ || n == "grep"@ {
        ToolKind::Grep
    } else if n == "bash"@ || n == "sh"@ {
        ToolKind::Bash
    } else if n == "question"@ {
        ToolKind::Question
    } else if n == "update_plan"@ {
        ToolKind::UpdatePlan
    } else if n == "task"@ {
        ToolKind::Task
    } else if n == "execute"@ {
        ToolKind::Execute
    } else if n == "webfetch"@ {
        ToolKind::WebFetch
    } else if n == "fetch"@ {
        ToolKind::Fetch
    } else if n == "websearch"@ {
        ToolKind::WebSearch
    } else if n == "search"@ {
        ToolKind::Search
    } else if n == "skill"@ {
        ToolKind::Skill
    } else {
        ToolKind::Other
    }
}

/// The kind of the tool called `n` (see [`tool_kind`]).
pub fn kind_of(n: &str) -> (k: ToolKind)
    ensures
        k == tool_kind(n@),
{
    if str_eq(n, "read_file") || str_eq(n, "read") {
        ToolKind::Read
    } else if str_eq(n, "write_file") || str_eq(n, "write") {
        ToolKind::Write
    } else if str_eq(n, "edit_file") || str_eq(n, "edit") {
        ToolKind::Edit
    } else if str_eq(n, "patch") || str_eq(n, "apply_patch") {
        ToolKind::Patch
    } else if str_eq(n, "list_dir") {
        ToolKind::ListDir
    } else if str_eq(n, "glob_search") || str_eq(n, "glob") {
        ToolKind::Glob
    } else if str_eq(n, "grep_search") || str_eq(n, "grep") {
        ToolKind::Grep
    } else if str_eq(n, "bash") || str_eq(n, "sh") {
        ToolKind::Bash
    } else if str_eq(n, "question") {
        ToolKind::Question
    } else if str_eq(n, "update_plan") {
        ToolKind::UpdatePlan
    } else if str_eq(n, "task") {
        ToolKind::Task
    } else if str_eq(n, "execute") {
        ToolKind::Execute
    } else if str_eq(n, "webfetch") {
        ToolKind::WebFetch
    } else if str_eq(n, "fetch") {
        ToolKind::Fetch
    } else if str_eq(n, "websearch") {
        ToolKind::WebSearch
    } else if str_eq(n, "search") {
        ToolKind::Search
    } else if str_eq(n, "skill") {
        ToolKind::Skill
    } else {
        ToolKind::Other
    }
}

/// The verb of a finished call of a tool of kind `k`.
pub open spec fn past_verb(k: ToolKind) -> Seq<char> {
    match k {
        ToolKind::Read => "Read"@,
        ToolKind::Write => "Write"@,
        ToolKind::Edit => "Edit"@,
        ToolKind::Patch => "Applied patch"@,
        ToolKind::ListDir => "List"@,
        ToolKind::Glob => "Glob"@,
        ToolKind::Grep => "Grep"@,
        ToolKind::Bash => "Ran"@,
        ToolKind::Question => "Ask"@,
        ToolKind::UpdatePlan => "Updated Plan"@,
        ToolKind::Task => "Task"@,
        ToolKind::Execute => "Execute"@,
        ToolKind::WebFetch => "Fetched"@,
        ToolKind::WebSearch => "Searched"@,
        ToolKind::Skill => "Loaded skill"@,
        _ => "Tool"@,
    }
}

/// The verb of a call of a tool of kind `k` that is still running.
pub open spec fn progressive_verb(k: ToolKind) -> Seq<char> {
    match k {
        ToolKind::Read => "Reading"@,
        ToolKind::Write => "Writing"@,
        ToolKind::Edit => "Editing"@,
        ToolKind::Patch => "Applying patch"@,
        ToolKind::ListDir => "Listing"@,
        ToolKind::Glob => "Running glob_search"@,
        ToolKind::Grep => "Running grep_search"@,
        ToolKind::Bash => "Running"@,
        ToolKind::Question => "Asking"@,
        ToolKind::UpdatePlan => "Updating Plan"@,
        ToolKind::Task => "Delegating"@,
        ToolKind::Execute => "Executing"@,
        ToolKind::WebFetch => "Fetching"@,
        ToolKind::WebSearch => "Searching"@,
        ToolKind::Skill => "Loading skill"@,
        _ => "Running"@,
    }
}

fn past_verb_of(k: ToolKind) -> (s: &'static str)
    ensures
        s@ == past_verb(k),
{
    match k {
        ToolKind::Read => "Read",
        ToolKind::Write => "Write",
        ToolKind::Edit => "Edit",
        ToolKind::Patch => "Applied patch",
        ToolKind::ListDir => "List",
        ToolKind::Glob => "Glob",
        ToolKind::Grep => "Grep",
        ToolKind::Bash => "Ran",
        ToolKind::Question => "Ask",
        ToolKind::UpdatePlan => "Updated Plan",
        ToolKind::Task => "Task",
        ToolKind::Execute => "Execute",
        ToolKind::WebFetch => "Fetched",
        ToolKind::WebSearch => "Searched",
        ToolKind::Skill => "Loaded skill",
        _ => "Tool",
    }
}

fn progressive_verb_of(k: ToolKind) -> (s: &'static str)
    ensures
        s@ == progressive_verb(k),
{
    match k {
        ToolKind::Read => "Reading",
        ToolKind::Write => "Writing",
        ToolKind::Edit => "Editing",
        ToolKind::Patch => "Applying patch",
        ToolKind::ListDir => "Listing",
        ToolKind::Glob => "Running glob_search",
        ToolKind::Grep => "Running grep_search",
        ToolKind::Bash => "Running",
        ToolKind::Question => "Asking",
        ToolKind::UpdatePlan => "Updating Plan",
        ToolKind::Task => "Delegating",
        ToolKind::Execute => "Executing",
        ToolKind::WebFetch => "Fetching",
        ToolKind::WebSearch => "Searching",
        ToolKind::Skill => "Loading skill",
        _ => "Running",
    }
}

/// The text of `o`, or `d` when there is none.
pub open spec fn text_or(o: Option<Seq<char>>, d: Seq<char>) -> Seq<char> {
    match o {
        Some(t) => t,
        None => d,
    }
}

/// The first of three members that `v` has.
pub open spec fn json_get3(v: JsonValue, k1: Seq<char>, k2: Seq<char>, k3: Seq<char>) -> Option<
    JsonValue,
> {
    match json_get(v, k1) {
        Some(x) => Some(x),
        None => json_get2(v, k2, k3),
    }
}

/// The first of four members that `v` has.
pub open spec fn json_get4(
    v: JsonValue,
    k1: Seq<char>,
    k2: Seq<char>,
    k3: Seq<char>,
    k4: Seq<char>,
) -> Option<JsonValue> {
    match json_get(v, k1) {
        Some(x) => Some(x),
        None => json_get3(v, k2, k3, k4),
    }
}

/// The arguments a tool call is read from: arguments given as a string that
/// parses as JSON are read as that JSON; any other arguments as they are.
pub open spec fn effective_args(args: Option<JsonValue>) -> Option<JsonValue> {
    match args {
        Some(JsonValue::String(s)) => match parsed_json(s@) {
            Some(p) => Some(p),
            None => args,
        },
        _ => args,
    }
}

/// The target of an `update_plan` call: its explanation, trimmed, when that
/// is not blank; otherwise the number of its steps.
pub open spec fn plan_target(a: JsonValue) -> Seq<char> {
    let exp = opt_str(json_get(a, "explanation"@));
    if exp is Some && trim(exp->0).len() > 0 {
        trim(exp->0)
    } else {
        match json_get(a, "plan"@) {
            Some(JsonValue::Array(items)) => decimal(items@.len()) + " steps"@,
            _ => Seq::empty(),
        }
    }
}

/// The target of a `task` call: the agent, then the task's description.
pub open spec fn task_target(a: JsonValue) -> Seq<char> {
    let agent = text_or(opt_str(json_get2(a, "subagent_type"@, "agent"@)), "subagent"@);
    let d = text_or(opt_str(json_get2(a, "description"@, "prompt"@)), Seq::empty());
    if d.len() == 0 {
        agent
    } else {
        agent + ": "@ + d
    }
}

/// What a call of tool `name` works on, read from its arguments.
pub open spec fn tool_target(name: Seq<char>, args: Option<JsonValue>) -> Seq<char> {
    match args {
        None => Seq::empty(),
        Some(a) => match tool_kind(name) {
            ToolKind::Read | ToolKind::Write | ToolKind::Edit | ToolKind::Patch => text_or(
                opt_str(json_get3(a, "path"@, "file_path"@, "filePath"@)),
                Seq::empty(),
            ),
            ToolKind::Bash => text_or(opt_str(json_get2(a, "command"@, "cmd"@)), Seq::empty()),
            ToolKind::Question => text_or(opt_str(json_get(a, "question"@)), Seq::empty()),
            ToolKind::UpdatePlan => plan_target(a),
            ToolKind::Glob => text_or(opt_str(json_get2(a, "pattern"@, "query"@)), Seq::empty()),
            ToolKind::Grep => text_or(opt_str(json_get2(a, "query"@, "pattern"@)), Seq::empty()),
            ToolKind::ListDir => text_or(opt_str(json_get(a, "path"@)), "."@),
            ToolKind::WebFetch => text_or(opt_str(json_get(a, "url"@)), Seq::empty()),
            ToolKind::WebSearch => text_or(opt_str(json_get(a, "query"@)), Seq::empty()),
            ToolKind::Skill => text_or(opt_str(json_get(a, "name"@)), Seq::empty()),
            ToolKind::Task => task_target(a),
            ToolKind::Execute => text_or(opt_str(json_get2(a, "command"@, "tool"@)), "execute"@),
            _ => text_or(
                opt_str(json_get4(a, "path"@, "command"@, "query"@, "pattern"@)),
                Seq::empty(),
            ),
        },
    }
}

pub(crate) fn get3<'a>(v: &'a JsonValue, k1: &str, k2: &str, k3: &str) -> (r: Option<&'a JsonValue>)
    ensures
        opt_deref(r) == json_get3(*v, k1@, k2@, k3@),
{
    match get(v, k1) {
        Some(x) => Some(x),
        None => get2(v, k2, k3),
    }
}

fn get4<'a>(v: &'a JsonValue, k1: &str, k2: &str, k3: &str, k4: &str) -> (r: Option<
    &'a JsonValue,
>)
    ensures
        opt_deref(r) == json_get4(*v, k1@, k2@, k3@, k4@),
{
    match get(v, k1) {
        Some(x) => Some(x),
        None => get3(v, k2, k3, k4),
    }
}

/// The text of `v` when it is a string, or `d`.
pub(crate) fn text_of_or(v: Option<&JsonValue>, d: &str) -> (s: String)
    ensures
        s@ == text_or(opt_str(opt_deref(v)), d@),
{
    match opt_as_str(v) {
        Some(t) => t.to_owned(),
        None => d.to_owned(),
    }
}

fn plan_target_of(a: &JsonValue) -> (s: String)
    ensures
        s@ == plan_target(*a),
{
    if let Some(exp) = opt_as_str(get(a, "explanation")) {
        let t = trimmed(exp);
        if !t.as_str().is_empty() {
            return t;
        }
    }
    match get(a, "plan") {
        Some(p) => match as_array(p) {
            Some(items) => {
                let mut s = u64_to_decimal(items.len() as u64);
                string_push_str(&mut s, " steps");
                s
            },
            None => String::new(),
        },
        None => String::new(),
    }
}

pub(crate) fn task_target_of(a: &JsonValue) -> (s: String)
    ensures
        s@ == task_target(*a),
{
    proof {
        reveal_strlit("");
    }
    let mut agent = text_of_or(get2(a, "subagent_type", "agent"), "subagent");
    let d = text_of_or(get2(a, "description", "prompt"), "");
    if d.as_str().is_empty() {
        agent
    } else {
        string_push_str(&mut agent, ": ");
        string_push_str(&mut agent, d.as_str());
        agent
    }
}

/// The verbs and target of a call of tool `name` whose arguments have already
/// been read (see [`effective_args`]): the verb once it has finished, the verb
/// while it runs, and what it works on.
pub fn tool_target_and_verbs_of(name: &str, args: Option<&JsonValue>) -> (r: (
    &'static str,
    &'static str,
    String,
))
    ensures
        r.0@ == past_verb(tool_kind(name@)),
        r.1@ == progressive_verb(tool_kind(name@)),
        r.2@ == tool_target(name@, opt_deref(args)),
{
    proof {
        reveal_strlit("");
    }
    let k = kind_of(name);
    let target = match args {
        None => String::new(),
        Some(a) => match k {
            ToolKind::Read | ToolKind::Write | ToolKind::Edit | ToolKind::Patch => text_of_or(
                get3(a, "path", "file_path", "filePath"),
                "",
            ),
            ToolKind::Bash => text_of_or(get2(a, "command", "cmd"), ""),
            ToolKind::Question => text_of_or(get(a, "question"), ""),
            ToolKind::UpdatePlan => plan_target_of(a),
            ToolKind::Glob => text_of_or(get2(a, "pattern", "query"), ""),
            ToolKind::Grep => text_of_or(get2(a, "query", "pattern"), ""),
            ToolKind::ListDir => text_of_or(get(a, "path"), "."),
            ToolKind::WebFetch => text_of_or(get(a, "url"), ""),
            ToolKind::WebSearch => text_of_or(get(a, "query"), ""),
            ToolKind::Skill => text_of_or(get(a, "name"), ""),
            ToolKind::Task => task_target_of(a),
            ToolKind::Execute => text_of_or(get2(a, "command", "tool"), "execute"),
            _ => text_of_or(get4(a, "path", "command", "query", "pattern"), ""),
        },
    };
    (past_verb_of(k), progressive_verb_of(k), target)
}

/// The arguments of a call as they are read: a string argument is parsed as
/// JSON, and kept as it is when it does not parse.
fn read_args(args: Option<&JsonValue>) -> (r: Option<JsonValue>)
    ensures
        match args {
            Some(JsonValue::String(s)) => r == parsed_json(s@),
            _ => r is None,
        },
{
    match args {
        Some(JsonValue::String(s)) => parse_json(s.as_str()),
        _ => None,
    }
}

/// The verbs and target of a call of tool `name` with arguments `args` (see
/// [`tool_target_and_verbs_of`] and [`effective_args`]).
pub fn tool_target_and_verbs(name: &str, args: Option<&JsonValue>) -> (r: (
    &'static str,
    &'static str,
    String,
))
    ensures
        r.0@ == past_verb(tool_kind(name@)),
        r.1@ == progressive_verb(tool_kind(name@)),
        r.2@ == tool_target(name@, effective_args(opt_deref(args))),
{
    let parsed = read_args(args);
    let effective = match &parsed {
        Some(p) => Some(p),
        None => args,
    };
    tool_target_and_verbs_of(name, effective)
}

// ---------------------------------------------------------------------------
// Questions asked through a tool call
// ---------------------------------------------------------------------------

/// The texts among `items`, in order.
pub open spec fn string_items(items: Seq<JsonValue>) -> Seq<Seq<char>>
    decreases items.len(),
{
    if items.len() == 0 {
        Seq::empty()
    } else {
        let before = string_items(items.drop_last());
        match items.last() {
            JsonValue::String(t) => before.push(t@),
            _ => before,
        }
    }
}

/// The question a `question` call asks: its arguments' `question`, else
/// nothing.
pub open spec fn question_text(args: Option<JsonValue>) -> Seq<char> {
    match effective_args(args) {
        Some(a) => text_or(opt_str(json_get(a, "question"@)), Seq::empty()),
        None => Seq::empty(),
    }
}

/// The answers a `question` call offers: the texts of its arguments'
/// `options`.
pub open spec fn question_options(args: Option<JsonValue>) -> Seq<Seq<char>> {
    match effective_args(args) {
        Some(a) => match json_get(a, "options"@) {
            Some(JsonValue::Array(items)) => string_items(items@),
            _ => Seq::empty(),
        },
        None => Seq::empty(),
    }
}

/// The question and answers a `question` call brings up (see
/// [`question_text`] and [`question_options`]).
pub fn question_of(args: Option<&JsonValue>) -> (r: (String, Vec<String>))
    ensures
        r.0@ == question_text(opt_deref(args)),
        r.1@.map_values(|t: String| t@) == question_options(opt_deref(args)),
{
    let parsed = read_args(args);
    let effective = match &parsed {
        Some(p) => Some(p),
        None => args,
    };
    match effective {
        None => (String::new(), Vec::new()),
        Some(a) => {
            let q = match opt_as_str(get(a, "question")) {
                Some(t) => t.to_owned(),
                None => String::new(),
            };
            let mut options: Vec<String> = Vec::new();
            if let Some(JsonValue::Array(items)) = get(a, "options") {
                let mut i: usize = 0;
                while i < items.len()
                    invariant
                        i <= items@.len(),
                        options@.map_values(|t: String| t@) == string_items(items@.take(i as int)),
                    decreases items@.len() - i,
                {
                    proof {
                        assert(items@.take(i + 1).drop_last() =~= items@.take(i as int));
                        assert(items@.take(i + 1).last() == items@[i as int]);
                    }
                    if let JsonValue::String(t) = &items[i] {
                        let ghost before = options@;
                        options.push(t.clone());
                        assert(options@.map_values(|t: String| t@) =~= before.map_values(|t: String| t@).push(t@));
                    }
                    i = i + 1;
                }
                assert(items@.take(items@.len() as int) =~= items@);
            }
            (q, options)
        },
    }
}

// ---------------------------------------------------------------------------
// Plan steps
// ---------------------------------------------------------------------------

/// The first position at or after `from` where `s` holds `". "`.
pub open spec fn find_dot_space(s: Seq<char>, from: int) -> Option<int>
    decreases s.len() - from,
{
    if from < 0 || from + 1 >= s.len() {
        None
    } else if s[from] == '.' && s[from + 1] == ' ' {
        Some(from)
    } else {
        find_dot_space(s, from + 1)
    }
}

/// A step without the number that a list gives it: `"2. Write tests"` becomes
/// `"Write tests"`; a step with no such number stays as it is.
pub open spec fn clean_step(step: Seq<char>) -> Seq<char> {
    match find_dot_space(step, 0) {
        Some(i) => if i > 0 && all_digits(step.take(i)) {
            trim(step.skip(i + 2))
        } else {
            step
        },
        None => step,
    }
}

/// ASCII lowercase of every character.
pub open spec fn ascii_lower_seq(s: Seq<char>) -> Seq<char> {
    s.map_values(|c: char| ascii_lower(c))
}

/// A step status in one of three spellings (`"pending"`, `"in_progress"`,
/// `"completed"`) where it is a known synonym of one; otherwise as it is.
pub open spec fn normalize_status(s: Seq<char>) -> Seq<char> {
    if s == "todo"@ || s == "open"@ || s == "pending"@ || s == "not_started"@ || s
        == "not-started"@ {
        "pending"@
    } else if s == "in_progress"@ || s == "in-progress"@ || s == "in progress"@ || s == "doing"@
        || s == "active"@ {
        "in_progress"@
    } else if s == "done"@ || s == "completed"@ || s == "complete"@ {
        "completed"@
    } else {
        s
    }
}

/// The status of a plan step: its `status` member (`"pending"` when it has
/// none), trimmed, lowercased and normalized.
pub open spec fn plan_status(item: JsonValue) -> Seq<char> {
    normalize_status(
        ascii_lower_seq(trim(text_or(opt_str(json_get(item, "status"@)), "pending"@))),
    )
}

/// One plan step as `(text, status)`: an object whose `step`, `content` or
/// `title` member (the first it has) is a string that is not blank.
pub open spec fn plan_entry(item: JsonValue) -> Option<(Seq<char>, Seq<char>)> {
    match item {
        JsonValue::Object(_) => match opt_str(json_get3(item, "step"@, "content"@, "title"@)) {
            Some(raw) => if trim(raw).len() == 0 {
                None
            } else {
                Some((clean_step(trim(raw)), plan_status(item)))
            },
            None => None,
        },
        _ => None,
    }
}

/// The steps of a list of plan items, skipping those that are not steps.
pub open spec fn plan_entries(items: Seq<JsonValue>) -> Seq<(Seq<char>, Seq<char>)>
    decreases items.len(),
{
    if items.len() == 0 {
        Seq::empty()
    } else {
        let rest = plan_entries(items.drop_last());
        match plan_entry(items.last()) {
            Some(e) => rest.push(e),
            None => rest,
        }
    }
}

/// The steps of the `plan` array of already-read arguments.
pub open spec fn plan_items(args: Option<JsonValue>) -> Seq<(Seq<char>, Seq<char>)> {
    match args {
        Some(a) => match json_get(a, "plan"@) {
            Some(JsonValue::Array(items)) => plan_entries(items@),
            _ => Seq::empty(),
        },
        None => Seq::empty(),
    }
}

/// The text of each pair of strings.
pub open spec fn pair_views(v: Seq<(String, String)>) -> Seq<(Seq<char>, Seq<char>)> {
    v.map_values(|p: (String, String)| (p.0@, p.1@))
}

fn clean_step_of(step: &str) -> (r: String)
    ensures
        r@ == clean_step(step@),
{
    let v = chars_of(step);
    let mut i: usize = 0;
    while i < v.len() && i + 1 < v.len() && !(v[i] == '.' && v[i + 1] == ' ')
        invariant
            v@ == step@,
            i <= v@.len(),
            find_dot_space(v@, 0) == find_dot_space(v@, i as int),
        decreases v@.len() - i,
    {
        i = i + 1;
    }
    if i >= v.len() || i + 1 >= v.len() {
        return step.to_owned();
    }
    let mut digits = i > 0;
    let mut j: usize = 0;
    while j < i
        invariant
            i < v@.len(),
            j <= i,
            digits == (i > 0 && all_digits(v@.take(j as int))),
        decreases i - j,
    {
        assert(v@.take(j as int + 1) =~= v@.take(j as int).push(v@[j as int]));
        if v[j] < '0' || v[j] > '9' {
            assert(v@.take(j as int + 1)[j as int] == v@[j as int]);
            digits = false;
        } else {
            assert(all_digits(v@.take(j as int + 1)) == all_digits(v@.take(j as int)));
        }
        j = j + 1;
    }
    if digits {
        let rest = sub_vec(&v, i + 2, v.len());
        assert(rest@ =~= v@.skip(i as int + 2));
        let rest_s = string_from_chars(&rest);
        trimmed(rest_s.as_str())
    } else {
        step.to_owned()
    }
}

fn ascii_lowercased(s: &str) -> (r: String)
    ensures
        r@ == ascii_lower_seq(s@),
{
    let v = chars_of(s);
    let mut out = String::new();
    let mut i: usize = 0;
    while i < v.len()
        invariant
            v@ == s@,
            i <= v@.len(),
            out@ == ascii_lower_seq(v@.take(i as int)),
        decreases v@.len() - i,
    {
        assert(ascii_lower_seq(v@.take(i as int + 1)) =~= ascii_lower_seq(v@.take(i as int)).push(
            ascii_lower(v@[i as int]),
        ));
        string_push(&mut out, to_ascii_lowercase(v[i]));
        i = i + 1;
    }
    assert(v@.take(v@.len() as int) =~= v@);
    out
}

fn normalized_status(s: &str) -> (r: String)
    ensures
        r@ == normalize_status(s@),
{
    if str_eq(s, "todo") || str_eq(s, "open") || str_eq(s, "pending") || str_eq(s, "not_started")
        || str_eq(s, "not-started") {
        "pending".to_owned()
    } else if str_eq(s, "in_progress") || str_eq(s, "in-progress") || str_eq(s, "in progress")
        || str_eq(s, "doing") || str_eq(s, "active") {
        "in_progress".to_owned()
    } else if str_eq(s, "done") || str_eq(s, "completed") || str_eq(s, "complete") {
        "completed".to_owned()
    } else {
        s.to_owned()
    }
}

fn plan_entry_of(item: &JsonValue) -> (r: Option<(String, String)>)
    ensures
        match r {
            Some(p) => plan_entry(*item) == Some((p.0@, p.1@)),
            None => plan_entry(*item) is None,
        },
{
    match item {
        JsonValue::Object(_) => {
            match opt_as_str(get3(item, "step", "content", "title")) {
                Some(raw) => {
                    let step = trimmed(raw);
                    if step.as_str().is_empty() {
                        None
                    } else {
                        let text = clean_step_of(step.as_str());
                        let status_raw = text_of_or(get(item, "status"), "pending");
                        let status_trimmed = trimmed(status_raw.as_str());
                        let lowered = ascii_lowercased(status_trimmed.as_str());
                        Some((text, normalized_status(lowered.as_str())))
                    }
                },
                None => None,
            }
        },
        _ => None,
    }
}

/// The steps of the `plan` array of arguments that have already been read
/// (see [`effective_args`]), as `(text, status)` pairs.
pub fn parse_plan_items_of(args: Option<&JsonValue>) -> (r: Vec<(String, String)>)
    ensures
        pair_views(r@) == plan_items(opt_deref(args)),
{
    let mut out: Vec<(String, String)> = Vec::new();
    let a = match args {
        Some(a) => a,
        None => {
            assert(pair_views(out@) =~= Seq::<(Seq<char>, Seq<char>)>::empty());
            return out;
        },
    };
    let items = match get(a, "plan") {
        Some(p) => match as_array(p) {
            Some(items) => items,
            None => {
                assert(pair_views(out@) =~= Seq::<(Seq<char>, Seq<char>)>::empty());
                return out;
            },
        },
        None => {
            assert(pair_views(out@) =~= Seq::<(Seq<char>, Seq<char>)>::empty());
            return out;
        },
    };
    let mut i: usize = 0;
    while i < items.len()
        invariant
            i <= items@.len(),
            plan_items(opt_deref(args)) == plan_entries(items@),
            pair_views(out@) == plan_entries(items@.take(i as int)),
        decreases items@.len() - i,
    {
        assert(items@.take(i as int + 1).drop_last() =~= items@.take(i as int));
        assert(items@.take(i as int + 1).last() == items@[i as int]);
        match plan_entry_of(&items[i]) {
            Some(e) => {
                out.push(e);
                assert(pair_views(out@) =~= pair_views(out@.drop_last()).push(
                    (out@.last().0@, out@.last().1@),
                ));
            },
            None => {},
        }
        i = i + 1;
    }
    assert(items@.take(i as int) =~= items@);
    out
}

/// The steps of the plan in the arguments of an `update_plan` call, as
/// `(text, status)` pairs (see [`parse_plan_items_of`] and
/// [`effective_args`]).
pub fn parse_plan_items(args: Option<&JsonValue>) -> (r: Vec<(String, String)>)
    ensures
        pair_views(r@) == plan_items(effective_args(opt_deref(args))),
{
    let parsed = read_args(args);
    let effective = match &parsed {
        Some(p) => Some(p),
        None => args,
    };
    parse_plan_items_of(effective)
}

} // verus!
