//! Tool calls as the transcript shows them: their lifecycle states, which
//! tool names are aliases of one another, and the one-line summary of a
//! successful call's output.
use vstd::prelude::*;
use vstd::string::StringSliceAdditionalSpecFns;
use vstd::utf8::encode_utf8;

use crate::lines::{
    count_numbered_result_lines, line_count, lines, numbered_result_line_count,
};
use crate::numfmt::{decimal, u64_to_decimal};
use crate::search::{seq_contains, str_contains, str_eq, str_starts_with};
use crate::strings::{string_push, string_push_str};
use crate::text::{starts_with, trim};
use crate::utf8::utf8_len;

verus! {

broadcast use vstd::string::group_string_axioms;

/// Where a tool call is in its lifecycle.
#[derive(Debug, Clone, Copy, PartialEq, Eq, Structural)]
pub enum ToolRowState {
    Pending,
    Running,
    Completed,
    Failed,
}

#[verifier::external_type_specification]
#[verifier::external_body]
pub struct ExInstant(std::time::Instant);

/// `Instant` is `Copy`; cloning one gives the same instant.
pub assume_specification[ <std::time::Instant as Clone>::clone ](i: &std::time::Instant) -> (r:
    std::time::Instant)
    ensures
        r == *i,
;

/// The tool call currently in progress.
#[derive(Debug, Clone, PartialEq, Eq)]
pub struct ActiveToolInfo {
    pub name: String,
    pub desc: String,
    pub started_at: std::time::Instant,
}

/// The alias family of a tool name (0 when the name has no aliases).
pub open spec fn tool_family(n: Seq<char>) -> int {
    if n == "grep_search"@ || n == "grep"@ {
        1
    } else if n == "glob_search"@ || n == "glob"@ {
        2
    } else if n == "read_file"@ || n == "read"@ {
        3
    } else if n == "write_file"@ || n == "write"@ {
        4
    } else if n == "edit_file"@ || n == "edit"@ || n == "patch"@ || n == "apply_patch"@ {
        5
    } else if n == "bash"@ || n == "sh"@ {
        6
    } else {
        0
    }
}

/// Two tool names denote the same tool: equal, or aliases in one family.
pub open spec fn same_tool(a: Seq<char>, b: Seq<char>) -> bool {
    a == b || (tool_family(a) != 0 && tool_family(a) == tool_family(b))
}

fn family_of(n: &str) -> (f: u8)
    ensures
        f as int == tool_family(n@),
{
    if str_eq(n, "grep_search") || str_eq(n, "grep") {
        1
    } else if str_eq(n, "glob_search") || str_eq(n, "glob") {
        2
    } else if str_eq(n, "read_file") || str_eq(n, "read") {
        3
    } else if str_eq(n, "write_file") || str_eq(n, "write") {
        4
    } else if str_eq(n, "edit_file") || str_eq(n, "edit") || str_eq(n, "patch") || str_eq(
        n,
        "apply_patch",
    ) {
        5
    } else if str_eq(n, "bash") || str_eq(n, "sh") {
        6
    } else {
        0
    }
}

/// Whether `a` and `b` name the same tool (see [`same_tool`]).
pub fn tool_names_match(a: &str, b: &str) -> (r: bool)
    ensures
        r == same_tool(a@, b@),
{
    if str_eq(a, b) {
        return true;
    }
    let fa = family_of(a);
    fa != 0 && fa == family_of(b)
}

/// `"<n> <unit>"`.
pub open spec fn count_with_unit(n: nat, unit: Seq<char>) -> Seq<char> {
    decimal(n) + seq![' '] + unit
}

/// `"1 <one>"` for one, `"<n> <many>"` otherwise.
pub open spec fn plural(n: nat, one: Seq<char>, many: Seq<char>) -> Seq<char> {
    if n == 1 {
        one
    } else {
        count_with_unit(n, many)
    }
}

/// The one-line summary shown when tool `name` succeeded with `output`.
pub open spec fn success_detail(name: Seq<char>, output: Seq<char>) -> Seq<char> {
    let n = lines(output).len();
    let t = trim(output);
    if name == "read_file"@ || name == "read"@ {
        plural(n, "1 line"@, "lines"@)
    } else if name == "grep_search"@ || name == "grep"@ {
        if n == 0 || t.len() == 0 {
            "0 matches"@
        } else {
            plural(n, "1 line"@, "lines"@)
        }
    } else if name == "glob_search"@ || name == "glob"@ {
        "succeeded"@
    } else if name == "list_dir"@ {
        plural(n, "1 entry"@, "entries"@)
    } else if name == "write_file"@ || name == "write"@ {
        if starts_with(t, "Successfully wrote"@) {
            t
        } else if n <= 1 {
            if t.len() > 0 && utf8_len(t) < 80 {
                t
            } else {
                "succeeded"@
            }
        } else {
            count_with_unit(n, "lines"@)
        }
    } else if name == "edit_file"@ || name == "edit"@ || name == "patch"@ || name
        == "apply_patch"@ {
        "succeeded"@
    } else if name == "bash"@ || name == "sh"@ {
        if t.len() == 0 {
            "succeeded"@
        } else if n == 1 && utf8_len(t) < 60 {
            t
        } else {
            count_with_unit(n, "lines"@)
        }
    } else if name == "question"@ {
        "answered"@
    } else if name == "update_plan"@ {
        if t.len() > 0 {
            t
        } else {
            "Plan updated"@
        }
    } else if name == "webfetch"@ {
        plural(n, "1 line"@, "lines"@)
    } else if name == "websearch"@ {
        let c = count_numbered_result_lines(lines(output));
        if c == 0 {
            if seq_contains(output, "0 results"@) || seq_contains(output, "No search results"@)
                || seq_contains(output, "No results"@) {
                "0 results"@
            } else {
                "succeeded"@
            }
        } else {
            plural(c, "1 result"@, "results"@)
        }
    } else if name == "skill"@ {
        "skill loaded successfully"@
    } else {
        if n <= 1 && utf8_len(t) < 60 && t.len() > 0 {
            t
        } else if n > 1 {
            count_with_unit(n, "lines"@)
        } else {
            "succeeded"@
        }
    }
}

fn count_text(n: usize, unit: &str) -> (s: String)
    ensures
        s@ == count_with_unit(n as nat, unit@),
{
    let mut s = u64_to_decimal(n as u64);
    string_push(&mut s, ' ');
    string_push_str(&mut s, unit);
    s
}

fn plural_text(n: usize, one: &str, many: &str) -> (s: String)
    ensures
        s@ == plural(n as nat, one@, many@),
{
    if n == 1 {
        one.to_owned()
    } else {
        count_text(n, many)
    }
}

/// One-line summary of a successful tool call (see [`success_detail`]).
pub fn format_tool_success_detail(name: &str, output: &str) -> (s: String)
    ensures
        s@ == success_detail(name@, output@),
{
    let n = line_count(output);
    let t = crate::lines::trimmed(output);
    let t_bytes = t.as_str().as_bytes().len();
    let t_empty = t.as_str().is_empty();
    assert(t_bytes == utf8_len(t@));
    if str_eq(name, "read_file") || str_eq(name, "read") {
        plural_text(n, "1 line", "lines")
    } else if str_eq(name, "grep_search") || str_eq(name, "grep") {
        if n == 0 || t_empty {
            "0 matches".to_owned()
        } else {
            plural_text(n, "1 line", "lines")
        }
    } else if str_eq(name, "glob_search") || str_eq(name, "glob") {
        "succeeded".to_owned()
    } else if str_eq(name, "list_dir") {
        plural_text(n, "1 entry", "entries")
    } else if str_eq(name, "write_file") || str_eq(name, "write") {
        if str_starts_with(t.as_str(), "Successfully wrote") {
            t
        } else if n <= 1 {
            if !t_empty && t_bytes < 80 {
                t
            } else {
                "succeeded".to_owned()
            }
        } else {
            count_text(n, "lines")
        }
    } else if str_eq(name, "edit_file") || str_eq(name, "edit") || str_eq(name, "patch")
        || str_eq(name, "apply_patch") {
        "succeeded".to_owned()
    } else if str_eq(name, "bash") || str_eq(name, "sh") {
        if t_empty {
            "succeeded".to_owned()
        } else if n == 1 && t_bytes < 60 {
            t
        } else {
            count_text(n, "lines")
        }
    } else if str_eq(name, "question") {
        "answered".to_owned()
    } else if str_eq(name, "update_plan") {
        if !t_empty {
            t
        } else {
            "Plan updated".to_owned()
        }
    } else if str_eq(name, "webfetch") {
        plural_text(n, "1 line", "lines")
    } else if str_eq(name, "websearch") {
        let c = numbered_result_line_count(output);
        if c == 0 {
            if str_contains(output, "0 results") || str_contains(output, "No search results")
                || str_contains(output, "No results") {
                "0 results".to_owned()
            } else {
                "succeeded".to_owned()
            }
        } else {
            plural_text(c, "1 result", "results")
        }
    } else if str_eq(name, "skill") {
        "skill loaded successfully".to_owned()
    } else {
        if n <= 1 && t_bytes < 60 && !t_empty {
            t
        } else if n > 1 {
            count_text(n, "lines")
        } else {
            "succeeded".to_owned()
        }
    }
}

} // verus!
