pub mod cells;
pub mod commands;
pub mod dialogs;
pub mod events;
pub mod expansion;
pub mod history;
pub mod json;
pub mod layout;
pub mod laws;
pub mod lines;
pub mod numfmt;
pub mod prompt;
pub mod runtime;
pub mod search;
pub mod session_stash;
pub mod shell_card;
pub mod stream;
pub mod strings;
pub mod suggestions;
pub mod text;
pub mod tool_args;
pub mod tool_rows;
pub mod tool_table;
pub mod tools;
pub mod transcript;
pub mod transcript_lines;
pub mod turn_view;
pub mod utf8;
