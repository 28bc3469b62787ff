# clawcode_tui

What the Clawcode terminal workbench decides, as a library verified with
Verus: the prompt editor, its completions and what a submitted prompt asks
for, the dialogs, how keys move through them and what each list shows, the
tool-call rows of the transcript and the text shown for them, the
transcript's size limits and how it reads as lines on screen, streamed reply
parts, the event queue between the runtime and the interface, how a runtime
event is filtered, what it changes in the conversation's state and what it
then does to the turn on screen (tool rows, streamed parts, transcript,
reasoning, plan), what a turn event does, where a click lands, how a
session's view is kept and restored on a switch, and how its stored messages
come back. The interface's drawing, the clock, the clipboard, the repository
and the runtime's channels are not here.

Layout:

- `src/` — the verified library. Each module states its behaviour as
  `requires`/`ensures` contracts over spec functions; `src/laws.rs` holds the
  properties that span several operations, as proof functions.
- `tests/` — tests of the library on concrete values.
- `app/` — ordinary Rust around the library: JSON read with `serde_json` into
  the library's values, the lines and dialog rows the library describes
  drawn as styled `ratatui` lines, and the live screen (`app/live.rs`) that
  takes runtime events off their channel, routes keys through the dialogs
  and the prompt editor, keeps time, types streamed text out and runs the
  git panel's requests against the repository.

Calls into `ratatui` (the cell width of text) and `serde_json` (parsing) that
the logic needs stand behind small trusted wrappers whose contracts name what
they return; everything built on them is verified.
