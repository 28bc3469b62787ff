//! Terminal input events and the bounded queue that coalesces them between
//! frames: quit and cancel are latched flags, stream text is merged into one
//! bounded buffer, and other events are kept up to the queue's capacity,
//! dropping the oldest.
use std::collections::VecDeque;

use vstd::prelude::*;
use vstd::string::StringSliceAdditionalSpecFns;
use vstd::utf8::*;

use crate::strings::{string_clear, string_push_str};
use crate::text::{floor_boundary, floor_char_boundary};
use crate::utf8::{lemma_encode_utf8_concat, utf8_len};

verus! {

broadcast use {vstd::utf8::group_utf8_lib, vstd::string::group_string_axioms};

/// A key or pointer action of the user.
#[derive(Debug, Clone, Copy, PartialEq, Eq, Structural)]
pub enum Input {
    Quit,
    Cancel,
    Clear,
    Character(char),
    Paste,
    Backspace,
    Submit,
    ToggleMode,
    Up,
    Down,
    Left,
    Right,
    ScrollUp,
    ScrollDown,
    PageUp,
    PageDown,
    Home,
    End,
    WhichKey,
    Click { column: u16, row: u16 },
}

/// One event delivered to the interface.
#[derive(Debug, Clone, PartialEq, Eq)]
pub enum UiEvent {
    Input(Input),
    Resize { width: u16, height: u16 },
    StreamDelta(String),
    Paste(String),
    MouseClick { x: u16, y: u16 },
}

/// Most bytes of streamed text the queue holds between two drains.
pub const MAX_COALESCED_STREAM_BYTES: usize = 65536;

/// Coalescing event queue; see the module documentation.
#[derive(Debug)]
pub struct UiEventQueue {
    capacity: usize,
    quit: bool,
    cancel: bool,
    events: VecDeque<UiEvent>,
    delta: String,
}

/// The contents of a [`UiEventQueue`].
pub struct QueueView {
    pub capacity: nat,
    pub quit: bool,
    pub cancel: bool,
    pub events: Seq<UiEvent>,
    pub delta: Seq<char>,
}

impl View for UiEventQueue {
    type V = QueueView;

    closed spec fn view(&self) -> QueueView {
        QueueView {
            capacity: self.capacity as nat,
            quit: self.quit,
            cancel: self.cancel,
            events: self.events@,
            delta: self.delta@,
        }
    }
}

impl QueueView {
    /// How many ordinary events the queue keeps: the capacity less the three
    /// slots reserved for quit, cancel and the stream buffer.
    pub open spec fn max_events(self) -> nat {
        (self.capacity - 3) as nat
    }

    /// The queue's invariant.
    pub open spec fn wf(self) -> bool {
        &&& self.capacity >= 3
        &&& self.events.len() <= self.max_events()
        &&& utf8_len(self.delta) <= MAX_COALESCED_STREAM_BYTES
    }

    /// Number of pending entries: the two flags, the ordinary events, and the
    /// stream buffer when it is not empty.
    pub open spec fn pending(self) -> nat {
        (if self.quit {
            1nat
        } else {
            0nat
        }) + (if self.cancel {
            1nat
        } else {
            0nat
        }) + self.events.len() + (if self.delta.len() > 0 {
            1nat
        } else {
            0nat
        })
    }

    /// The ordinary events after `event` is queued: the oldest is dropped when
    /// the queue is full, and nothing is kept when no slot is left for events.
    pub open spec fn events_after_push(self, event: UiEvent) -> Seq<UiEvent> {
        if self.max_events() == 0 {
            self.events
        } else if self.events.len() >= self.max_events() {
            self.events.drop_first().push(event)
        } else {
            self.events.push(event)
        }
    }
}

/// How much of a stream chunk `d` fits after `delta`: its longest prefix that
/// ends on a character boundary and keeps the buffer within the byte limit.
pub open spec fn stream_prefix_bytes(delta: Seq<char>, d: Seq<char>) -> int {
    let remaining = if utf8_len(delta) <= MAX_COALESCED_STREAM_BYTES {
        MAX_COALESCED_STREAM_BYTES - utf8_len(delta)
    } else {
        0
    };
    floor_boundary(encode_utf8(d), remaining)
}

/// The first `end` bytes of `s`, which must end on a character boundary.
fn byte_prefix(s: &str, end: usize) -> (p: &str)
    requires
        end <= encode_utf8(s@).len(),
        is_char_boundary(encode_utf8(s@), end as int),
    ensures
        encode_utf8(p@) == encode_utf8(s@).take(end as int),
        p@ == s@.take(p@.len() as int),
{
    let (head, _tail) = s.split_at(end);
    proof {
        let bytes = encode_utf8(s@);
        decode_utf8_split(bytes, end as int);
        assert(bytes.take(end as int) =~= bytes.subrange(0, end as int));
        assert(decode_utf8(encode_utf8(head@)) == head@);
        assert(s@ =~= head@ + decode_utf8(bytes.subrange(end as int, bytes.len() as int)));
        assert(s@.take(head@.len() as int) =~= head@);
    }
    head
}

impl UiEventQueue {
    /// A queue of the given capacity, raised to at least 3.
    pub fn new(capacity: usize) -> (q: Self)
        ensures
            q@.wf(),
            q@.capacity == if capacity < 3 {
                3
            } else {
                capacity
            },
            !q@.quit,
            !q@.cancel,
            q@.events.len() == 0,
            q@.delta.len() == 0,
    {
        let capacity = if capacity < 3 {
            3
        } else {
            capacity
        };
        UiEventQueue {
            capacity,
            quit: false,
            cancel: false,
            events: VecDeque::new(),
            delta: String::new(),
        }
    }

    /// Queues `event`: quit and cancel set their flags, stream text is
    /// appended to the stream buffer up to its byte limit, and any other event
    /// joins the ordinary events (dropping the oldest when they are full).
    pub fn push(&mut self, event: UiEvent)
        requires
            old(self)@.wf(),
        ensures
            final(self)@.wf(),
            final(self)@.capacity == old(self)@.capacity,
            match event {
                UiEvent::Input(Input::Quit) => {
                    &&& final(self)@.quit
                    &&& final(self)@.cancel == old(self)@.cancel
                    &&& final(self)@.events == old(self)@.events
                    &&& final(self)@.delta == old(self)@.delta
                },
                UiEvent::Input(Input::Cancel) => {
                    &&& final(self)@.quit == old(self)@.quit
                    &&& final(self)@.cancel
                    &&& final(self)@.events == old(self)@.events
                    &&& final(self)@.delta == old(self)@.delta
                },
                UiEvent::StreamDelta(d) => {
                    &&& final(self)@.quit == old(self)@.quit
                    &&& final(self)@.cancel == old(self)@.cancel
                    &&& final(self)@.events == old(self)@.events
                    &&& encode_utf8(final(self)@.delta) == encode_utf8(old(self)@.delta)
                        + encode_utf8(d@).take(stream_prefix_bytes(old(self)@.delta, d@))
                    &&& final(self)@.delta == old(self)@.delta + d@.take(
                        (final(self)@.delta.len() - old(self)@.delta.len()) as int,
                    )
                },
                _ => {
                    &&& final(self)@.quit == old(self)@.quit
                    &&& final(self)@.cancel == old(self)@.cancel
                    &&& final(self)@.events == old(self)@.events_after_push(event)
                    &&& final(self)@.delta == old(self)@.delta
                },
            },
    {
        match event {
            UiEvent::Input(Input::Quit) => self.quit = true,
            UiEvent::Input(Input::Cancel) => self.cancel = true,
            UiEvent::StreamDelta(delta) => {
                let used = self.delta.as_str().as_bytes().len();
                let remaining = MAX_COALESCED_STREAM_BYTES.saturating_sub(used);
                let dlen = delta.as_str().as_bytes().len();
                let end = floor_char_boundary(delta.as_str(), if remaining < dlen {
                    remaining
                } else {
                    dlen
                });
                let ghost before = self.delta@;
                let piece = byte_prefix(delta.as_str(), end);
                string_push_str(&mut self.delta, piece);
                proof {
                    lemma_encode_utf8_concat(before, piece@);
                    // the rounding of min(remaining, len) equals that of remaining
                    assert(floor_boundary(encode_utf8(delta@), remaining as int) == end) by {
                        if remaining >= dlen {
                            assert(floor_boundary(encode_utf8(delta@), remaining as int)
                                == floor_boundary(encode_utf8(delta@), dlen as int));
                        }
                    }
                    assert(self.delta@ == before + piece@);
                    assert(piece@.len() == self.delta@.len() - before.len());
                }
            },
            event => {
                let max_events = self.capacity - 3;
                let ghost before = self.events@;
                if max_events > 0 {
                    if self.events.len() >= max_events {
                        self.events.pop_front();
                    }
                    self.events.push_back(event);
                }
                assert(self.events@ == old(self)@.events_after_push(event));
            },
        }
    }

    /// Number of pending entries (see [`QueueView::pending`]); never more than
    /// the capacity.
    pub fn len(&self) -> (n: usize)
        requires
            self@.wf(),
        ensures
            n == self@.pending(),
            n <= self@.capacity,
    {
        let q: usize = if self.quit {
            1
        } else {
            0
        };
        let c: usize = if self.cancel {
            1
        } else {
            0
        };
        let d: usize = if self.delta.as_str().is_empty() {
            0
        } else {
            1
        };
        q + c + self.events.len() + d
    }

    /// Whether nothing is pending.
    pub fn is_empty(&self) -> (b: bool)
        requires
            self@.wf(),
        ensures
            b == (self@.pending() == 0),
    {
        self.len() == 0
    }

    /// The capacity the queue was made with (at least 3).
    pub fn capacity(&self) -> (c: usize)
        ensures
            c == self@.capacity,
    {
        self.capacity
    }

    /// Takes the most urgent latched input: quit before cancel.
    pub fn pop_priority(&mut self) -> (r: Option<UiEvent>)
        requires
            old(self)@.wf(),
        ensures
            final(self)@.wf(),
            final(self)@.capacity == old(self)@.capacity,
            final(self)@.events == old(self)@.events,
            final(self)@.delta == old(self)@.delta,
            old(self)@.quit ==> r == Some(UiEvent::Input(Input::Quit)) && !final(self)@.quit
                && final(self)@.cancel == old(self)@.cancel,
            !old(self)@.quit && old(self)@.cancel ==> r == Some(UiEvent::Input(Input::Cancel))
                && !final(self)@.quit && !final(self)@.cancel,
            !old(self)@.quit && !old(self)@.cancel ==> r is None && !final(self)@.quit
                && !final(self)@.cancel,
    {
        if self.quit {
            self.quit = false;
            Some(UiEvent::Input(Input::Quit))
        } else if self.cancel {
            self.cancel = false;
            Some(UiEvent::Input(Input::Cancel))
        } else {
            None
        }
    }

    /// Takes the ordinary events, oldest first, followed by the buffered
    /// stream text as one `StreamDelta` when there is any. The flags stay.
    pub fn drain(&mut self) -> (r: Vec<UiEvent>)
        requires
            old(self)@.wf(),
        ensures
            final(self)@.wf(),
            final(self)@.capacity == old(self)@.capacity,
            final(self)@.quit == old(self)@.quit,
            final(self)@.cancel == old(self)@.cancel,
            final(self)@.events.len() == 0,
            final(self)@.delta.len() == 0,
            old(self)@.delta.len() == 0 ==> r@ == old(self)@.events,
            old(self)@.delta.len() > 0 ==> r@.len() == old(self)@.events.len() + 1 && r@.take(
                old(self)@.events.len() as int,
            ) == old(self)@.events && (r@.last() matches UiEvent::StreamDelta(d) && d@
                == old(self)@.delta),
    {
        let mut drained: Vec<UiEvent> = Vec::new();
        let ghost orig = self.events@;
        while self.events.len() > 0
            invariant
                drained@ + self.events@ == orig,
                self.capacity == old(self).capacity,
                self.quit == old(self).quit,
                self.cancel == old(self).cancel,
                self.delta@ == old(self).delta@,
                old(self)@.wf(),
                orig == old(self)@.events,
            decreases self.events@.len(),
        {
            let ghost before = self.events@;
            let e = self.events.pop_front();
            match e {
                Some(e) => {
                    drained.push(e);
                    assert(drained@ + self.events@ =~= orig);
                },
                None => {},
            }
        }
        assert(drained@ =~= orig);
        if !self.delta.as_str().is_empty() {
            let mut taken = String::new();
            std::mem::swap(&mut taken, &mut self.delta);
            drained.push(UiEvent::StreamDelta(taken));
            assert(drained@.take(orig.len() as int) =~= orig);
        }
        drained
    }

    /// Forgets everything pending.
    pub fn clear(&mut self)
        requires
            old(self)@.wf(),
        ensures
            final(self)@.wf(),
            final(self)@.capacity == old(self)@.capacity,
            !final(self)@.quit,
            !final(self)@.cancel,
            final(self)@.events.len() == 0,
            final(self)@.delta.len() == 0,
    {
        self.quit = false;
        self.cancel = false;
        self.events.clear();
        string_clear(&mut self.delta);
    }
}

/// `r` holds the ordinary events of `q`, oldest first, followed by its
/// buffered stream text as one `StreamDelta` when there is any.
pub open spec fn drained_from(r: Seq<UiEvent>, q: QueueView) -> bool {
    &&& q.delta.len() == 0 ==> r == q.events
    &&& q.delta.len() > 0 ==> r.len() == q.events.len() + 1 && r.take(q.events.len() as int)
        == q.events && (r.last() matches UiEvent::StreamDelta(d) && d@ == q.delta)
}

/// Nothing is pending in `q`.
pub open spec fn emptied(q: QueueView) -> bool {
    !q.quit && !q.cancel && q.events.len() == 0 && q.delta.len() == 0
}

impl UiEventQueue {
    /// Takes what is to be handled now, in order: an urgent input first
    /// (quit before cancel), then the ordinary events and buffered stream
    /// text; but a cancel, or a quit that closes the app (`quit_closes_app`),
    /// drops everything else pending. `None` when nothing was pending.
    pub fn take_pending(&mut self, quit_closes_app: bool) -> (r: Option<Vec<UiEvent>>)
        requires
            old(self)@.wf(),
        ensures
            final(self)@.wf(),
            final(self)@.capacity == old(self)@.capacity,
            match r {
                None => emptied(old(self)@) && final(self)@ == old(self)@,
                Some(v) => if old(self)@.quit {
                    &&& v@.len() > 0 && v@[0] == UiEvent::Input(Input::Quit)
                    &&& if quit_closes_app {
                        v@.len() == 1 && emptied(final(self)@)
                    } else {
                        &&& drained_from(v@.drop_first(), old(self)@)
                        &&& final(self)@.cancel == old(self)@.cancel
                        &&& !final(self)@.quit
                        &&& final(self)@.events.len() == 0
                        &&& final(self)@.delta.len() == 0
                    }
                } else if old(self)@.cancel {
                    v@ == seq![UiEvent::Input(Input::Cancel)] && emptied(final(self)@)
                } else {
                    &&& v@.len() > 0
                    &&& drained_from(v@, old(self)@)
                    &&& emptied(final(self)@)
                },
            },
    {
        match self.pop_priority() {
            None => {
                if self.events.len() == 0 && self.delta.as_str().is_empty() {
                    assert(self@.events =~= old(self)@.events);
                    assert(self@ == old(self)@);
                    return None;
                }
                let batch = self.drain();
                Some(batch)
            },
            Some(event) => {
                let ends = match event {
                    UiEvent::Input(Input::Quit) => quit_closes_app,
                    UiEvent::Input(Input::Cancel) => true,
                    _ => false,
                };
                let mut out: Vec<UiEvent> = Vec::new();
                out.push(event);
                if ends {
                    self.clear();
                } else {
                    let mut rest = self.drain();
                    let ghost first = out@;
                    let ghost rest_view = rest@;
                    out.append(&mut rest);
                    assert(out@.drop_first() =~= rest_view) by {
                        assert(out@ =~= first + rest_view);
                    }
                }
                Some(out)
            },
        }
    }
}


/// What a key that no dialog took does, besides editing the prompt.
#[derive(Debug, Clone, Copy, PartialEq, Eq, Structural)]
pub enum ScreenKey {
    /// Leave the program.
    Exit,
    /// Close the session panel (quit closes it before it leaves).
    CloseSessionPanel,
    /// Cancel the turn: its generation is ignored from now on.
    CancelTurn,
    /// Stop the turn and clear the screen.
    ClearScreen,
    /// Insert the clipboard's text at the cursor.
    PasteClipboard,
    /// Scroll the transcript to this many lines above its bottom.
    ScrollTo(u16),
    /// Send the prompt.
    Submit,
    /// Show or hide the shortcut sheet.
    ToggleWhichKey,
    /// A click at this cell.
    Click { column: u16, row: u16 },
    /// A key for the prompt editor.
    Edit,
}

/// The transcript's scroll after moving `lines` up (towards older text),
/// held at the largest `u16`.
pub open spec fn scrolled_up(scroll: u16, lines: u16) -> u16 {
    if scroll + lines > u16::MAX {
        u16::MAX
    } else {
        (scroll + lines) as u16
    }
}

/// The transcript's scroll after moving `lines` down, held at the bottom.
pub open spec fn scrolled_down(scroll: u16, lines: u16) -> u16 {
    if scroll > lines {
        (scroll - lines) as u16
    } else {
        0
    }
}

/// What `input` does on the main screen with the session panel open or not
/// and the transcript scrolled `scroll` lines up: quit leaves, or first
/// closes the panel; wheel steps move three lines and page keys fifteen.
pub open spec fn screen_key_of(input: Input, panel_open: bool, scroll: u16) -> ScreenKey {
    match input {
        Input::Quit => if panel_open {
            ScreenKey::CloseSessionPanel
        } else {
            ScreenKey::Exit
        },
        Input::Cancel => ScreenKey::CancelTurn,
        Input::Clear => ScreenKey::ClearScreen,
        Input::Paste => ScreenKey::PasteClipboard,
        Input::ScrollUp => ScreenKey::ScrollTo(scrolled_up(scroll, 3)),
        Input::ScrollDown => ScreenKey::ScrollTo(scrolled_down(scroll, 3)),
        Input::PageUp => ScreenKey::ScrollTo(scrolled_up(scroll, 15)),
        Input::PageDown => ScreenKey::ScrollTo(scrolled_down(scroll, 15)),
        Input::Submit => ScreenKey::Submit,
        Input::WhichKey => ScreenKey::ToggleWhichKey,
        Input::Click { column, row } => ScreenKey::Click { column, row },
        _ => ScreenKey::Edit,
    }
}

/// What `input` does on the main screen (see [`screen_key_of`]).
pub fn screen_key(input: Input, panel_open: bool, scroll: u16) -> (r: ScreenKey)
    ensures
        r == screen_key_of(input, panel_open, scroll),
{
    match input {
        Input::Quit => if panel_open {
            ScreenKey::CloseSessionPanel
        } else {
            ScreenKey::Exit
        },
        Input::Cancel => ScreenKey::CancelTurn,
        Input::Clear => ScreenKey::ClearScreen,
        Input::Paste => ScreenKey::PasteClipboard,
        Input::ScrollUp => ScreenKey::ScrollTo(scroll.saturating_add(3)),
        Input::ScrollDown => ScreenKey::ScrollTo(scroll.saturating_sub(3)),
        Input::PageUp => ScreenKey::ScrollTo(scroll.saturating_add(15)),
        Input::PageDown => ScreenKey::ScrollTo(scroll.saturating_sub(15)),
        Input::Submit => ScreenKey::Submit,
        Input::WhichKey => ScreenKey::ToggleWhichKey,
        Input::Click { column, row } => ScreenKey::Click { column, row },
        _ => ScreenKey::Edit,
    }
}

} // verus!
