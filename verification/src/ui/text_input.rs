//! The editing state of a text field: cursor, caret blinking and the debounce
//! of cursor keys.

use vstd::prelude::*;

use crate::timer::{spec_update, Timer, TimerState, MAX_DURATION_NANOS};

verus! {

/// Half a second, the blink period of the caret.
pub const CARET_PERIOD_NANOS: u128 = 500_000_000;

/// A tenth of a second, the repeat period of cursor keys.
pub const CURSOR_DEBOUNCE_NANOS: u128 = 100_000_000;

/// The editing keys a text field handles.
#[derive(Debug, Clone, Copy, PartialEq, Eq, Structural)]
pub enum EditKey {
    ArrowLeft,
    ArrowRight,
    Home,
    End,
    Backspace,
    Delete,
}

/// The editing state of a text field.
#[derive(Debug, Clone)]
pub struct TextInputState {
    /// Byte offset of the cursor in the text.
    pub cursor: usize,
    pub caret_timer: Timer,
    pub show_caret: bool,
    pub cursor_debounce: Timer,
    /// Cursor keys take effect; cleared by each cursor key until the
    /// debounce timer fires.
    pub can_move: bool,
}

impl Default for TextInputState {
    fn default() -> (r: Self)
        ensures
            r.cursor == 0,
            r.caret_timer@ == (TimerState {
                target: CARET_PERIOD_NANOS,
                elapsed: 0,
                repeat: true,
                just_finished: false,
            }),
            !r.show_caret,
            r.cursor_debounce@ == (TimerState {
                target: CURSOR_DEBOUNCE_NANOS,
                elapsed: 0,
                repeat: true,
                just_finished: false,
            }),
            r.can_move,
    {
        TextInputState {
            cursor: 0,
            caret_timer: Timer::new(CARET_PERIOD_NANOS, true),
            show_caret: false,
            cursor_debounce: Timer::new(CURSOR_DEBOUNCE_NANOS, true),
            can_move: true,
        }
    }
}

/// The cursor after `key` in a text of `len` bytes, and the byte that the
/// key deletes, if any. With control held, the arrows jump to the ends.
pub open spec fn spec_edit(cursor: usize, len: usize, key: EditKey, ctrl: bool) -> (usize, Option<usize>) {
    match key {
        EditKey::ArrowLeft => if ctrl {
            (0, None)
        } else if cursor > 0 {
            ((cursor - 1) as usize, None)
        } else {
            (0, None)
        },
        EditKey::ArrowRight => if ctrl {
            (len, None)
        } else if cursor + 1 < len {
            ((cursor + 1) as usize, None)
        } else {
            (len, None)
        },
        EditKey::Home => (0, None),
        EditKey::End => (len, None),
        EditKey::Backspace => if cursor > 0 {
            ((cursor - 1) as usize, Some((cursor - 1) as usize))
        } else {
            (cursor, None)
        },
        EditKey::Delete => if cursor < len {
            (cursor, Some(cursor))
        } else {
            (cursor, None)
        },
    }
}

impl TextInputState {
    /// A field whose cursor starts at `cursor`.
    pub fn with_cursor(cursor: usize) -> (r: Self)
        ensures
            r.cursor == cursor,
            r.can_move,
            !r.show_caret,
    {
        let mut s = TextInputState::default();
        s.cursor = cursor;
        s
    }

    /// Keep the cursor within a text of `len` bytes.
    pub fn clamp_cursor(&mut self, len: usize)
        ensures
            final(self).cursor == if old(self).cursor < len {
                old(self).cursor
            } else {
                len
            },
            final(self).can_move == old(self).can_move,
            final(self).show_caret == old(self).show_caret,
            final(self).caret_timer@ == old(self).caret_timer@,
            final(self).cursor_debounce@ == old(self).cursor_debounce@,
    {
        if self.cursor > len {
            self.cursor = len;
        }
    }

    /// Let `dt` nanoseconds pass: the caret blinks each time its timer fires,
    /// and cursor keys take effect again when the debounce timer fires.
    pub fn tick(&mut self, dt: u128)
        requires
            old(self).caret_timer@.elapsed + dt <= MAX_DURATION_NANOS,
            old(self).cursor_debounce@.elapsed + dt <= MAX_DURATION_NANOS,
        ensures
            final(self).caret_timer@ == spec_update(old(self).caret_timer@, dt),
            final(self).cursor_debounce@ == spec_update(old(self).cursor_debounce@, dt),
            final(self).can_move == (old(self).can_move || spec_update(
                old(self).cursor_debounce@,
                dt,
            ).just_finished),
            final(self).show_caret == (old(self).show_caret != spec_update(
                old(self).caret_timer@,
                dt,
            ).just_finished),
            final(self).cursor == old(self).cursor,
    {
        self.caret_timer.update(dt);
        self.cursor_debounce.update(dt);
        if self.cursor_debounce.just_finished() {
            self.can_move = true;
        }
        if self.caret_timer.just_finished() {
            self.show_caret = !self.show_caret;
        }
    }

    /// Apply an editing key to a text of `len` bytes. Keys take effect only
    /// while cursor keys may move; each one that does restarts the debounce.
    /// Returns the byte offset of the character to delete, if any.
    pub fn apply_key(&mut self, key: EditKey, len: usize, ctrl: bool) -> (delete: Option<usize>)
        ensures
            old(self).can_move ==> (final(self).cursor, delete) == spec_edit(
                old(self).cursor,
                len,
                key,
                ctrl,
            ) && !final(self).can_move && final(self).cursor_debounce@ == (TimerState {
                elapsed: 0,
                just_finished: false,
                ..old(self).cursor_debounce@
            }),
            !old(self).can_move ==> delete is None && final(self).cursor == old(self).cursor
                && final(self).cursor_debounce@ == old(self).cursor_debounce@ && !final(self).can_move,
            final(self).caret_timer@ == old(self).caret_timer@,
            final(self).show_caret == old(self).show_caret,
    {
        if !self.can_move {
            return None;
        }
        let mut delete = None;
        match key {
            EditKey::ArrowLeft => {
                if ctrl {
                    self.cursor = 0;
                } else {
                    self.cursor = self.cursor.saturating_sub(1);
                }
            },
            EditKey::ArrowRight => {
                if ctrl {
                    self.cursor = len;
                } else {
                    let next = self.cursor.saturating_add(1);
                    self.cursor = if next < len {
                        next
                    } else {
                        len
                    };
                }
            },
            EditKey::Home => {
                self.cursor = 0;
            },
            EditKey::End => {
                self.cursor = len;
            },
            EditKey::Backspace => {
                if self.cursor > 0 {
                    self.cursor = self.cursor - 1;
                    delete = Some(self.cursor);
                }
            },
            EditKey::Delete => {
                if self.cursor < len {
                    delete = Some(self.cursor);
                }
            },
        }
        self.can_move = false;
        self.cursor_debounce.reset();
        delete
    }

    /// Text of `text_len` bytes was inserted at the cursor; move past it.
    pub fn insert_text(&mut self, text_len: usize)
        requires
            old(self).cursor + text_len <= usize::MAX,
        ensures
            final(self).cursor == old(self).cursor + text_len,
            final(self).can_move == old(self).can_move,
            final(self).show_caret == old(self).show_caret,
            final(self).caret_timer@ == old(self).caret_timer@,
            final(self).cursor_debounce@ == old(self).cursor_debounce@,
    {
        self.cursor = self.cursor + text_len;
    }
}

/// Without control the arrows move the cursor by one character, stopping at
/// the ends of the text; with control they jump to the ends. Home and End go
/// to the ends. Backspace steps back onto the character before the cursor and
/// removes it; Delete removes the character at the cursor and stays.
pub proof fn lemma_edit_moves_one_step(cursor: usize, len: usize, ctrl: bool)
    ensures
        cursor > 0 ==> spec_edit(cursor, len, EditKey::ArrowLeft, false) == (
            (cursor - 1) as usize,
            None::<usize>,
        ),
        cursor == 0 ==> spec_edit(cursor, len, EditKey::ArrowLeft, false) == (0usize, None::<usize>),
        cursor < len ==> spec_edit(cursor, len, EditKey::ArrowRight, false) == (
            (cursor + 1) as usize,
            None::<usize>,
        ),
        cursor >= len ==> spec_edit(cursor, len, EditKey::ArrowRight, false) == (len, None::<usize>),
        spec_edit(cursor, len, EditKey::ArrowLeft, true) == (0usize, None::<usize>),
        spec_edit(cursor, len, EditKey::ArrowRight, true) == (len, None::<usize>),
        spec_edit(cursor, len, EditKey::Home, ctrl) == (0usize, None::<usize>),
        spec_edit(cursor, len, EditKey::End, ctrl) == (len, None::<usize>),
        cursor > 0 ==> spec_edit(cursor, len, EditKey::Backspace, ctrl) == (
            (cursor - 1) as usize,
            Some((cursor - 1) as usize),
        ),
        cursor == 0 ==> spec_edit(cursor, len, EditKey::Backspace, ctrl) == (0usize, None::<usize>),
        cursor < len ==> spec_edit(cursor, len, EditKey::Delete, ctrl) == (cursor, Some(cursor)),
        cursor >= len ==> spec_edit(cursor, len, EditKey::Delete, ctrl) == (cursor, None::<usize>),
{
}

/// Stepping left and then right brings a cursor inside the text back to
/// where it was.
pub proof fn lemma_left_then_right_returns(cursor: usize, len: usize)
    requires
        0 < cursor <= len,
    ensures
        spec_edit(spec_edit(cursor, len, EditKey::ArrowLeft, false).0, len, EditKey::ArrowRight, false).0
            == cursor,
{
}

/// Editing keeps the cursor within the text, and a deleted byte lies in it.
pub proof fn lemma_edit_keeps_cursor_in_text(cursor: usize, len: usize, key: EditKey, ctrl: bool)
    requires
        cursor <= len,
    ensures
        spec_edit(cursor, len, key, ctrl).0 <= len,
        spec_edit(cursor, len, key, ctrl).1 matches Some(i) ==> i < len,
{
}

} // verus!
