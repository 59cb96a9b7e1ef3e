//! The mathematical model of the editor: tracks as sequences of characters,
//! the cursor, and the row at which the terminal cursor was last left.
use vstd::prelude::*;

verus! {

/// Number of tracks (strings of the instrument).
pub const TRACKS: usize = 6;

/// Length of the fixed prefix of every track: a label and a separator.
pub const PREFIX_LEN: usize = 2;

/// Character that fills a column in a track that was not typed into.
pub const FILLER: char = '-';

/// The separator symbol; it is copied into every track when typed at the end.
pub const SEPARATOR: char = '|';

/// The widest content a track may reach, so that `PREFIX_LEN + column`
/// still fits a terminal column count (`u16`).
pub const MAX_WIDTH: usize = 65533;

/// The key events the editor reacts to.
#[derive(Clone, Copy, Debug, PartialEq, Eq, Structural)]
pub enum Key {
    Esc,
    Up,
    Down,
    Left,
    Right,
    ShiftLeft,
    ShiftRight,
    Backspace,
    Char(char),
    Other,
}

/// What the event loop should do after a key has been handled.
#[derive(Clone, Copy, Debug, PartialEq, Eq, Structural)]
pub enum Step {
    /// Leave the loop and restore the terminal.
    Quit,
    /// Repaint the grid.
    Redraw,
    /// Nothing to do.
    Idle,
}

/// The label that starts track `i`.
pub open spec fn label(i: int) -> char {
    if i == 0 {
        'e'
    } else if i == 1 {
        'B'
    } else if i == 2 {
        'G'
    } else if i == 3 {
        'D'
    } else if i == 4 {
        'A'
    } else {
        'E'
    }
}

/// The prefix of track `i`: its label followed by the separator.
pub open spec fn prefix(i: int) -> Seq<char> {
    seq![label(i), SEPARATOR]
}

/// A typed space stands for a filler column.
pub open spec fn normalize(c: char) -> char {
    if c == ' ' {
        FILLER
    } else {
        c
    }
}

/// What the other tracks receive when `c` is typed at the end of the content.
pub open spec fn sibling_fill(c: char) -> char {
    if c == SEPARATOR {
        SEPARATOR
    } else {
        FILLER
    }
}

/// Inserts a column at content column `at` into every track: track `row`
/// receives `c`, every other track receives `fill`.
pub open spec fn insert_column(tracks: Seq<Seq<char>>, at: int, row: int, c: char, fill: char) -> Seq<
    Seq<char>,
> {
    Seq::new(
        tracks.len(),
        |i: int| tracks[i].insert(PREFIX_LEN + at, if i == row { c } else { fill }),
    )
}

/// Removes content column `at` from every track.
pub open spec fn delete_column(tracks: Seq<Seq<char>>, at: int) -> Seq<Seq<char>> {
    Seq::new(tracks.len(), |i: int| tracks[i].remove(PREFIX_LEN + at))
}

/// Replaces content column `at` of track `row` with `c`.
pub open spec fn overwrite(tracks: Seq<Seq<char>>, row: int, at: int, c: char) -> Seq<Seq<char>> {
    tracks.update(row, tracks[row].update(PREFIX_LEN + at, c))
}

/// The state of the editor.
pub struct EditorState {
    /// The six tracks, prefixes included.
    pub tracks: Seq<Seq<char>>,
    /// The cursor row: which track is edited.
    pub row: int,
    /// The cursor column, counted in content columns.
    pub col: int,
    /// The row at which the terminal cursor was left by the last repaint.
    pub painted_row: int,
}

/// The state at start-up: six empty tracks, cursor at the top left.
pub open spec fn initial_state() -> EditorState {
    EditorState {
        tracks: Seq::new(TRACKS as nat, |i: int| prefix(i)),
        row: 0,
        col: 0,
        painted_row: 0,
    }
}

impl EditorState {
    /// The content width shared by all tracks.
    pub open spec fn width(self) -> int {
        self.tracks[0].len() - PREFIX_LEN
    }

    /// Track `i` without its prefix.
    pub open spec fn content(self, i: int) -> Seq<char> {
        self.tracks[i].subrange(PREFIX_LEN as int, self.tracks[i].len() as int)
    }

    /// The invariant of every reachable state: six tracks of equal length,
    /// each starting with its prefix, and the cursor inside the grid.
    pub open spec fn wf(self) -> bool {
        &&& self.tracks.len() == TRACKS
        &&& forall|i: int|
            0 <= i < TRACKS ==> #[trigger] self.tracks[i].len() == self.tracks[0].len()
        &&& forall|i: int|
            0 <= i < TRACKS ==> (#[trigger] self.tracks[i]).subrange(0, PREFIX_LEN as int)
                == prefix(i)
        &&& PREFIX_LEN <= self.tracks[0].len() <= PREFIX_LEN + MAX_WIDTH
        &&& 0 <= self.row < TRACKS
        &&& 0 <= self.col <= self.width()
        &&& 0 <= self.painted_row < TRACKS
    }

    /// Up: one row up, stopping at the top row.
    pub open spec fn up(self) -> EditorState {
        EditorState { row: if self.row == 0 { 0 } else { self.row - 1 }, ..self }
    }

    /// Down: one row down, stopping at the bottom row.
    pub open spec fn down(self) -> EditorState {
        EditorState { row: if self.row >= TRACKS - 1 { self.row } else { self.row + 1 }, ..self }
    }

    /// Left: one column left, stopping at the first column.
    pub open spec fn left(self) -> EditorState {
        EditorState { col: if self.col == 0 { 0 } else { self.col - 1 }, ..self }
    }

    /// Right: one column right, blocked once the cursor is at the last content
    /// column or beyond.
    pub open spec fn right(self) -> EditorState {
        if self.col + 1 >= self.width() {
            self
        } else {
            EditorState { col: self.col + 1, ..self }
        }
    }

    /// Shift+Left: a filler column is inserted into every track at the cursor.
    pub open spec fn widen_left(self) -> EditorState {
        if self.width() >= MAX_WIDTH {
            self
        } else {
            EditorState {
                tracks: insert_column(self.tracks, self.col, self.row, FILLER, FILLER),
                ..self
            }
        }
    }

    /// Shift+Right: the cursor advances, then a filler column is inserted
    /// into every track at the new cursor column; blocked at the last content
    /// column or beyond.
    pub open spec fn widen_right(self) -> EditorState {
        if self.col + 1 >= self.width() || self.width() >= MAX_WIDTH {
            self
        } else {
            EditorState {
                tracks: insert_column(self.tracks, self.col + 1, self.row, FILLER, FILLER),
                col: self.col + 1,
                ..self
            }
        }
    }

    /// The content column that Backspace removes.
    pub open spec fn erase_column(self) -> int {
        if self.col >= self.width() {
            self.col - 1
        } else {
            self.col
        }
    }

    /// Backspace: one column is removed from every track; at the end of the
    /// content the column left of the cursor goes and the cursor follows.
    pub open spec fn backspace(self) -> EditorState {
        if self.width() == 0 {
            self
        } else {
            EditorState {
                tracks: delete_column(self.tracks, self.erase_column()),
                col: self.erase_column(),
                ..self
            }
        }
    }

    /// Typing `c`: at the end of the content a column is appended to every
    /// track (the cursor row gets the character, the others filler, or the
    /// separator when that is what was typed); inside the content only the
    /// cursor row's character is replaced. The cursor then advances.
    pub open spec fn typed(self, c: char) -> EditorState {
        let ch = normalize(c);
        if self.col >= self.width() {
            if self.width() >= MAX_WIDTH {
                self
            } else {
                EditorState {
                    tracks: insert_column(self.tracks, self.col, self.row, ch, sibling_fill(ch)),
                    col: self.col + 1,
                    ..self
                }
            }
        } else {
            EditorState {
                tracks: overwrite(self.tracks, self.row, self.col, ch),
                col: self.col + 1,
                ..self
            }
        }
    }

    /// The state after a key press.
    pub open spec fn step(self, key: Key) -> EditorState {
        match key {
            Key::Up => self.up(),
            Key::Down => self.down(),
            Key::Left => self.left(),
            Key::Right => self.right(),
            Key::ShiftLeft => self.widen_left(),
            Key::ShiftRight => self.widen_right(),
            Key::Backspace => self.backspace(),
            Key::Char(c) => self.typed(c),
            _ => self,
        }
    }

    /// The state after a repaint: the terminal cursor rests on the cursor row.
    pub open spec fn repainted(self) -> EditorState {
        EditorState { painted_row: self.row, ..self }
    }
}

/// What the event loop does after `key`.
pub open spec fn step_outcome(key: Key) -> Step {
    match key {
        Key::Esc => Step::Quit,
        Key::Other => Step::Idle,
        _ => Step::Redraw,
    }
}

} // verus!
