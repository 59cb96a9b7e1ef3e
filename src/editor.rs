//! The editor: six tracks held as vectors of characters, the cursor, and the
//! row at which the terminal cursor was last left.
use vstd::prelude::*;
use crate::laws::lemma_step_keeps_wf;
use crate::laws::lemma_initial_wf;
use crate::model::{
    initial_state, normalize, sibling_fill, step_outcome, EditorState, Key, Step, FILLER,
    MAX_WIDTH, PREFIX_LEN, SEPARATOR, TRACKS,
};

verus! {

/// The editor state. Its fields are public so that callers can read the
/// grid; the methods keep it well formed.
pub struct App {
    /// The row at which the last repaint left the terminal cursor.
    pub old_y: u16,
    /// The cursor row.
    pub pos_y: u16,
    /// The cursor column, in content columns.
    pub pos_x: u16,
    /// The six tracks, each starting with its label and a separator.
    pub tabs: Vec<Vec<char>>,
}

impl View for App {
    type V = EditorState;

    open spec fn view(&self) -> EditorState {
        EditorState {
            tracks: Seq::new(self.tabs@.len(), |i: int| self.tabs@[i]@),
            row: self.pos_y as int,
            col: self.pos_x as int,
            painted_row: self.old_y as int,
        }
    }
}

/// A track holding only its prefix.
fn empty_track(label: char) -> (r: Vec<char>)
    ensures
        r@ == seq![label, SEPARATOR],
{
    let mut t: Vec<char> = Vec::new();
    t.push(label);
    t.push(SEPARATOR);
    assert(t@ =~= seq![label, SEPARATOR]);
    t
}

impl App {
    /// The invariant of the editor.
    pub open spec fn wf(&self) -> bool {
        self@.wf()
    }

    /// A new editor: six empty tracks, cursor on the first column of the top row.
    pub fn new() -> (r: Self)
        ensures
            r@ == initial_state(),
            r.wf(),
    {
        let mut tabs: Vec<Vec<char>> = Vec::new();
        tabs.push(empty_track('e'));
        tabs.push(empty_track('B'));
        tabs.push(empty_track('G'));
        tabs.push(empty_track('D'));
        tabs.push(empty_track('A'));
        tabs.push(empty_track('E'));
        let r = App { old_y: 0, pos_y: 0, pos_x: 0, tabs };
        assert(r@.tracks =~= initial_state().tracks);
        proof {
            lemma_initial_wf();
        }
        r
    }

    /// The content width shared by all tracks.
    pub fn width(&self) -> (r: usize)
        requires
            self.wf(),
        ensures
            r == self@.width(),
    {
        self.tabs[0].len() - PREFIX_LEN
    }

    /// Inserts a column at content column `at` into every track: the cursor
    /// row receives `c`, the other tracks `fill`.
    fn insert_column(&mut self, at: usize, c: char, fill: char)
        requires
            old(self).wf(),
            at <= old(self)@.width(),
            old(self)@.width() < MAX_WIDTH,
        ensures
            final(self)@ == (EditorState {
                tracks: crate::model::insert_column(
                    old(self)@.tracks,
                    at as int,
                    old(self)@.row,
                    c,
                    fill,
                ),
                ..old(self)@
            }),
    {
        let ghost pre = self@;
        let row = self.pos_y as usize;
        let mut i: usize = 0;
        while i < TRACKS
            invariant
                pre.wf(),
                at <= pre.width(),
                row == pre.row,
                self.tabs@.len() == TRACKS,
                self.pos_x == pre.col,
                self.pos_y == pre.row,
                self.old_y == pre.painted_row,
                forall|j: int|
                    0 <= j < i ==> #[trigger] self.tabs@[j]@ == pre.tracks[j].insert(
                        PREFIX_LEN + at,
                        if j == row { c } else { fill },
                    ),
                forall|j: int| i <= j < TRACKS ==> #[trigger] self.tabs@[j]@ == pre.tracks[j],
            decreases TRACKS - i,
        {
            assert(pre.tracks[i as int].len() == pre.tracks[0].len());
            let ch = if i == row {
                c
            } else {
                fill
            };
            self.tabs[i].insert(at + PREFIX_LEN, ch);
            i += 1;
        }
        assert(self@.tracks =~= crate::model::insert_column(pre.tracks, at as int, pre.row, c, fill));
    }

    /// Removes content column `at` from every track.
    fn delete_column(&mut self, at: usize)
        requires
            old(self).wf(),
            at < old(self)@.width(),
        ensures
            final(self)@ == (EditorState {
                tracks: crate::model::delete_column(old(self)@.tracks, at as int),
                ..old(self)@
            }),
    {
        let ghost pre = self@;
        let mut i: usize = 0;
        while i < TRACKS
            invariant
                pre.wf(),
                at < pre.width(),
                self.tabs@.len() == TRACKS,
                self.pos_x == pre.col,
                self.pos_y == pre.row,
                self.old_y == pre.painted_row,
                forall|j: int|
                    0 <= j < i ==> #[trigger] self.tabs@[j]@ == pre.tracks[j].remove(
                        PREFIX_LEN + at,
                    ),
                forall|j: int| i <= j < TRACKS ==> #[trigger] self.tabs@[j]@ == pre.tracks[j],
            decreases TRACKS - i,
        {
            assert(pre.tracks[i as int].len() == pre.tracks[0].len());
            self.tabs[i].remove(at + PREFIX_LEN);
            i += 1;
        }
        assert(self@.tracks =~= crate::model::delete_column(pre.tracks, at as int));
    }
    /// Up: one row up, stopping at the top row.
    pub fn move_up(&mut self)
        requires
            old(self).wf(),
        ensures
            final(self)@ == old(self)@.up(),
            final(self).wf(),
    {
        proof {
            lemma_step_keeps_wf(self@, Key::Up);
        }
        if self.pos_y > 0 {
            self.pos_y = self.pos_y - 1;
        }
    }

    /// Down: one row down, stopping at the bottom row.
    pub fn move_down(&mut self)
        requires
            old(self).wf(),
        ensures
            final(self)@ == old(self)@.down(),
            final(self).wf(),
    {
        proof {
            lemma_step_keeps_wf(self@, Key::Down);
        }
        if (self.pos_y as usize) < TRACKS - 1 {
            self.pos_y = self.pos_y + 1;
        }
    }

    /// Left: one column left, stopping at the first column.
    pub fn move_left(&mut self)
        requires
            old(self).wf(),
        ensures
            final(self)@ == old(self)@.left(),
            final(self).wf(),
    {
        proof {
            lemma_step_keeps_wf(self@, Key::Left);
        }
        if self.pos_x > 0 {
            self.pos_x = self.pos_x - 1;
        }
    }

    /// Right: one column right, blocked at the last content column.
    pub fn move_right(&mut self)
        requires
            old(self).wf(),
        ensures
            final(self)@ == old(self)@.right(),
            final(self).wf(),
    {
        proof {
            lemma_step_keeps_wf(self@, Key::Right);
        }
        if (self.pos_x as usize) + 1 < self.width() {
            self.pos_x = self.pos_x + 1;
        }
    }

    /// Shift+Left: inserts a filler column into every track at the cursor.
    pub fn widen_left(&mut self)
        requires
            old(self).wf(),
        ensures
            final(self)@ == old(self)@.widen_left(),
            final(self).wf(),
    {
        proof {
            lemma_step_keeps_wf(self@, Key::ShiftLeft);
        }
        if self.width() < MAX_WIDTH {
            let at = self.pos_x as usize;
            self.insert_column(at, FILLER, FILLER);
        }
    }

    /// Shift+Right: advances the cursor, then inserts a filler column into
    /// every track at the new cursor column; blocked at the last content column.
    pub fn widen_right(&mut self)
        requires
            old(self).wf(),
        ensures
            final(self)@ == old(self)@.widen_right(),
            final(self).wf(),
    {
        proof {
            lemma_step_keeps_wf(self@, Key::ShiftRight);
        }
        let w = self.width();
        if (self.pos_x as usize) + 1 < w && w < MAX_WIDTH {
            self.pos_x = self.pos_x + 1;
            let at = self.pos_x as usize;
            self.insert_column(at, FILLER, FILLER);
        }
    }

    /// Backspace: removes one column from every track, the one left of the
    /// cursor at the end of the content, else the one under the cursor.
    pub fn backspace(&mut self)
        requires
            old(self).wf(),
        ensures
            final(self)@ == old(self)@.backspace(),
            final(self).wf(),
    {
        proof {
            lemma_step_keeps_wf(self@, Key::Backspace);
        }
        let w = self.width();
        if w > 0 {
            let x: u16 = if (self.pos_x as usize) >= w {
                self.pos_x - 1
            } else {
                self.pos_x
            };
            self.delete_column(x as usize);
            self.pos_x = x;
        }
    }

    /// Types `c` at the cursor: appends a column to every track at the end of
    /// the content, overwrites one character of the cursor row inside it, and
    /// advances the cursor.
    pub fn type_char(&mut self, c: char)
        requires
            old(self).wf(),
        ensures
            final(self)@ == old(self)@.typed(c),
            final(self).wf(),
    {
        proof {
            lemma_step_keeps_wf(self@, Key::Char(c));
        }
        let ch = if c == ' ' {
            FILLER
        } else {
            c
        };
        let w = self.width();
        let at = self.pos_x as usize;
        if at >= w {
            if w < MAX_WIDTH {
                let fill = if ch == SEPARATOR {
                    SEPARATOR
                } else {
                    FILLER
                };
                self.insert_column(at, ch, fill);
                self.pos_x = self.pos_x + 1;
            }
        } else {
            let row = self.pos_y as usize;
            assert(self@.tracks[row as int].len() == self@.tracks[0].len());
            self.tabs[row].set(at + PREFIX_LEN, ch);
            assert(self@.tracks =~= crate::model::overwrite(old(self)@.tracks, row as int, at as int, ch));
            self.pos_x = self.pos_x + 1;
        }
    }

    /// Handles one key press and says what the event loop does next.
    pub fn handle_key(&mut self, key: Key) -> (r: Step)
        requires
            old(self).wf(),
        ensures
            final(self)@ == old(self)@.step(key),
            final(self).wf(),
            r == step_outcome(key),
    {
        match key {
            Key::Esc => Step::Quit,
            Key::Up => {
                self.move_up();
                Step::Redraw
            },
            Key::Down => {
                self.move_down();
                Step::Redraw
            },
            Key::Left => {
                self.move_left();
                Step::Redraw
            },
            Key::Right => {
                self.move_right();
                Step::Redraw
            },
            Key::ShiftLeft => {
                self.widen_left();
                Step::Redraw
            },
            Key::ShiftRight => {
                self.widen_right();
                Step::Redraw
            },
            Key::Backspace => {
                self.backspace();
                Step::Redraw
            },
            Key::Char(c) => {
                self.type_char(c);
                Step::Redraw
            },
            Key::Other => Step::Idle,
        }
    }
}

} // verus!
