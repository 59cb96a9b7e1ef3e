//! Repainting the grid with relative cursor directives only.
//!
//! The terminal cannot be asked where its cursor is, so each repaint starts
//! from the row at which the previous one left the cursor, climbs to the line
//! above the top track, prints the six tracks and climbs back to the cursor.
use vstd::prelude::*;
use crate::editor::App;
use crate::laws::lemma_step_keeps_wf;
use crate::model::{EditorState, Key, PREFIX_LEN, TRACKS};

verus! {

/// A terminal directive.
#[derive(Clone, Debug, PartialEq, Eq)]
pub enum Directive {
    MoveUp(u16),
    MoveDown(u16),
    MoveLeft(u16),
    MoveRight(u16),
    Print(Vec<char>),
    ClearToEndOfLine,
    CarriageReturn,
}

/// The meaning of a directive.
pub enum Op {
    MoveUp(int),
    MoveDown(int),
    MoveLeft(int),
    MoveRight(int),
    Print(Seq<char>),
    ClearToEndOfLine,
    CarriageReturn,
}

impl View for Directive {
    type V = Op;

    open spec fn view(&self) -> Op {
        match self {
            Directive::MoveUp(n) => Op::MoveUp(*n as int),
            Directive::MoveDown(n) => Op::MoveDown(*n as int),
            Directive::MoveLeft(n) => Op::MoveLeft(*n as int),
            Directive::MoveRight(n) => Op::MoveRight(*n as int),
            Directive::Print(t) => Op::Print(t@),
            Directive::ClearToEndOfLine => Op::ClearToEndOfLine,
            Directive::CarriageReturn => Op::CarriageReturn,
        }
    }
}

/// The meanings of a list of directives.
pub open spec fn views(ds: Seq<Directive>) -> Seq<Op> {
    ds.map_values(|d: Directive| d@)
}

/// The text that ends one line and starts the next.
pub open spec fn newline() -> Seq<char> {
    seq!['\r', '\n']
}

/// One track's line: a line break, the track, a clear of whatever an earlier,
/// longer line left behind, and a return to the first column.
pub open spec fn line_ops(t: Seq<char>) -> Seq<Op> {
    seq![Op::Print(newline()), Op::Print(t), Op::ClearToEndOfLine, Op::CarriageReturn]
}

/// The lines of all tracks, top to bottom.
pub open spec fn paint_lines(ts: Seq<Seq<char>>) -> Seq<Op>
    decreases ts.len(),
{
    if ts.len() == 0 {
        seq![]
    } else {
        paint_lines(ts.drop_last()) + line_ops(ts.last())
    }
}

/// From the start of the bottom line to the cursor: up to the cursor row
/// (no move at all on the bottom row), then right past the prefix and the
/// columns before the cursor.
pub open spec fn settle(row: int, col: int) -> Seq<Op> {
    (if row == TRACKS - 1 {
        seq![]
    } else {
        seq![Op::MoveUp(TRACKS - 1 - row)]
    }) + seq![Op::MoveRight(PREFIX_LEN + col)]
}

impl EditorState {
    /// The directives of a repaint: up to the line above the top track,
    /// counted from the row that the previous repaint left the cursor on,
    /// then every track, then back to the cursor.
    pub open spec fn frame(self) -> Seq<Op> {
        seq![Op::MoveUp(self.painted_row + 1)] + paint_lines(self.tracks) + settle(self.row, self.col)
    }

    /// The directives on leaving: below the bottom track and onto a new line.
    pub open spec fn farewell(self) -> Seq<Op> {
        seq![Op::MoveDown(TRACKS - 1 - self.row), Op::Print(newline())]
    }
}

/// The line break as a directive's text.
fn newline_text() -> (r: Vec<char>)
    ensures
        r@ == newline(),
{
    let mut t: Vec<char> = Vec::new();
    t.push('\r');
    t.push('\n');
    assert(t@ =~= newline());
    t
}

/// A copy of a track.
fn copy_track(t: &Vec<char>) -> (r: Vec<char>)
    ensures
        r@ == t@,
{
    let mut r: Vec<char> = Vec::new();
    let mut i: usize = 0;
    while i < t.len()
        invariant
            i <= t@.len(),
            r@ == t@.take(i as int),
        decreases t@.len() - i,
    {
        r.push(t[i]);
        i += 1;
        assert(r@ =~= t@.take(i as int));
    }
    assert(t@.take(i as int) =~= t@);
    r
}

/// Appends `d` to `out`.
fn emit(out: &mut Vec<Directive>, d: Directive)
    ensures
        views(final(out)@) == views(old(out)@).push(d@),
{
    let ghost pre = out@;
    out.push(d);
    assert(views(out@) =~= views(pre).push(d@));
}

impl App {
    /// The directives that repaint the grid and put the terminal cursor on
    /// the editor's cursor. The cursor row is recorded for the next repaint.
    pub fn redraw(&mut self) -> (r: Vec<Directive>)
        requires
            old(self).wf(),
        ensures
            views(r@) == old(self)@.frame(),
            final(self)@ == old(self)@.repainted(),
            final(self).wf(),
    {
        proof {
            lemma_step_keeps_wf(self@, Key::Other);
        }
        let ghost s = self@;
        let mut out: Vec<Directive> = Vec::new();
        assert(views(out@) =~= seq![]);
        emit(&mut out, Directive::MoveUp(self.old_y + 1));
        let mut i: usize = 0;
        while i < TRACKS
            invariant
                self@ == s,
                s.wf(),
                i <= TRACKS,
                views(out@) == seq![Op::MoveUp(s.painted_row + 1)] + paint_lines(
                    s.tracks.take(i as int),
                ),
            decreases TRACKS - i,
        {
            let ghost before = views(out@);
            emit(&mut out, Directive::Print(newline_text()));
            emit(&mut out, Directive::Print(copy_track(&self.tabs[i])));
            emit(&mut out, Directive::ClearToEndOfLine);
            emit(&mut out, Directive::CarriageReturn);
            proof {
                let ts = s.tracks.take(i + 1);
                assert(ts.drop_last() =~= s.tracks.take(i as int));
                assert(ts.last() == s.tracks[i as int]);
                assert(views(out@) =~= before + line_ops(s.tracks[i as int]));
            }
            i += 1;
        }
        assert(s.tracks.take(TRACKS as int) =~= s.tracks);
        if (self.pos_y as usize) < TRACKS - 1 {
            emit(&mut out, Directive::MoveUp((TRACKS - 1) as u16 - self.pos_y));
        }
        emit(&mut out, Directive::MoveRight(PREFIX_LEN as u16 + self.pos_x));
        assert(views(out@) =~= s.frame());
        self.old_y = self.pos_y;
        out
    }

    /// The directives that leave the grid on exit: down below the bottom
    /// track and onto a fresh line.
    pub fn farewell(&self) -> (r: Vec<Directive>)
        requires
            self.wf(),
        ensures
            views(r@) == self@.farewell(),
    {
        let mut out: Vec<Directive> = Vec::new();
        assert(views(out@) =~= seq![]);
        emit(&mut out, Directive::MoveDown((TRACKS - 1) as u16 - self.pos_y));
        emit(&mut out, Directive::Print(newline_text()));
        assert(views(out@) =~= self@.farewell());
        out
    }
}

} // verus!
