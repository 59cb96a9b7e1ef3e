//! Properties of the editing model that hold over every input.
use vstd::prelude::*;
use crate::model::{
    delete_column, initial_state, insert_column, normalize, prefix, sibling_fill, EditorState, Key,
    FILLER, MAX_WIDTH, PREFIX_LEN, TRACKS,
};

verus! {

/// Inserting a column keeps the tracks aligned and their prefixes intact.
proof fn lemma_insert_column_wf(s: EditorState, at: int, c: char, fill: char)
    requires
        s.wf(),
        0 <= at <= s.width(),
        s.width() < MAX_WIDTH,
    ensures
        ({
            let t = insert_column(s.tracks, at, s.row, c, fill);
            &&& t.len() == TRACKS
            &&& forall|i: int| 0 <= i < TRACKS ==> #[trigger] t[i].len() == s.tracks[0].len() + 1
            &&& forall|i: int|
                0 <= i < TRACKS ==> (#[trigger] t[i]).subrange(0, PREFIX_LEN as int) == prefix(i)
        }),
{
    let t = insert_column(s.tracks, at, s.row, c, fill);
    assert forall|i: int| 0 <= i < TRACKS implies (#[trigger] t[i]).subrange(
        0,
        PREFIX_LEN as int,
    ) == prefix(i) && t[i].len() == s.tracks[0].len() + 1 by {
        assert(s.tracks[i].len() == s.tracks[0].len());
        assert(s.tracks[i].subrange(0, PREFIX_LEN as int) == prefix(i));
        s.tracks[i].insert_ensures(PREFIX_LEN + at, if i == s.row { c } else { fill });
        assert(t[i].subrange(0, PREFIX_LEN as int) =~= s.tracks[i].subrange(0, PREFIX_LEN as int));
    }
}

/// Removing a column keeps the tracks aligned and their prefixes intact.
proof fn lemma_delete_column_wf(s: EditorState, at: int)
    requires
        s.wf(),
        0 <= at < s.width(),
    ensures
        ({
            let t = delete_column(s.tracks, at);
            &&& t.len() == TRACKS
            &&& forall|i: int| 0 <= i < TRACKS ==> #[trigger] t[i].len() == s.tracks[0].len() - 1
            &&& forall|i: int|
                0 <= i < TRACKS ==> (#[trigger] t[i]).subrange(0, PREFIX_LEN as int) == prefix(i)
        }),
{
    let t = delete_column(s.tracks, at);
    assert forall|i: int| 0 <= i < TRACKS implies (#[trigger] t[i]).subrange(
        0,
        PREFIX_LEN as int,
    ) == prefix(i) && t[i].len() == s.tracks[0].len() - 1 by {
        assert(s.tracks[i].len() == s.tracks[0].len());
        assert(s.tracks[i].subrange(0, PREFIX_LEN as int) == prefix(i));
        s.tracks[i].remove_ensures(PREFIX_LEN + at);
        assert(t[i].subrange(0, PREFIX_LEN as int) =~= s.tracks[i].subrange(0, PREFIX_LEN as int));
    }
}

/// The start-up state is well formed.
pub proof fn lemma_initial_wf()
    ensures
        initial_state().wf(),
        initial_state().width() == 0,
{
    let s = initial_state();
    assert forall|i: int| 0 <= i < TRACKS implies (#[trigger] s.tracks[i]).subrange(
        0,
        PREFIX_LEN as int,
    ) == prefix(i) by {
        assert(s.tracks[i].subrange(0, PREFIX_LEN as int) =~= prefix(i));
    }
}

/// Every key press and every repaint takes a well-formed state to a
/// well-formed state: in every reachable state the six tracks have equal
/// length, the row lies in 0..=5 and the column in 0..=width.
pub proof fn lemma_step_keeps_wf(s: EditorState, key: Key)
    requires
        s.wf(),
    ensures
        s.step(key).wf(),
        s.repainted().wf(),
        forall|i: int|
            0 <= i < TRACKS ==> #[trigger] s.step(key).tracks[i].len() == s.step(key).tracks[0].len(),
        0 <= s.step(key).row < TRACKS,
        0 <= s.step(key).col <= s.step(key).width(),
{
    match key {
        Key::ShiftLeft => {
            if s.width() < MAX_WIDTH {
                lemma_insert_column_wf(s, s.col, FILLER, FILLER);
            }
        },
        Key::ShiftRight => {
            if !(s.col + 1 >= s.width() || s.width() >= MAX_WIDTH) {
                lemma_insert_column_wf(s, s.col + 1, FILLER, FILLER);
            }
        },
        Key::Backspace => {
            if s.width() != 0 {
                lemma_delete_column_wf(s, s.erase_column());
            }
        },
        Key::Char(c) => {
            let ch = normalize(c);
            if s.col >= s.width() {
                if s.width() < MAX_WIDTH {
                    lemma_insert_column_wf(s, s.col, ch, sibling_fill(ch));
                }
            } else {
                let t = s.typed(c);
                assert forall|i: int| 0 <= i < TRACKS implies (#[trigger] t.tracks[i]).subrange(
                    0,
                    PREFIX_LEN as int,
                ) == prefix(i) && t.tracks[i].len() == s.tracks[0].len() by {
                    assert(s.tracks[i].len() == s.tracks[0].len());
                    assert(s.tracks[i].subrange(0, PREFIX_LEN as int) == prefix(i));
                    assert(t.tracks[i].subrange(0, PREFIX_LEN as int) =~= s.tracks[i].subrange(
                        0,
                        PREFIX_LEN as int,
                    ));
                }
            }
        },
        _ => {},
    }
}

/// At an edge a clamped move changes nothing, so repeating it changes nothing:
/// Up at the top row, Down at the bottom row, Left at the first column.
pub proof fn lemma_clamped_moves_fixed(s: EditorState)
    requires
        s.wf(),
    ensures
        s.row == 0 ==> s.up() == s && s.up().up() == s,
        s.row == TRACKS - 1 ==> s.down() == s && s.down().down() == s,
        s.col == 0 ==> s.left() == s && s.left().left() == s,
{
}

/// Shift+Left followed by Backspace gives back the state as it was: the
/// filler column inserted at the cursor is the column removed again, so the
/// tracks are restored exactly.
pub proof fn lemma_widen_then_erase(s: EditorState)
    requires
        s.wf(),
        s.width() < MAX_WIDTH,
    ensures
        s.widen_left().backspace() == s,
{
    let w = s.widen_left();
    lemma_insert_column_wf(s, s.col, FILLER, FILLER);
    assert(w.width() == s.width() + 1);
    assert(w.erase_column() == s.col);
    let b = w.backspace();
    assert forall|i: int| 0 <= i < TRACKS implies #[trigger] b.tracks[i] == s.tracks[i] by {
        assert(b.tracks[i] =~= s.tracks[i]);
    }
    assert(b.tracks =~= s.tracks);
}

/// Typing `c` into an empty grid appends one column: the cursor row holds
/// `c` (a space becoming filler), every other row holds filler, or the
/// separator when `c` is the separator.
pub proof fn lemma_append_growth(s: EditorState, c: char)
    requires
        s.wf(),
        s.width() == 0,
    ensures
        s.typed(c).tracks[s.row] == prefix(s.row).push(normalize(c)),
        forall|i: int|
            0 <= i < TRACKS && i != s.row ==> #[trigger] s.typed(c).tracks[i] == prefix(i).push(
                sibling_fill(normalize(c)),
            ),
        s.typed(c).col == 1,
        s.typed(c).width() == 1,
{
    let t = s.typed(c);
    assert forall|i: int| 0 <= i < TRACKS implies #[trigger] t.tracks[i] == prefix(i).push(
        if i == s.row { normalize(c) } else { sibling_fill(normalize(c)) },
    ) by {
        assert(s.tracks[i].len() == s.tracks[0].len());
        assert(s.tracks[i].subrange(0, PREFIX_LEN as int) == prefix(i));
        assert(s.tracks[i] =~= prefix(i));
        assert(t.tracks[i] =~= prefix(i).push(
            if i == s.row { normalize(c) } else { sibling_fill(normalize(c)) },
        ));
    }
}

/// Typing inside the content changes one character of the cursor row and
/// nothing else: the other five tracks stay identical and the width is kept.
pub proof fn lemma_overwrite_contained(s: EditorState, c: char)
    requires
        s.wf(),
        s.col < s.width(),
    ensures
        forall|i: int| 0 <= i < TRACKS && i != s.row ==> #[trigger] s.typed(c).tracks[i] == s.tracks[i],
        s.typed(c).tracks[s.row] == s.tracks[s.row].update(PREFIX_LEN + s.col, normalize(c)),
        s.typed(c).width() == s.width(),
        s.typed(c).row == s.row,
{
}

} // verus!
