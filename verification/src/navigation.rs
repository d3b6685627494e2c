//! Where the cursor goes: single steps that wrap around the ends of the
//! filtered view, and block moves that stop at them.

use crate::utils::valid_cursor;
use vstd::prelude::*;

verus! {

/// The cursor after a move of `qty` rows up in a view of `len` rows. A
/// wrapping move that passes the first row goes on from the last; any other
/// stops at the first row.
pub open spec fn cursor_after_up(cursor: int, len: int, qty: int, wrap: bool) -> int {
    if cursor >= qty {
        cursor - qty
    } else if wrap && len >= qty - cursor {
        len - (qty - cursor)
    } else {
        0
    }
}

/// The cursor after a move of `qty` rows down in a view of `len` rows. A
/// wrapping move that passes the last row goes on from the first; any other
/// stops at the last row. In an empty view the cursor is on row zero.
pub open spec fn cursor_after_down(cursor: int, len: int, qty: int, wrap: bool) -> int {
    let target = if cursor + qty <= usize::MAX {
        cursor + qty
    } else {
        usize::MAX as int
    };
    if target < len {
        target
    } else if len == 0 {
        0
    } else if wrap {
        target % len
    } else {
        len - 1
    }
}

/// The cursor in a view that may have shrunk to `len` rows: where it was,
/// or on the last row if that is gone.
pub open spec fn cursor_clamped(cursor: int, len: int) -> int {
    if cursor < len {
        cursor
    } else if len == 0 {
        0
    } else {
        len - 1
    }
}

/// The cursor after `presses` single wrapping steps down.
pub open spec fn cursor_after_steps_down(cursor: int, len: int, presses: nat) -> int
    decreases presses,
{
    if presses == 0 {
        cursor
    } else {
        cursor_after_down(cursor_after_steps_down(cursor, len, (presses - 1) as nat), len, 1, true)
    }
}

/// Moves the cursor `qty` rows up.
pub fn move_up(cursor: usize, len: usize, qty: usize, wrap: bool) -> (moved: usize)
    ensures
        moved == cursor_after_up(cursor as int, len as int, qty as int, wrap),
        valid_cursor(len as int, cursor as int) ==> valid_cursor(len as int, moved as int),
{
    if wrap {
        let after_wrap: usize = qty.saturating_sub(cursor);
        match cursor.checked_sub(qty) {
            Some(moved) => moved,
            None => len.saturating_sub(after_wrap),
        }
    } else {
        cursor.saturating_sub(qty)
    }
}

/// Moves the cursor `qty` rows down.
pub fn move_down(cursor: usize, len: usize, qty: usize, wrap: bool) -> (moved: usize)
    ensures
        moved == cursor_after_down(cursor as int, len as int, qty as int, wrap),
        valid_cursor(len as int, moved as int),
{
    let target: usize = cursor.saturating_add(qty);
    if target >= len {
        if len == 0 {
            0
        } else if wrap {
            target % len
        } else {
            len - 1
        }
    } else {
        target
    }
}

/// Brings the cursor back into a view of `len` rows.
pub fn clamp_cursor(cursor: usize, len: usize) -> (clamped: usize)
    ensures
        clamped == cursor_clamped(cursor as int, len as int),
        valid_cursor(len as int, clamped as int),
        valid_cursor(len as int, cursor as int) ==> clamped == cursor,
{
    if len <= cursor {
        len.saturating_sub(1)
    } else {
        cursor
    }
}

/// A single wrapping step down from the last row leads to the first, and a
/// single wrapping step up from the first row leads to the last.
pub proof fn lemma_single_steps_wrap(len: int)
    requires
        0 < len <= usize::MAX,
    ensures
        cursor_after_down(len - 1, len, 1, true) == 0,
        cursor_after_up(0, len, 1, true) == len - 1,
        forall|cursor: int|
            0 <= cursor < len - 1 ==> #[trigger] cursor_after_down(cursor, len, 1, true) == cursor
                + 1,
        forall|cursor: int|
            0 < cursor < len ==> #[trigger] cursor_after_up(cursor, len, 1, true) == cursor - 1,
{
    assert(len % len == 0) by (nonlinear_arith)
        requires
            len > 0,
    ;
}

/// A block move never wraps: it ends on the row it aims at, or on the
/// first or last row where that row does not exist.
pub proof fn lemma_block_moves_stop(cursor: int, len: int, qty: int)
    requires
        0 <= qty <= usize::MAX,
        0 <= cursor < len <= usize::MAX,
    ensures
        cursor_after_up(cursor, len, qty, false) == (if cursor >= qty {
            cursor - qty
        } else {
            0
        }),
        cursor_after_down(cursor, len, qty, false) == (if cursor + qty < len {
            cursor + qty
        } else {
            len - 1
        }),
{
}

/// However often the user steps down in an empty view, the cursor is on
/// row zero after every step.
pub proof fn lemma_steps_down_in_empty_view(cursor: int, presses: nat)
    requires
        0 <= cursor,
    ensures
        0 <= cursor_after_steps_down(cursor, 0, presses),
        presses > 0 ==> cursor_after_steps_down(cursor, 0, presses) == 0,
    decreases presses,
{
    if presses > 0 {
        lemma_steps_down_in_empty_view(cursor, (presses - 1) as nat);
    }
}

} // verus!
