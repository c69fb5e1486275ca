use vstd::prelude::*;

use crate::cell::{Cell, color_byte, clear_byte};
use crate::game::{Board, Frame, Preview, board_cell, preview_cell, render_frame};

verus! {

/// After a rendering, the field and clear buffers hold 200 bytes each, and
/// byte `n` of both encodes board square `(n / 10, n % 10)`.
pub proof fn lemma_field_layout(board: Board, next: [Preview; 3], hold: Preview, n: int)
    requires
        0 <= n < 200,
    ensures
        render_frame(board, next, hold).field.len() == 200,
        render_frame(board, next, hold).clear.len() == 200,
        render_frame(board, next, hold).field[n] == color_byte(board[n / 10][n % 10]),
        render_frame(board, next, hold).clear[n] == clear_byte(board[n / 10][n % 10]),
{
}

/// After a rendering, byte `16 * p + m` of the next buffer encodes square
/// `(m / 4, m % 4)` of upcoming piece `p`.
pub proof fn lemma_next_layout(board: Board, next: [Preview; 3], hold: Preview, p: int, m: int)
    requires
        0 <= p < 3,
        0 <= m < 16,
    ensures
        render_frame(board, next, hold).next.len() == 48,
        render_frame(board, next, hold).next[16 * p + m] == color_byte(next[p][m / 4][m % 4]),
{
    assert((16 * p + m) / 16 == p && (16 * p + m) % 16 == m) by (nonlinear_arith)
        requires
            0 <= p < 3,
            0 <= m < 16,
    ;
}

/// After a rendering, every byte of the clear buffer is zero or one, however
/// many lines are being cleared.
pub proof fn lemma_clear_is_flag(board: Board, next: [Preview; 3], hold: Preview)
    ensures
        forall|n: int|
            0 <= n < 200 ==> #[trigger] render_frame(board, next, hold).clear[n] == 0
                || render_frame(board, next, hold).clear[n] == 1,
{
}

/// Rendering twice with no step between gives byte-identical buffers: the
/// second rendering reads the same engine state and rewrites every byte.
pub proof fn lemma_render_idempotent(
    first: Frame,
    second: Frame,
    board: Board,
    next: [Preview; 3],
    hold: Preview,
)
    requires
        first == render_frame(board, next, hold),
        second == render_frame(board, next, hold),
    ensures
        first.field == second.field,
        first.clear == second.clear,
        first.next == second.next,
        first.hold == second.hold,
{
}

/// A square that is empty and not being cleared encodes as zero in every buffer.
pub open spec fn is_blank(c: Cell) -> bool {
    c.color == 0 && !c.clearing
}

/// Rendering an empty board with empty previews and no held piece leaves all
/// four buffers zero, as they are after construction.
pub proof fn lemma_blank_renders_zero(board: Board, next: [Preview; 3], hold: Preview)
    requires
        forall|i: int, j: int| 0 <= i < 20 && 0 <= j < 10 ==> is_blank(#[trigger] board[i][j]),
        forall|p: int, i: int, j: int|
            0 <= p < 3 && 0 <= i < 4 && 0 <= j < 4 ==> is_blank(#[trigger] next[p][i][j]),
        forall|i: int, j: int| 0 <= i < 4 && 0 <= j < 4 ==> is_blank(#[trigger] hold[i][j]),
    ensures
        render_frame(board, next, hold).field == Seq::new(200, |n: int| 0u8),
        render_frame(board, next, hold).clear == Seq::new(200, |n: int| 0u8),
        render_frame(board, next, hold).next == Seq::new(48, |n: int| 0u8),
        render_frame(board, next, hold).hold == Seq::new(16, |n: int| 0u8),
{
    let f = render_frame(board, next, hold);
    assert forall|n: int| 0 <= n < 200 implies is_blank(#[trigger] board_cell(board, n)) by {
        assert(0 <= n / 10 < 20 && 0 <= n % 10 < 10);
    }
    assert forall|k: int| 0 <= k < 48 implies is_blank(#[trigger] preview_cell(next[k / 16], k % 16)) by {
        assert(0 <= k / 16 < 3 && 0 <= (k % 16) / 4 < 4 && 0 <= (k % 16) % 4 < 4);
    }
    assert forall|m: int| 0 <= m < 16 implies is_blank(#[trigger] preview_cell(hold, m)) by {
        assert(0 <= m / 4 < 4 && 0 <= m % 4 < 4);
    }
    assert(f.field =~= Seq::new(200, |n: int| 0u8));
    assert(f.clear =~= Seq::new(200, |n: int| 0u8));
    assert(f.next =~= Seq::new(48, |n: int| 0u8));
    assert(f.hold =~= Seq::new(16, |n: int| 0u8));
}

} // verus!
