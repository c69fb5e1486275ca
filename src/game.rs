use vstd::prelude::*;

use crate::cell::{Cell, color_byte, clear_byte};

verus! {

/// Columns of the board.
pub const COLS: usize = 10;

/// Bytes in the field and clear buffers: one per board square.
pub const FIELD_LEN: usize = 200;

/// Upcoming pieces shown.
pub const NEXT_SLOTS: usize = 3;

/// Bytes per piece preview: a 4 by 4 grid.
pub const PREVIEW_LEN: usize = 16;

/// Bytes in the next buffer: one preview per upcoming piece.
pub const NEXT_LEN: usize = 48;

/// The board as the engine shows it, row 0 at the top.
pub type Board = [[Cell; 10]; 20];

/// One piece's silhouette on a 4 by 4 grid.
pub type Preview = [[Cell; 4]; 4];

/// The four output buffers, as sequences of bytes.
pub ghost struct Frame {
    pub field: Seq<u8>,
    pub clear: Seq<u8>,
    pub next: Seq<u8>,
    pub hold: Seq<u8>,
}

/// The square of the board that byte `n` of the field and clear buffers encodes.
pub open spec fn board_cell(board: Board, n: int) -> Cell {
    board[n / 10][n % 10]
}

/// The square of a preview that byte `m` of its 16 encodes.
pub open spec fn preview_cell(p: Preview, m: int) -> Cell {
    p[m / 4][m % 4]
}

/// What the buffers hold once the given engine state has been rendered.
pub open spec fn render_frame(board: Board, next: [Preview; 3], hold: Preview) -> Frame {
    Frame {
        field: Seq::new(200, |n: int| color_byte(board_cell(board, n))),
        clear: Seq::new(200, |n: int| clear_byte(board_cell(board, n))),
        next: Seq::new(48, |k: int| color_byte(preview_cell(next[k / 16], k % 16))),
        hold: Seq::new(16, |m: int| color_byte(preview_cell(hold, m))),
    }
}

/// The adapter's output side: four fixed-size byte buffers that a host reads
/// in place, rewritten in full by each rendering.
pub struct Game {
    field: [u8; 200],
    clear: [u8; 200],
    next: [u8; 48],
    hold: [u8; 16],
}

impl View for Game {
    type V = Frame;

    closed spec fn view(&self) -> Frame {
        Frame { field: self.field@, clear: self.clear@, next: self.next@, hold: self.hold@ }
    }
}

impl Game {
    /// A game whose four buffers are all zero until the first rendering.
    pub fn new() -> (r: Game)
        ensures
            r@.field == Seq::new(200, |n: int| 0u8),
            r@.clear == Seq::new(200, |n: int| 0u8),
            r@.next == Seq::new(48, |n: int| 0u8),
            r@.hold == Seq::new(16, |n: int| 0u8),
    {
        let r = Game { field: [0u8; 200], clear: [0u8; 200], next: [0u8; 48], hold: [0u8; 16] };
        assert(r@.field =~= Seq::new(200, |n: int| 0u8));
        assert(r@.clear =~= Seq::new(200, |n: int| 0u8));
        assert(r@.next =~= Seq::new(48, |n: int| 0u8));
        assert(r@.hold =~= Seq::new(16, |n: int| 0u8));
        r
    }
    /// Repacks the engine's current state into the four buffers: byte `n` of
    /// field and clear encodes board square `(n / 10, n % 10)`; byte `16 * p + m`
    /// of next encodes square `(m / 4, m % 4)` of upcoming piece `p`; byte `m` of
    /// hold encodes square `(m / 4, m % 4)` of the held piece. Every byte is
    /// rewritten, so the result does not depend on what the buffers held.
    pub fn rendering(&mut self, board: &Board, next: &[Preview; 3], hold: &Preview)
        ensures
            final(self)@ == render_frame(*board, *next, *hold),
    {
        let ghost frame = render_frame(*board, *next, *hold);
        let mut n: usize = 0;
        while n < FIELD_LEN
            invariant
                frame == render_frame(*board, *next, *hold),
                0 <= n <= FIELD_LEN,
                forall|k: int| 0 <= k < n ==> self.field@[k] == frame.field[k],
                forall|k: int| 0 <= k < n ==> self.clear@[k] == frame.clear[k],
            decreases FIELD_LEN - n,
        {
            let row = board[n / COLS];
            let b = row[n % COLS];
            self.field[n] = b.color_byte();
            self.clear[n] = b.clear_byte();
            n = n + 1;
        }
        let mut p: usize = 0;
        while p < NEXT_SLOTS
            invariant
                frame == render_frame(*board, *next, *hold),
                0 <= p <= NEXT_SLOTS,
                forall|k: int| 0 <= k < 200 ==> self.field@[k] == frame.field[k],
                forall|k: int| 0 <= k < 200 ==> self.clear@[k] == frame.clear[k],
                forall|k: int| 0 <= k < 16 * p ==> self.next@[k] == frame.next[k],
            decreases NEXT_SLOTS - p,
        {
            let piece = next[p];
            let mut m: usize = 0;
            while m < PREVIEW_LEN
                invariant
                    frame == render_frame(*board, *next, *hold),
                    0 <= p < NEXT_SLOTS,
                    0 <= m <= PREVIEW_LEN,
                    piece == next[p as int],
                    forall|k: int| 0 <= k < 200 ==> self.field@[k] == frame.field[k],
                    forall|k: int| 0 <= k < 200 ==> self.clear@[k] == frame.clear[k],
                    forall|k: int| 0 <= k < 16 * p + m ==> self.next@[k] == frame.next[k],
                decreases PREVIEW_LEN - m,
            {
                let row = piece[m / 4];
                let k: usize = 16 * p + m;
                assert(k / 16 == p && k % 16 == m) by (nonlinear_arith)
                    requires
                        k == 16 * p + m,
                        0 <= m < 16,
                ;
                self.next[k] = row[m % 4].color_byte();
                m = m + 1;
            }
            p = p + 1;
        }
        let mut m: usize = 0;
        while m < PREVIEW_LEN
            invariant
                frame == render_frame(*board, *next, *hold),
                0 <= m <= PREVIEW_LEN,
                forall|k: int| 0 <= k < 200 ==> self.field@[k] == frame.field[k],
                forall|k: int| 0 <= k < 200 ==> self.clear@[k] == frame.clear[k],
                forall|k: int| 0 <= k < 48 ==> self.next@[k] == frame.next[k],
                forall|k: int| 0 <= k < m ==> self.hold@[k] == frame.hold[k],
            decreases PREVIEW_LEN - m,
        {
            let row = hold[m / 4];
            self.hold[m] = row[m % 4].color_byte();
            m = m + 1;
        }
        assert(self@.field =~= frame.field);
        assert(self@.clear =~= frame.clear);
        assert(self@.next =~= frame.next);
        assert(self@.hold =~= frame.hold);
    }
    /// The field buffer: 200 bytes, row-major, row 0 at the top.
    pub fn field_ptr(&self) -> (r: &[u8])
        ensures
            r@ == self@.field,
            r@.len() == FIELD_LEN,
    {
        self.field.as_slice()
    }

    /// The clear buffer: 200 bytes, each zero or one, laid out as the field buffer.
    pub fn clear_ptr(&self) -> (r: &[u8])
        ensures
            r@ == self@.clear,
            r@.len() == FIELD_LEN,
    {
        self.clear.as_slice()
    }

    /// The next buffer: three previews of 16 bytes, the nearest piece first.
    pub fn next_ptr(&self) -> (r: &[u8])
        ensures
            r@ == self@.next,
            r@.len() == NEXT_LEN,
    {
        self.next.as_slice()
    }

    /// The hold buffer: the held piece's preview, 16 bytes.
    pub fn hold_ptr(&self) -> (r: &[u8])
        ensures
            r@ == self@.hold,
            r@.len() == PREVIEW_LEN,
    {
        self.hold.as_slice()
    }

    /// The input vector of one step, in the order the engine takes it: left,
    /// right, hard drop, soft drop, rotate clockwise, rotate counter-clockwise,
    /// hold. The flags are passed on as they are, conflicting ones included.
    pub fn tick(
        key_a: bool,
        key_b: bool,
        key_hard: bool,
        key_d: bool,
        key_r: bool,
        key_l: bool,
        key_hold: bool,
    ) -> (r: [bool; 7])
        ensures
            r@ == seq![key_a, key_b, key_hard, key_d, key_r, key_l, key_hold],
    {
        let r = [key_a, key_b, key_hard, key_d, key_r, key_l, key_hold];
        assert(r@ =~= seq![key_a, key_b, key_hard, key_d, key_r, key_l, key_hold]);
        r
    }
}

/// Every game's buffers have their fixed sizes: 200, 200, 48 and 16 bytes.
pub proof fn lemma_buffer_sizes(g: Game)
    ensures
        g@.field.len() == FIELD_LEN,
        g@.clear.len() == FIELD_LEN,
        g@.next.len() == NEXT_LEN,
        g@.hold.len() == PREVIEW_LEN,
{
}

} // verus!
