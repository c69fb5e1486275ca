use tetris_wasm::cell::Cell;
use tetris_wasm::game::{Board, Game, Preview};

fn blank_board() -> Board {
    [[Cell::empty(); 10]; 20]
}

fn blank_preview() -> Preview {
    [[Cell::empty(); 4]; 4]
}

#[test]
fn new_buffers_are_zero() {
    let g = Game::new();
    assert_eq!(g.field_ptr(), &[0u8; 200][..]);
    assert_eq!(g.clear_ptr(), &[0u8; 200][..]);
    assert_eq!(g.next_ptr(), &[0u8; 48][..]);
    assert_eq!(g.hold_ptr(), &[0u8; 16][..]);
}

#[test]
fn blank_state_renders_zero() {
    let mut g = Game::new();
    g.rendering(&blank_board(), &[blank_preview(); 3], &blank_preview());
    assert!(g.field_ptr().iter().all(|&b| b == 0));
    assert!(g.clear_ptr().iter().all(|&b| b == 0));
    assert!(g.next_ptr().iter().all(|&b| b == 0));
    assert!(g.hold_ptr().iter().all(|&b| b == 0));
}

#[test]
fn field_is_row_major() {
    let mut board = blank_board();
    for i in 0..20 {
        for j in 0..10 {
            board[i][j] = Cell::new((i * 10 + j) as u32, false);
        }
    }
    let mut g = Game::new();
    g.rendering(&board, &[blank_preview(); 3], &blank_preview());
    assert_eq!(g.field_ptr().len(), 200);
    assert_eq!(g.clear_ptr().len(), 200);
    for n in 0..200 {
        assert_eq!(g.field_ptr()[n], n as u8);
        assert_eq!(g.clear_ptr()[n], 0);
    }
}

#[test]
fn bottom_right_square_is_last_byte() {
    let mut board = blank_board();
    board[19][9] = Cell::new(7, false);
    board[0][1] = Cell::new(3, false);
    let mut g = Game::new();
    g.rendering(&board, &[blank_preview(); 3], &blank_preview());
    assert_eq!(g.field_ptr()[199], 7);
    assert_eq!(g.field_ptr()[1], 3);
    assert_eq!(g.field_ptr()[10], 0);
}

#[test]
fn clear_is_zero_or_one_with_many_lines() {
    let mut board = blank_board();
    for i in 16..20 {
        for j in 0..10 {
            board[i][j] = Cell::new(5, true);
        }
    }
    let mut g = Game::new();
    g.rendering(&board, &[blank_preview(); 3], &blank_preview());
    for n in 0..200 {
        let expected = if n >= 160 { 1 } else { 0 };
        assert_eq!(g.clear_ptr()[n], expected);
        assert_eq!(g.field_ptr()[n], if n >= 160 { 5 } else { 0 });
    }
}

#[test]
fn next_slots_are_laid_out_in_order() {
    let mut next = [blank_preview(); 3];
    for p in 0..3 {
        for i in 0..4 {
            for j in 0..4 {
                next[p][i][j] = Cell::new((100 + 16 * p + 4 * i + j) as u32, false);
            }
        }
    }
    let mut g = Game::new();
    g.rendering(&blank_board(), &next, &blank_preview());
    assert_eq!(g.next_ptr().len(), 48);
    for p in 0..3 {
        for m in 0..16 {
            assert_eq!(g.next_ptr()[16 * p + m], (100 + 16 * p + m) as u8);
        }
    }
}

#[test]
fn hold_is_row_major() {
    let mut hold = blank_preview();
    hold[1][2] = Cell::new(4, false);
    hold[3][0] = Cell::new(6, true);
    let mut g = Game::new();
    g.rendering(&blank_board(), &[blank_preview(); 3], &hold);
    let mut expected = [0u8; 16];
    expected[6] = 4;
    expected[12] = 6;
    assert_eq!(g.hold_ptr(), &expected[..]);
}

#[test]
fn color_keeps_low_byte() {
    let mut board = blank_board();
    board[0][0] = Cell::new(255, false);
    board[0][1] = Cell::new(256, false);
    board[0][2] = Cell::new(258, true);
    let mut g = Game::new();
    g.rendering(&board, &[blank_preview(); 3], &blank_preview());
    assert_eq!(&g.field_ptr()[0..3], &[255u8, 0, 2][..]);
    assert_eq!(&g.clear_ptr()[0..3], &[0u8, 0, 1][..]);
}

#[test]
fn rendering_twice_is_identical() {
    let mut board = blank_board();
    board[5][5] = Cell::new(2, true);
    board[19][0] = Cell::new(1, false);
    let mut next = [blank_preview(); 3];
    next[2][0][3] = Cell::new(9, false);
    let mut hold = blank_preview();
    hold[2][2] = Cell::new(3, false);
    let mut g = Game::new();
    g.rendering(&board, &next, &hold);
    let first = (
        g.field_ptr().to_vec(),
        g.clear_ptr().to_vec(),
        g.next_ptr().to_vec(),
        g.hold_ptr().to_vec(),
    );
    g.rendering(&board, &next, &hold);
    assert_eq!(g.field_ptr(), &first.0[..]);
    assert_eq!(g.clear_ptr(), &first.1[..]);
    assert_eq!(g.next_ptr(), &first.2[..]);
    assert_eq!(g.hold_ptr(), &first.3[..]);
}

#[test]
fn rendering_rewrites_every_byte() {
    let mut board = blank_board();
    let mut next = [blank_preview(); 3];
    let hold = [[Cell::new(8, false); 4]; 4];
    for i in 0..20 {
        for j in 0..10 {
            board[i][j] = Cell::new(8, true);
        }
    }
    for p in 0..3 {
        next[p] = [[Cell::new(8, false); 4]; 4];
    }
    let mut g = Game::new();
    g.rendering(&board, &next, &hold);
    assert!(g.field_ptr().iter().all(|&b| b == 8));
    g.rendering(&blank_board(), &[blank_preview(); 3], &blank_preview());
    assert!(g.field_ptr().iter().all(|&b| b == 0));
    assert!(g.clear_ptr().iter().all(|&b| b == 0));
    assert!(g.next_ptr().iter().all(|&b| b == 0));
    assert!(g.hold_ptr().iter().all(|&b| b == 0));
}

#[test]
fn tick_keeps_flag_order() {
    assert_eq!(
        Game::tick(true, false, false, false, false, false, false),
        [true, false, false, false, false, false, false]
    );
    assert_eq!(
        Game::tick(false, false, false, true, false, false, false),
        [false, false, false, true, false, false, false]
    );
    assert_eq!(
        Game::tick(false, true, true, false, true, false, true),
        [false, true, true, false, true, false, true]
    );
}

#[test]
fn tick_passes_conflicting_flags() {
    assert_eq!(
        Game::tick(true, true, false, false, true, true, false),
        [true, true, false, false, true, true, false]
    );
}

#[test]
fn cell_bytes() {
    assert_eq!(Cell::new(3, true).color_byte(), 3);
    assert_eq!(Cell::new(3, true).clear_byte(), 1);
    assert_eq!(Cell::new(300, false).color_byte(), 44);
    assert_eq!(Cell::empty().clear_byte(), 0);
    assert_eq!(Cell::empty().color_byte(), 0);
}
