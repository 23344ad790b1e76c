use cch24_core::game::{GameBoard, GameError, GamePiece, GameState};

#[test]
fn test_display_game_piece() {
    assert_eq!(GamePiece::Cookie.glyph(), "🍪");
    assert_eq!(GamePiece::Milk.glyph(), "🥛");
}

#[test]
fn test_display_game_board() {
    let board = GameBoard::default();
    assert_eq!(
        board.render(),
        "⬜⬛⬛⬛⬛⬜\n\
         ⬜⬛⬛⬛⬛⬜\n\
         ⬜⬛⬛⬛⬛⬜\n\
         ⬜⬛⬛⬛⬛⬜\n\
         ⬜⬜⬜⬜⬜⬜\n"
    );
}

#[test]
fn test_place() {
    let mut game = GameBoard::default();
    game.place(GamePiece::Cookie, 0).unwrap();
    assert_eq!(
        game.render(),
        "⬜⬛⬛⬛⬛⬜\n\
         ⬜⬛⬛⬛⬛⬜\n\
         ⬜⬛⬛⬛⬛⬜\n\
         ⬜🍪⬛⬛⬛⬜\n\
         ⬜⬜⬜⬜⬜⬜\n"
    )
}

#[test]
fn test_display_game_board_winner() {
    let mut board = GameBoard::default();
    board.set_cell(0, 0, Some(GamePiece::Cookie));
    board.set_cell(1, 1, Some(GamePiece::Cookie));
    board.set_cell(2, 2, Some(GamePiece::Cookie));
    board.set_cell(3, 3, Some(GamePiece::Cookie));
    board.update_state();
    assert_eq!(
        board.render(),
        "⬜🍪⬛⬛⬛⬜\n\
         ⬜⬛🍪⬛⬛⬜\n\
         ⬜⬛⬛🍪⬛⬜\n\
         ⬜⬛⬛⬛🍪⬜\n\
         ⬜⬜⬜⬜⬜⬜\n\
         🍪 wins!\n"
    );
}

#[test]
fn test_game_board_draw() {
    let mut game = GameBoard::default();
    for row in 0..4 {
        if row % 2 == 0 {
            game.set_cell(row, 0, Some(GamePiece::Milk));
            game.set_cell(row, 1, Some(GamePiece::Cookie));
            game.set_cell(row, 2, Some(GamePiece::Cookie));
            game.set_cell(row, 3, Some(GamePiece::Milk));
        } else {
            game.set_cell(row, 0, Some(GamePiece::Cookie));
            game.set_cell(row, 1, Some(GamePiece::Milk));
            game.set_cell(row, 2, Some(GamePiece::Milk));
            game.set_cell(row, 3, Some(GamePiece::Cookie));
        }
    }
    game.update_state();
    assert_eq!(
        game.render(),
        "⬜🥛🍪🍪🥛⬜\n\
         ⬜🍪🥛🥛🍪⬜\n\
         ⬜🥛🍪🍪🥛⬜\n\
         ⬜🍪🥛🥛🍪⬜\n\
         ⬜⬜⬜⬜⬜⬜\n\
         No winner.\n"
    );
}

#[test]
fn test_get_diagonals() {
    let mut board = GameBoard::default();
    for i in 0..4 {
        board.set_cell(i, i, Some(GamePiece::Cookie));
        board.set_cell(i, 3 - i, Some(GamePiece::Milk));
    }
    let diagonals = board.get_diagonals();
    assert_eq!(
        diagonals[0],
        vec![
            Some(GamePiece::Cookie),
            Some(GamePiece::Cookie),
            Some(GamePiece::Cookie),
            Some(GamePiece::Cookie)
        ]
    );
    assert_eq!(
        diagonals[1],
        vec![
            Some(GamePiece::Milk),
            Some(GamePiece::Milk),
            Some(GamePiece::Milk),
            Some(GamePiece::Milk)
        ]
    );
}

#[test]
fn test_gravity_stacks_and_column_full() {
    let mut game = GameBoard::default();
    // Alternate pieces so the column fills without a win.
    game.place(GamePiece::Cookie, 2).unwrap();
    game.place(GamePiece::Milk, 2).unwrap();
    game.place(GamePiece::Cookie, 2).unwrap();
    game.place(GamePiece::Milk, 2).unwrap();
    let before = game.render();
    assert_eq!(
        before,
        "⬜⬛⬛🥛⬛⬜\n\
         ⬜⬛⬛🍪⬛⬜\n\
         ⬜⬛⬛🥛⬛⬜\n\
         ⬜⬛⬛🍪⬛⬜\n\
         ⬜⬜⬜⬜⬜⬜\n"
    );
    // A fifth placement into the full column fails and changes nothing.
    assert_eq!(game.place(GamePiece::Cookie, 2), Err(GameError::ColumnFull));
    assert_eq!(game.render(), before);
}

#[test]
fn test_column_win_and_terminal_lock() {
    let mut game = GameBoard::default();
    game.place(GamePiece::Milk, 1).unwrap();
    game.place(GamePiece::Milk, 1).unwrap();
    game.place(GamePiece::Milk, 1).unwrap();
    let state = game.place(GamePiece::Milk, 1).unwrap();
    assert_eq!(state, GameState::Winner(GamePiece::Milk));
    let before = game.render();
    assert!(before.ends_with("🥛 wins!\n"));
    // Once the outcome is terminal, every placement fails with GameOver and
    // performs no mutation.
    assert_eq!(game.place(GamePiece::Cookie, 0), Err(GameError::GameOver));
    assert_eq!(game.place(GamePiece::Milk, 1), Err(GameError::GameOver));
    assert_eq!(game.render(), before);
}

#[test]
fn test_diagonal_win_by_placement() {
    let mut game = GameBoard::default();
    // Fillers first, so the main diagonal completes last.
    game.place(GamePiece::Milk, 0).unwrap();
    game.place(GamePiece::Milk, 0).unwrap();
    game.place(GamePiece::Milk, 0).unwrap();
    game.place(GamePiece::Milk, 1).unwrap();
    game.place(GamePiece::Milk, 1).unwrap();
    game.place(GamePiece::Milk, 2).unwrap();
    game.place(GamePiece::Cookie, 3).unwrap();
    game.place(GamePiece::Cookie, 2).unwrap();
    game.place(GamePiece::Cookie, 1).unwrap();
    let state = game.place(GamePiece::Cookie, 0).unwrap();
    assert_eq!(state, GameState::Winner(GamePiece::Cookie));
    assert!(game.render().ends_with("🍪 wins!\n"));
}

#[test]
fn test_draw_by_placement() {
    let mut game = GameBoard::default();
    let columns: [[GamePiece; 4]; 4] = [
        [GamePiece::Cookie, GamePiece::Milk, GamePiece::Cookie, GamePiece::Milk],
        [GamePiece::Milk, GamePiece::Cookie, GamePiece::Milk, GamePiece::Cookie],
        [GamePiece::Milk, GamePiece::Cookie, GamePiece::Milk, GamePiece::Cookie],
        [GamePiece::Cookie, GamePiece::Milk, GamePiece::Cookie, GamePiece::Milk],
    ];
    let mut last = GameState::Running;
    for (c, column) in columns.iter().enumerate() {
        for piece in column {
            last = game.place(*piece, c).unwrap();
        }
    }
    assert_eq!(last, GameState::Draw);
    assert!(game.render().ends_with("No winner.\n"));
}

#[test]
fn test_randomize_fills_and_keeps_outcome() {
    let mut game = GameBoard::default();
    game.place(GamePiece::Milk, 1).unwrap();
    game.place(GamePiece::Milk, 1).unwrap();
    game.place(GamePiece::Milk, 1).unwrap();
    assert_eq!(game.place(GamePiece::Milk, 1).unwrap(), GameState::Winner(GamePiece::Milk));
    let state = game.randomize();
    // The outcome is untouched by randomize, and still rendered.
    assert_eq!(state, GameState::Winner(GamePiece::Milk));
    let text = game.render();
    assert!(text.ends_with("🥛 wins!\n"));
    // Every cell was overwritten with a piece: no empty-cell glyph remains.
    assert!(!text.contains('⬛'));
}

#[test]
fn test_reset_restores_empty_board_and_generator() {
    let mut fresh = GameBoard::default();
    let mut used = GameBoard::default();
    used.randomize();
    used.place(GamePiece::Cookie, 0).ok();
    used.reset();
    assert_eq!(
        used.render(),
        "⬜⬛⬛⬛⬛⬜\n\
         ⬜⬛⬛⬛⬛⬜\n\
         ⬜⬛⬛⬛⬛⬜\n\
         ⬜⬛⬛⬛⬛⬜\n\
         ⬜⬜⬜⬜⬜⬜\n"
    );
    // The generator restarts at the fixed-seed sequence: the first random
    // board after a reset equals the first random board of a fresh process.
    used.randomize();
    fresh.randomize();
    assert_eq!(used.render(), fresh.render());
}

#[test]
fn test_determinism_of_identical_call_sequences() {
    let mut a = GameBoard::default();
    let mut b = GameBoard::default();
    assert_eq!(a.render(), b.render());
    a.randomize();
    b.randomize();
    assert_eq!(a.render(), b.render());
    a.randomize();
    b.randomize();
    assert_eq!(a.render(), b.render());
    a.reset();
    b.reset();
    let _ = a.place(GamePiece::Cookie, 3);
    let _ = b.place(GamePiece::Cookie, 3);
    a.randomize();
    b.randomize();
    assert_eq!(a.render(), b.render());
}
