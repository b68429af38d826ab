use tic_tac_toe::board::{check_winner, empty_board, Board, Symbol};
use tic_tac_toe::game::{
    initialize, make_move, timeout, CustomError, GameData, InitializeCtx, MakeMoveCtx, Pubkey,
    TimeoutCtx,
};

const E: Symbol = Symbol::SymbolEmpty;
const X: Symbol = Symbol::SymbolX;
const O: Symbol = Symbol::SymbolO;

fn key(b: u8) -> Pubkey {
    Pubkey::new([b; 32])
}

fn new_game(amount: u64, delay: u64, clock: u64) -> GameData {
    let mut ctx = InitializeCtx { player_a: key(1), player_b: key(2), clock_slot: clock, game_data: None };
    assert_eq!(initialize(&mut ctx, amount, delay), Ok(()));
    ctx.game_data.unwrap()
}

/// Plays a move by `player`, who holds `lamports`, at `clock`; returns the
/// result, the record and the player's balance afterwards.
fn play(g: GameData, player: Pubkey, lamports: u64, clock: u64, row: u8, col: u8) -> (Result<(), CustomError>, GameData, u64) {
    let mut ctx = MakeMoveCtx { player, player_lamports: lamports, clock_slot: clock, game_data: g };
    let r = make_move(&mut ctx, row, col);
    (r, ctx.game_data, ctx.player_lamports)
}

fn play_ok(g: GameData, player: Pubkey, row: u8, col: u8) -> GameData {
    let (r, g2, _) = play(g, player, 1_000, 0, row, col);
    assert_eq!(r, Ok(()));
    g2
}

fn marked(b: &Board) -> usize {
    b.iter().flatten().filter(|s| **s != E).count()
}

#[test]
fn initialize_scenario() {
    let g = new_game(100, 1000, 0);
    assert_eq!(g.end_slot, 1000);
    assert!(g.turn_a);
    assert_eq!(g.board, [[E; 3]; 3]);
    assert!(!g.player_a_has_deposited);
    assert!(!g.player_b_has_deposited);
    assert_eq!(g.required_amount, 100);
    assert_eq!(g.escrow, 0);
    assert_eq!(g.player_a, key(1));
    assert_eq!(g.player_b, key(2));
}

#[test]
fn initialize_deadline_from_clock() {
    let g = new_game(5, 30, 70);
    assert_eq!(g.end_slot, 100);
}

#[test]
fn initialize_refusals() {
    let existing = new_game(100, 1000, 0);
    let mut ctx = InitializeCtx { player_a: key(1), player_b: key(2), clock_slot: 0, game_data: Some(existing) };
    assert_eq!(initialize(&mut ctx, 100, 1000), Err(CustomError::AlreadyExists));
    assert_eq!(ctx.game_data.unwrap().end_slot, 1000);

    let mut ctx = InitializeCtx { player_a: key(1), player_b: key(1), clock_slot: 0, game_data: None };
    assert_eq!(initialize(&mut ctx, 100, 1000), Err(CustomError::InvalidPlayer));
    assert!(ctx.game_data.is_none());

    let mut ctx = InitializeCtx { player_a: key(1), player_b: key(2), clock_slot: 0, game_data: None };
    assert_eq!(initialize(&mut ctx, 0, 1000), Err(CustomError::InvalidAmount));
    assert_eq!(initialize(&mut ctx, 100, 0), Err(CustomError::InvalidDelay));
    assert!(ctx.game_data.is_none());

    let mut ctx = InitializeCtx { player_a: key(1), player_b: key(2), clock_slot: u64::MAX - 5, game_data: None };
    assert_eq!(initialize(&mut ctx, 100, 6), Err(CustomError::InvalidDelay));
    assert_eq!(initialize(&mut ctx, 100, 5), Ok(()));
    assert_eq!(ctx.game_data.unwrap().end_slot, u64::MAX);
}

#[test]
fn first_move_takes_deposit() {
    let g = new_game(100, 1000, 0);
    let (r, g, lamports) = play(g, key(1), 500, 0, 0, 0);
    assert_eq!(r, Ok(()));
    assert_eq!(lamports, 400);
    assert_eq!(g.escrow, 100);
    assert!(g.player_a_has_deposited);
    assert!(!g.player_b_has_deposited);
    assert_eq!(g.board[0][0], X);
    assert!(!g.turn_a);
}

#[test]
fn second_move_takes_no_deposit() {
    let g = new_game(100, 1000, 0);
    let g = play_ok(g, key(1), 0, 0);
    let (r, g, lamports) = play(g, key(2), 100, 0, 1, 1);
    assert_eq!(r, Ok(()));
    assert_eq!(lamports, 0);
    assert_eq!(g.board[1][1], O);
    let (r, g, lamports) = play(g, key(1), 7, 0, 2, 2);
    assert_eq!(r, Ok(()));
    assert_eq!(lamports, 7);
    assert_eq!(g.escrow, 200);
    assert!(g.turn_a == false);
}

#[test]
fn deposit_that_cannot_be_paid_fails() {
    let g = new_game(100, 1000, 0);
    let (r, g2, lamports) = play(g, key(1), 99, 0, 0, 0);
    assert_eq!(r, Err(CustomError::TransferFailed));
    assert_eq!(lamports, 99);
    assert_eq!(g2.board, g.board);
    assert!(!g2.player_a_has_deposited);
    assert_eq!(g2.escrow, 0);
}

#[test]
fn top_row_win_pays_winner() {
    let g = new_game(100, 1000, 0);
    let (_, g, a) = play(g, key(1), 1000, 0, 0, 0);
    let (_, g, b) = play(g, key(2), 1000, 0, 1, 0);
    let (_, g, a) = play(g, key(1), a, 0, 0, 1);
    let (_, g, _) = play(g, key(2), b, 0, 1, 1);
    assert_eq!(g.escrow, 200);
    let (r, g, a) = play(g, key(1), a, 0, 0, 2);
    assert_eq!(r, Ok(()));
    assert_eq!(g.board[0], [X, X, X]);
    assert_eq!(g.escrow, 0);
    assert_eq!(a, 900 + 200);
}

#[test]
fn occupied_cell_refused() {
    let g = new_game(100, 1000, 0);
    let g = play_ok(g, key(1), 1, 1);
    let (r, g2, lamports) = play(g, key(2), 500, 0, 1, 1);
    assert_eq!(r, Err(CustomError::CellOccupied));
    assert_eq!(g2.board, g.board);
    assert_eq!(lamports, 500);
    assert!(!g2.player_b_has_deposited);
    assert_eq!(g2.escrow, 100);
}

#[test]
fn wrong_player_refused() {
    let g = new_game(100, 1000, 0);
    let (r, g2, _) = play(g, key(2), 500, 0, 0, 0);
    assert_eq!(r, Err(CustomError::InvalidPlayer));
    assert!(g2.turn_a);
    assert_eq!(g2.board, g.board);
    let (r, _, _) = play(g, key(9), 500, 0, 0, 0);
    assert_eq!(r, Err(CustomError::InvalidPlayer));
    let g = play_ok(g, key(1), 0, 0);
    let (r, g2, _) = play(g, key(1), 500, 0, 1, 1);
    assert_eq!(r, Err(CustomError::InvalidPlayer));
    assert!(!g2.turn_a);
}

#[test]
fn move_at_deadline_refused() {
    let g = new_game(100, 1000, 0);
    let (r, _, _) = play(g, key(1), 500, 1000, 0, 0);
    assert_eq!(r, Err(CustomError::TimeoutReached));
    let (r, _, _) = play(g, key(1), 500, 5000, 0, 0);
    assert_eq!(r, Err(CustomError::TimeoutReached));
    let (r, _, _) = play(g, key(1), 500, 999, 0, 0);
    assert_eq!(r, Ok(()));
}

#[test]
fn position_out_of_board_refused() {
    let g = new_game(100, 1000, 0);
    let (r, _, _) = play(g, key(1), 500, 0, 3, 0);
    assert_eq!(r, Err(CustomError::InvalidPosition));
    let (r, _, _) = play(g, key(1), 500, 0, 0, 3);
    assert_eq!(r, Err(CustomError::InvalidPosition));
    let (r, _, _) = play(g, key(1), 500, 0, 255, 255);
    assert_eq!(r, Err(CustomError::InvalidPosition));
}

#[test]
fn moves_fill_board_in_turn() {
    let moves: [(u8, u8); 9] = [(0, 0), (0, 1), (0, 2), (1, 1), (1, 0), (1, 2), (2, 1), (2, 0), (2, 2)];
    let mut g = new_game(10, 1000, 0);
    for (k, (r, c)) in moves.iter().enumerate() {
        let player = if k % 2 == 0 { key(1) } else { key(2) };
        g = play_ok(g, player, *r, *c);
        assert_eq!(marked(&g.board), k + 1);
        for (i, (ri, ci)) in moves.iter().take(k + 1).enumerate() {
            let want = if i % 2 == 0 { X } else { O };
            assert_eq!(g.board[*ri as usize][*ci as usize], want);
        }
    }
    assert!(!check_winner(g.board));
    assert_eq!(g.escrow, 20);
}

#[test]
fn timeout_before_deadline_refused() {
    let g = new_game(100, 1000, 0);
    let g = play_ok(g, key(1), 0, 0);
    let mut ctx = TimeoutCtx { player: key(1), player_lamports: 0, clock_slot: 999, game_data: g };
    assert_eq!(timeout(&mut ctx), Err(CustomError::TimeoutNotReached));
    assert_eq!(ctx.game_data.escrow, 100);
    assert_eq!(ctx.player_lamports, 0);
}

#[test]
fn timeout_by_player_on_turn_refused() {
    let g = new_game(100, 1000, 0);
    let g = play_ok(g, key(1), 0, 0);
    let mut ctx = TimeoutCtx { player: key(2), player_lamports: 0, clock_slot: 2000, game_data: g };
    assert_eq!(timeout(&mut ctx), Err(CustomError::InvalidPlayer));
    assert_eq!(ctx.player_lamports, 0);
}

#[test]
fn timeout_claimed_by_waiting_player() {
    let g = new_game(100, 1000, 0);
    let g = play_ok(g, key(1), 0, 0);
    let g = play_ok(g, key(2), 1, 1);
    let g = play_ok(g, key(1), 2, 2);
    assert_eq!(g.escrow, 200);
    let mut ctx = TimeoutCtx { player: key(1), player_lamports: 50, clock_slot: 1000, game_data: g };
    assert_eq!(timeout(&mut ctx), Ok(()));
    assert_eq!(ctx.player_lamports, 250);
    assert_eq!(ctx.game_data.escrow, 0);
    assert_eq!(ctx.game_data.board, g.board);
}

#[test]
fn timeout_without_full_escrow_fails() {
    let g = new_game(100, 1000, 0);
    let g = play_ok(g, key(1), 0, 0);
    let mut ctx = TimeoutCtx { player: key(1), player_lamports: 0, clock_slot: 1000, game_data: g };
    assert_eq!(timeout(&mut ctx), Err(CustomError::TransferFailed));
    assert_eq!(ctx.game_data.escrow, 100);
}

#[test]
fn second_timeout_claim_fails() {
    let g = new_game(100, 10, 0);
    let g = play_ok(g, key(1), 0, 0);
    let g = play_ok(g, key(2), 0, 1);
    let mut ctx = TimeoutCtx { player: key(2), player_lamports: 0, clock_slot: 10, game_data: g };
    assert_eq!(timeout(&mut ctx), Ok(()));
    assert_eq!(timeout(&mut ctx), Err(CustomError::TransferFailed));
    assert_eq!(ctx.player_lamports, 200);
}

fn with_line(cells: [(usize, usize); 3]) -> Board {
    let mut b = empty_board();
    for (r, c) in cells {
        b[r][c] = O;
    }
    b
}

#[test]
fn every_line_wins() {
    let lines = [
        [(0, 0), (0, 1), (0, 2)],
        [(1, 0), (1, 1), (1, 2)],
        [(2, 0), (2, 1), (2, 2)],
        [(0, 0), (1, 0), (2, 0)],
        [(0, 1), (1, 1), (2, 1)],
        [(0, 2), (1, 2), (2, 2)],
        [(0, 0), (1, 1), (2, 2)],
        [(0, 2), (1, 1), (2, 0)],
    ];
    for line in lines {
        assert!(check_winner(with_line(line)));
    }
}

#[test]
fn no_line_no_winner() {
    assert!(!check_winner(empty_board()));
    assert!(!check_winner([[X, O, X], [X, O, O], [O, X, X]]));
    assert!(!check_winner([[X, X, O], [E, E, E], [E, E, E]]));
    assert!(!check_winner([[X, E, E], [E, O, E], [E, E, X]]));
}

#[test]
fn mixed_line_no_winner() {
    assert!(!check_winner([[X, X, O], [O, O, X], [X, O, X]]));
    assert!(check_winner([[X, O, O], [E, X, E], [E, E, X]]));
}

#[test]
fn pubkey_equality() {
    let mut bytes = [3u8; 32];
    assert_eq!(Pubkey::new(bytes), Pubkey::new(bytes));
    bytes[31] = 4;
    assert_ne!(Pubkey::new(bytes), Pubkey::new([3u8; 32]));
    bytes[31] = 3;
    bytes[0] = 0;
    assert_ne!(Pubkey::new(bytes), Pubkey::new([3u8; 32]));
}
