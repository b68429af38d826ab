//! Properties of the game that relate several steps or hold for every input.
use vstd::prelude::*;
use crate::board::{Board, Symbol, board_with, cell, filled, is_empty_board, marked_count};
use crate::game::{
    CustomError, MakeMoveCtx, TimeoutCtx, mark_of, move_outcome, mover, prize, stake_due,
    timeout_outcome, waiting_player,
};

verus! {

/// Setting one cell changes that cell and no other.
pub proof fn lemma_board_with_cell(b: Board, r: int, c: int, s: Symbol)
    requires
        0 <= r < 3,
        0 <= c < 3,
    ensures
        forall|rr: int, cc: int| 0 <= rr < 3 && 0 <= cc < 3 ==> #[trigger] cell(board_with(b, r, c, s), rr, cc)
            == if rr == r && cc == c { s } else { cell(b, rr, cc) },
{
    assert forall|rr: int, cc: int| 0 <= rr < 3 && 0 <= cc < 3 implies #[trigger] cell(board_with(b, r, c, s), rr, cc)
        == if rr == r && cc == c { s } else { cell(b, rr, cc) } by {
        let nb = board_with(b, r, c, s);
        assert(nb@ == b@.update(r, vstd::array::spec_array_update(b@[r], c, s)));
        assert(vstd::array::spec_array_update(b@[r], c, s)@ == b@[r]@.update(c, s));
    }
}

/// Marking an empty cell adds one to the number of marked cells.
pub proof fn lemma_marked_count_grows(b: Board, r: int, c: int, s: Symbol)
    requires
        0 <= r < 3,
        0 <= c < 3,
        cell(b, r, c) == Symbol::SymbolEmpty,
        s != Symbol::SymbolEmpty,
    ensures
        marked_count(board_with(b, r, c, s)) == marked_count(b) + 1,
{
    lemma_board_with_cell(b, r, c, s);
    let nb = board_with(b, r, c, s);
    let d = |i: int, j: int| filled(cell(nb, i, j)) - filled(cell(b, i, j));
    assert(d(0, 0) == if r == 0 && c == 0 { 1int } else { 0 }) by {
        assert(cell(nb, 0, 0) == if r == 0 && c == 0 { s } else { cell(b, 0, 0) });
    }
    assert(d(0, 1) == if r == 0 && c == 1 { 1int } else { 0 }) by {
        assert(cell(nb, 0, 1) == if r == 0 && c == 1 { s } else { cell(b, 0, 1) });
    }
    assert(d(0, 2) == if r == 0 && c == 2 { 1int } else { 0 }) by {
        assert(cell(nb, 0, 2) == if r == 0 && c == 2 { s } else { cell(b, 0, 2) });
    }
    assert(d(1, 0) == if r == 1 && c == 0 { 1int } else { 0 }) by {
        assert(cell(nb, 1, 0) == if r == 1 && c == 0 { s } else { cell(b, 1, 0) });
    }
    assert(d(1, 1) == if r == 1 && c == 1 { 1int } else { 0 }) by {
        assert(cell(nb, 1, 1) == if r == 1 && c == 1 { s } else { cell(b, 1, 1) });
    }
    assert(d(1, 2) == if r == 1 && c == 2 { 1int } else { 0 }) by {
        assert(cell(nb, 1, 2) == if r == 1 && c == 2 { s } else { cell(b, 1, 2) });
    }
    assert(d(2, 0) == if r == 2 && c == 0 { 1int } else { 0 }) by {
        assert(cell(nb, 2, 0) == if r == 2 && c == 0 { s } else { cell(b, 2, 0) });
    }
    assert(d(2, 1) == if r == 2 && c == 1 { 1int } else { 0 }) by {
        assert(cell(nb, 2, 1) == if r == 2 && c == 1 { s } else { cell(b, 2, 1) });
    }
    assert(d(2, 2) == if r == 2 && c == 2 { 1int } else { 0 }) by {
        assert(cell(nb, 2, 2) == if r == 2 && c == 2 { s } else { cell(b, 2, 2) });
    }
}

/// An accepted move marks exactly the chosen cell, which was empty, with the
/// mover's mark, and passes the turn. The players, the stake and the deadline
/// stay as they were, a deposit once made stays recorded, and the mover's
/// deposit is recorded.
pub proof fn lemma_accepted_move(ctx: MakeMoveCtx, row: int, col: int)
    requires
        move_outcome(ctx, row, col) is Ok,
    ensures
        ({
            let b = ctx.game_data.board;
            let nb = move_outcome(ctx, row, col)->Ok_0.game_data.board;
            &&& 0 <= row < 3 && 0 <= col < 3
            &&& cell(b, row, col) == Symbol::SymbolEmpty
            &&& cell(nb, row, col) == mark_of(ctx.game_data.turn_a)
            &&& forall|rr: int, cc: int| 0 <= rr < 3 && 0 <= cc < 3 && !(rr == row && cc == col)
                ==> #[trigger] cell(nb, rr, cc) == cell(b, rr, cc)
            &&& marked_count(nb) == marked_count(b) + 1
            &&& move_outcome(ctx, row, col)->Ok_0.game_data.turn_a == !ctx.game_data.turn_a
        }),
        ({
            let g = ctx.game_data;
            let ng = move_outcome(ctx, row, col)->Ok_0.game_data;
            &&& ng.player_a == g.player_a && ng.player_b == g.player_b
            &&& ng.required_amount == g.required_amount && ng.end_slot == g.end_slot
            &&& g.player_a_has_deposited ==> ng.player_a_has_deposited
            &&& g.player_b_has_deposited ==> ng.player_b_has_deposited
            &&& if g.turn_a { ng.player_a_has_deposited } else { ng.player_b_has_deposited }
        }),
{
    let s = mark_of(ctx.game_data.turn_a);
    lemma_board_with_cell(ctx.game_data.board, row, col, s);
    lemma_marked_count_grows(ctx.game_data.board, row, col, s);
}

/// Each record of `states` after the first is the one left by the move of
/// the same index before it, played on the record before that (the signer
/// and its balance may change between moves).
pub open spec fn played_in_turn(states: Seq<MakeMoveCtx>, moves: Seq<(int, int)>) -> bool {
    &&& states.len() == moves.len() + 1
    &&& forall|i: int| 0 <= i < moves.len() ==> {
        &&& #[trigger] move_outcome(states[i], moves[i].0, moves[i].1) is Ok
        &&& move_outcome(states[i], moves[i].0, moves[i].1)->Ok_0.game_data == states[i + 1].game_data
    }
}

/// Starting from an empty board with player A on turn, after `k` accepted
/// moves the board holds exactly `k` marks, and the cell of the `i`-th move
/// holds X when `i` is even (player A's move) and O when it is odd.
pub proof fn lemma_moves_fill_board(states: Seq<MakeMoveCtx>, moves: Seq<(int, int)>)
    requires
        played_in_turn(states, moves),
        is_empty_board(states[0].game_data.board),
        states[0].game_data.turn_a,
    ensures
        marked_count(states.last().game_data.board) == moves.len(),
        forall|i: int| 0 <= i < moves.len() ==> #[trigger] cell(states.last().game_data.board, moves[i].0, moves[i].1)
            == if i % 2 == 0 { Symbol::SymbolX } else { Symbol::SymbolO },
    decreases moves.len(),
{
    let b0 = states[0].game_data.board;
    if moves.len() == 0 {
        assert(cell(b0, 0, 0) == Symbol::SymbolEmpty && cell(b0, 0, 1) == Symbol::SymbolEmpty
            && cell(b0, 0, 2) == Symbol::SymbolEmpty && cell(b0, 1, 0) == Symbol::SymbolEmpty
            && cell(b0, 1, 1) == Symbol::SymbolEmpty && cell(b0, 1, 2) == Symbol::SymbolEmpty
            && cell(b0, 2, 0) == Symbol::SymbolEmpty && cell(b0, 2, 1) == Symbol::SymbolEmpty
            && cell(b0, 2, 2) == Symbol::SymbolEmpty);
    } else {
        let n = moves.len() - 1;
        let prev_states = states.drop_last();
        let prev_moves = moves.drop_last();
        assert forall|i: int| 0 <= i < prev_moves.len() implies {
            &&& #[trigger] move_outcome(prev_states[i], prev_moves[i].0, prev_moves[i].1) is Ok
            &&& move_outcome(prev_states[i], prev_moves[i].0, prev_moves[i].1)->Ok_0.game_data == prev_states[i + 1].game_data
        } by {
            assert(move_outcome(states[i], moves[i].0, moves[i].1) is Ok);
        }
        lemma_moves_fill_board(prev_states, prev_moves);
        lemma_turn_alternates(states, moves, n);
        let pb = states[n].game_data.board;
        let (r, c) = (moves[n].0, moves[n].1);
        assert(move_outcome(states[n], r, c) is Ok);
        lemma_accepted_move(states[n], r, c);
        assert forall|i: int| 0 <= i < moves.len() implies #[trigger] cell(states.last().game_data.board, moves[i].0, moves[i].1)
            == if i % 2 == 0 { Symbol::SymbolX } else { Symbol::SymbolO } by {
            if i < n {
                assert(cell(pb, prev_moves[i].0, prev_moves[i].1) != Symbol::SymbolEmpty);
                assert(0 <= moves[i].0 < 3 && 0 <= moves[i].1 < 3) by {
                    assert(move_outcome(states[i], moves[i].0, moves[i].1) is Ok);
                }
            }
        }
    }
}

/// In a run of accepted moves from a record with player A on turn, player A is
/// on turn before each move of even index.
pub proof fn lemma_turn_alternates(states: Seq<MakeMoveCtx>, moves: Seq<(int, int)>, i: int)
    requires
        played_in_turn(states, moves),
        states[0].game_data.turn_a,
        0 <= i <= moves.len(),
    ensures
        states[i].game_data.turn_a == (i % 2 == 0),
    decreases i,
{
    if i > 0 {
        lemma_turn_alternates(states, moves, i - 1);
        assert(move_outcome(states[i - 1], moves[i - 1].0, moves[i - 1].1) is Ok);
    }
}

/// A move into a marked cell is refused as occupied, once the signer is the
/// player on turn, can pay any stake still due, and the deadline is ahead;
/// the refusal leaves the record as it was.
pub proof fn lemma_occupied_cell_refused(ctx: MakeMoveCtx, row: int, col: int)
    requires
        ctx.player_lamports >= stake_due(ctx.game_data),
        ctx.game_data.escrow + stake_due(ctx.game_data) <= u64::MAX,
        ctx.player@ == mover(ctx.game_data)@,
        ctx.clock_slot < ctx.game_data.end_slot,
        0 <= row < 3,
        0 <= col < 3,
        cell(ctx.game_data.board, row, col) != Symbol::SymbolEmpty,
    ensures
        move_outcome(ctx, row, col) == Err::<MakeMoveCtx, CustomError>(CustomError::CellOccupied),
{
}

/// A move by a signer who is not on turn is refused as the wrong player, once
/// any stake still due can be paid.
pub proof fn lemma_wrong_player_refused(ctx: MakeMoveCtx, row: int, col: int)
    requires
        ctx.player_lamports >= stake_due(ctx.game_data),
        ctx.game_data.escrow + stake_due(ctx.game_data) <= u64::MAX,
        ctx.player@ != mover(ctx.game_data)@,
    ensures
        move_outcome(ctx, row, col) == Err::<MakeMoveCtx, CustomError>(CustomError::InvalidPlayer),
{
}

/// A move by the player on turn at or after the deadline is refused, once
/// any stake still due can be paid.
pub proof fn lemma_late_move_refused(ctx: MakeMoveCtx, row: int, col: int)
    requires
        ctx.player_lamports >= stake_due(ctx.game_data),
        ctx.game_data.escrow + stake_due(ctx.game_data) <= u64::MAX,
        ctx.player@ == mover(ctx.game_data)@,
        ctx.clock_slot >= ctx.game_data.end_slot,
    ensures
        move_outcome(ctx, row, col) == Err::<MakeMoveCtx, CustomError>(CustomError::TimeoutReached),
{
}

/// A forfeit claimed by the player not on turn before the deadline is refused.
pub proof fn lemma_early_claim_refused(ctx: TimeoutCtx)
    requires
        ctx.player@ == waiting_player(ctx.game_data)@,
        ctx.clock_slot < ctx.game_data.end_slot,
    ensures
        timeout_outcome(ctx) == Err::<TimeoutCtx, CustomError>(CustomError::TimeoutNotReached),
{
}

/// A forfeit claimed by the player not on turn at or after the deadline is
/// granted and pays them twice the stake out of escrow, once the escrow holds
/// it and the claimant's balance can take it.
pub proof fn lemma_due_claim_pays(ctx: TimeoutCtx)
    requires
        ctx.player@ == waiting_player(ctx.game_data)@,
        ctx.clock_slot >= ctx.game_data.end_slot,
        ctx.game_data.escrow >= prize(ctx.game_data),
        ctx.player_lamports + prize(ctx.game_data) <= u64::MAX,
    ensures
        timeout_outcome(ctx) is Ok,
        timeout_outcome(ctx)->Ok_0.player_lamports == ctx.player_lamports + 2 * ctx.game_data.required_amount,
        timeout_outcome(ctx)->Ok_0.game_data.escrow == ctx.game_data.escrow - 2 * ctx.game_data.required_amount,
{
}

/// An accepted move or forfeit claim moves funds between the signer and the
/// escrow and creates or destroys none.
pub proof fn lemma_funds_conserved(m: MakeMoveCtx, row: int, col: int, t: TimeoutCtx)
    ensures
        move_outcome(m, row, col) is Ok ==> move_outcome(m, row, col)->Ok_0.player_lamports
            + move_outcome(m, row, col)->Ok_0.game_data.escrow == m.player_lamports + m.game_data.escrow,
        timeout_outcome(t) is Ok ==> timeout_outcome(t)->Ok_0.player_lamports
            + timeout_outcome(t)->Ok_0.game_data.escrow == t.player_lamports + t.game_data.escrow,
{
}

} // verus!
