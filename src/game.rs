//! The game record and the three operations on it: creation, a move, and the
//! claim of a forfeit once the deadline has passed.
//!
//! The host hands each operation plain values: the signer's key and balance,
//! and the current slot of its clock. Funds move between the signer's balance
//! and the record's escrow; an operation that fails leaves both untouched.
use vstd::prelude::*;
use crate::board::{
    Board, Symbol, board_with, cell, check_winner, empty_board, has_winner, is_empty_board,
    set_cell,
};

verus! {

/// The identity of a participant: a 32-byte public key.
#[derive(Clone, Copy, Debug)]
pub struct Pubkey {
    pub bytes: [u8; 32],
}

impl View for Pubkey {
    type V = Seq<u8>;

    open spec fn view(&self) -> Seq<u8> {
        self.bytes@
    }
}

impl Pubkey {
    pub fn new(bytes: [u8; 32]) -> (k: Pubkey)
        ensures
            k.bytes == bytes,
    {
        Pubkey { bytes }
    }
}

impl PartialEq for Pubkey {
    fn eq(&self, o: &Pubkey) -> (r: bool) {
        let mut i: usize = 0;
        while i < 32
            invariant
                0 <= i <= 32,
                self.bytes@.len() == 32,
                o.bytes@.len() == 32,
                forall|k: int| 0 <= k < i ==> self.bytes@[k] == o.bytes@[k],
            decreases 32 - i,
        {
            if self.bytes[i] != o.bytes[i] {
                return false;
            }
            i = i + 1;
        }
        assert(self.bytes@ =~= o.bytes@);
        true
    }
}

impl vstd::std_specs::cmp::PartialEqSpecImpl for Pubkey {
    open spec fn obeys_eq_spec() -> bool {
        true
    }

    open spec fn eq_spec(&self, o: &Pubkey) -> bool {
        self@ == o@
    }
}

impl Eq for Pubkey {}

/// Why an operation was refused.
#[derive(Clone, Copy, Debug, PartialEq, Eq, Structural)]
pub enum CustomError {
    /// The signer is not the player this operation is for.
    InvalidPlayer,
    /// A row or column outside `0..3`.
    InvalidPosition,
    /// The target cell already holds a mark.
    CellOccupied,
    /// A stake of zero.
    InvalidAmount,
    /// A move at or after the deadline.
    TimeoutReached,
    /// A forfeit claimed before the deadline.
    TimeoutNotReached,
    /// A record already stands at the lobby's address.
    AlreadyExists,
    /// A delay of zero, or a deadline past the largest slot.
    InvalidDelay,
    /// A movement of funds that a balance cannot cover or hold.
    TransferFailed,
}

/// The record of one game.
#[derive(Clone, Copy, Debug)]
pub struct GameData {
    pub player_a: Pubkey,
    pub player_b: Pubkey,
    /// Whether player A is on turn.
    pub turn_a: bool,
    pub player_a_has_deposited: bool,
    pub player_b_has_deposited: bool,
    pub board: Board,
    /// The first slot at which the player on turn has forfeited.
    pub end_slot: u64,
    /// The stake that each player puts into escrow.
    pub required_amount: u64,
    /// The funds that the record holds.
    pub escrow: u64,
}

/// What the creation of a game sees.
#[derive(Clone, Copy, Debug)]
pub struct InitializeCtx {
    pub player_a: Pubkey,
    pub player_b: Pubkey,
    pub clock_slot: u64,
    /// The record at the lobby's address, if one is there.
    pub game_data: Option<GameData>,
}

/// What a move sees: the signer, its balance, the clock and the record.
#[derive(Clone, Copy, Debug)]
pub struct MakeMoveCtx {
    pub player: Pubkey,
    pub player_lamports: u64,
    pub clock_slot: u64,
    pub game_data: GameData,
}

/// What a forfeit claim sees: the signer, its balance, the clock and the record.
#[derive(Clone, Copy, Debug)]
pub struct TimeoutCtx {
    pub player: Pubkey,
    pub player_lamports: u64,
    pub clock_slot: u64,
    pub game_data: GameData,
}

/// The player on turn.
pub open spec fn mover(g: GameData) -> Pubkey {
    if g.turn_a { g.player_a } else { g.player_b }
}

/// The player not on turn, who may claim a forfeit.
pub open spec fn waiting_player(g: GameData) -> Pubkey {
    if g.turn_a { g.player_b } else { g.player_a }
}

/// The player on turn has paid their stake.
pub open spec fn mover_has_deposited(g: GameData) -> bool {
    if g.turn_a { g.player_a_has_deposited } else { g.player_b_has_deposited }
}

/// The mark of player A when `turn_a`, else that of player B.
pub open spec fn mark_of(turn_a: bool) -> Symbol {
    if turn_a { Symbol::SymbolX } else { Symbol::SymbolO }
}

/// What the mover pays into escrow with this move.
pub open spec fn stake_due(g: GameData) -> int {
    if mover_has_deposited(g) { 0 } else { g.required_amount as int }
}

/// The whole stake of a game, paid out to its winner.
pub open spec fn prize(g: GameData) -> int {
    2 * g.required_amount
}

/// The refusal of `initialize`, if any.
pub open spec fn initialize_error(ctx: InitializeCtx, required_amount: u64, delay_slots: u64) -> Option<CustomError> {
    if ctx.game_data is Some {
        Some(CustomError::AlreadyExists)
    } else if ctx.player_a@ == ctx.player_b@ {
        Some(CustomError::InvalidPlayer)
    } else if required_amount == 0 {
        Some(CustomError::InvalidAmount)
    } else if delay_slots == 0 || ctx.clock_slot + delay_slots > u64::MAX {
        Some(CustomError::InvalidDelay)
    } else {
        None
    }
}

/// A freshly created record.
pub open spec fn is_new_game(g: GameData, ctx: InitializeCtx, required_amount: u64, delay_slots: u64) -> bool {
    &&& g.player_a == ctx.player_a
    &&& g.player_b == ctx.player_b
    &&& g.turn_a
    &&& !g.player_a_has_deposited
    &&& !g.player_b_has_deposited
    &&& is_empty_board(g.board)
    &&& g.end_slot == ctx.clock_slot + delay_slots
    &&& g.required_amount == required_amount
    &&& g.escrow == 0
}

/// The result of a move at row `row`, column `col`: the new state, or the refusal.
pub open spec fn move_outcome(ctx: MakeMoveCtx, row: int, col: int) -> Result<MakeMoveCtx, CustomError> {
    let g = ctx.game_data;
    let due = stake_due(g);
    if ctx.player_lamports < due || g.escrow + due > u64::MAX {
        Err(CustomError::TransferFailed)
    } else if ctx.player@ != mover(g)@ {
        Err(CustomError::InvalidPlayer)
    } else if ctx.clock_slot >= g.end_slot {
        Err(CustomError::TimeoutReached)
    } else if !(0 <= row < 3 && 0 <= col < 3) {
        Err(CustomError::InvalidPosition)
    } else if cell(g.board, row, col) != Symbol::SymbolEmpty {
        Err(CustomError::CellOccupied)
    } else {
        let board = board_with(g.board, row, col, mark_of(g.turn_a));
        let escrow = g.escrow + due;
        let lamports = ctx.player_lamports - due;
        let paid = if has_winner(board) { prize(g) } else { 0 };
        if escrow < paid || lamports + paid > u64::MAX {
            Err(CustomError::TransferFailed)
        } else {
            Ok(MakeMoveCtx {
                player_lamports: (lamports + paid) as u64,
                game_data: GameData {
                    turn_a: !g.turn_a,
                    player_a_has_deposited: g.player_a_has_deposited || g.turn_a,
                    player_b_has_deposited: g.player_b_has_deposited || !g.turn_a,
                    board,
                    escrow: (escrow - paid) as u64,
                    ..g
                },
                ..ctx
            })
        }
    }
}

/// The result of a forfeit claim: the new state, or the refusal.
pub open spec fn timeout_outcome(ctx: TimeoutCtx) -> Result<TimeoutCtx, CustomError> {
    let g = ctx.game_data;
    if ctx.player@ != waiting_player(g)@ {
        Err(CustomError::InvalidPlayer)
    } else if ctx.clock_slot < g.end_slot {
        Err(CustomError::TimeoutNotReached)
    } else if g.escrow < prize(g) || ctx.player_lamports + prize(g) > u64::MAX {
        Err(CustomError::TransferFailed)
    } else {
        Ok(TimeoutCtx {
            player_lamports: (ctx.player_lamports + prize(g)) as u64,
            game_data: GameData { escrow: (g.escrow - prize(g)) as u64, ..g },
            ..ctx
        })
    }
}

/// Creates the record of a new game between the two players of `ctx`, with
/// player A on turn and a deadline `delay_slots` after the current slot.
pub fn initialize(ctx: &mut InitializeCtx, required_amount: u64, delay_slots: u64) -> (r: Result<(), CustomError>)
    ensures
        match initialize_error(*old(ctx), required_amount, delay_slots) {
            Some(e) => r == Err::<(), CustomError>(e) && *final(ctx) == *old(ctx),
            None => {
                &&& r is Ok
                &&& final(ctx).game_data is Some
                &&& is_new_game(final(ctx).game_data.unwrap(), *old(ctx), required_amount, delay_slots)
                &&& final(ctx).player_a == old(ctx).player_a
                &&& final(ctx).player_b == old(ctx).player_b
                &&& final(ctx).clock_slot == old(ctx).clock_slot
            },
        },
{
    if ctx.game_data.is_some() {
        return Err(CustomError::AlreadyExists);
    }
    if ctx.player_a == ctx.player_b {
        return Err(CustomError::InvalidPlayer);
    }
    if required_amount == 0 {
        return Err(CustomError::InvalidAmount);
    }
    if delay_slots == 0 || delay_slots > u64::MAX - ctx.clock_slot {
        return Err(CustomError::InvalidDelay);
    }
    ctx.game_data = Some(GameData {
        player_a: ctx.player_a,
        player_b: ctx.player_b,
        turn_a: true,
        player_a_has_deposited: false,
        player_b_has_deposited: false,
        board: empty_board(),
        end_slot: ctx.clock_slot + delay_slots,
        required_amount,
        escrow: 0,
    });
    Ok(())
}

/// Plays the signer's mark at row `row`, column `col`. The signer's stake goes
/// into escrow with their first move; a move that completes a line pays the
/// whole stake of the game to the signer.
pub fn make_move(ctx: &mut MakeMoveCtx, row: u8, col: u8) -> (r: Result<(), CustomError>)
    ensures
        match move_outcome(*old(ctx), row as int, col as int) {
            Ok(next) => r is Ok && *final(ctx) == next,
            Err(e) => r == Err::<(), CustomError>(e) && *final(ctx) == *old(ctx),
        },
{
    let turn_a = ctx.game_data.turn_a;
    let deposited = if turn_a {
        ctx.game_data.player_a_has_deposited
    } else {
        ctx.game_data.player_b_has_deposited
    };
    let due: u64 = if deposited { 0 } else { ctx.game_data.required_amount };
    if ctx.player_lamports < due || due > u64::MAX - ctx.game_data.escrow {
        return Err(CustomError::TransferFailed);
    }
    let current_player = if turn_a { ctx.game_data.player_a } else { ctx.game_data.player_b };
    if !(ctx.player == current_player) {
        return Err(CustomError::InvalidPlayer);
    }
    if ctx.clock_slot >= ctx.game_data.end_slot {
        return Err(CustomError::TimeoutReached);
    }
    if !(row < 3 && col < 3) {
        return Err(CustomError::InvalidPosition);
    }
    let (ri, ci) = (row as usize, col as usize);
    if ctx.game_data.board[ri][ci] != Symbol::SymbolEmpty {
        return Err(CustomError::CellOccupied);
    }
    let mut board = ctx.game_data.board;
    set_cell(&mut board, ri, ci, if turn_a { Symbol::SymbolX } else { Symbol::SymbolO });
    let escrow = ctx.game_data.escrow + due;
    let lamports = ctx.player_lamports - due;
    let paid: u64 = if check_winner(board) {
        let amount = ctx.game_data.required_amount;
        if amount > escrow / 2 {
            return Err(CustomError::TransferFailed);
        }
        2 * amount
    } else {
        0
    };
    if paid > u64::MAX - lamports {
        return Err(CustomError::TransferFailed);
    }
    ctx.player_lamports = lamports + paid;
    ctx.game_data.turn_a = !turn_a;
    if turn_a {
        ctx.game_data.player_a_has_deposited = true;
    } else {
        ctx.game_data.player_b_has_deposited = true;
    }
    ctx.game_data.board = board;
    ctx.game_data.escrow = escrow - paid;
    Ok(())
}

/// Pays the whole stake of the game to the player not on turn, once the
/// player on turn has let the deadline pass.
pub fn timeout(ctx: &mut TimeoutCtx) -> (r: Result<(), CustomError>)
    ensures
        match timeout_outcome(*old(ctx)) {
            Ok(next) => r is Ok && *final(ctx) == next,
            Err(e) => r == Err::<(), CustomError>(e) && *final(ctx) == *old(ctx),
        },
{
    let allowed_player = if ctx.game_data.turn_a { ctx.game_data.player_b } else { ctx.game_data.player_a };
    if !(ctx.player == allowed_player) {
        return Err(CustomError::InvalidPlayer);
    }
    if ctx.clock_slot < ctx.game_data.end_slot {
        return Err(CustomError::TimeoutNotReached);
    }
    let amount = ctx.game_data.required_amount;
    if amount > ctx.game_data.escrow / 2 || 2 * amount > u64::MAX - ctx.player_lamports {
        return Err(CustomError::TransferFailed);
    }
    ctx.player_lamports = ctx.player_lamports + 2 * amount;
    ctx.game_data.escrow = ctx.game_data.escrow - 2 * amount;
    Ok(())
}

} // verus!
