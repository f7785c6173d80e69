//! Properties of the protocol, stated over the step functions that
//! `TictactoeContract` is proved to carry out.
use vstd::prelude::*;

use crate::contract::{cell_index, message_step, message_wf, operation_step};
use crate::game::{GameStatus, GameView};
use crate::protocol::{MessageView, OperationView};
use crate::rules::{is_mark, BOARD_CELLS};
use crate::state::StateView;

verus! {

/// Exactly one of three conditions holds.
pub open spec fn exactly_one(a: bool, b: bool, c: bool) -> bool {
    ||| a && !b && !c
    ||| !a && b && !c
    ||| !a && !b && c
}

/// What a legal move did to a match: the cell at `row`, `col` went from empty
/// to the mover's mark, no other cell changed, and the match either ended,
/// was drawn, or handed the turn over, and only one of those.
pub open spec fn one_cell_one_outcome(g: GameView, g2: GameView, row: u8, col: u8) -> bool {
    let idx = cell_index(row, col);
    &&& 0 <= idx < BOARD_CELLS
    &&& g2.board.len() == BOARD_CELLS
    &&& !is_mark(g.board[idx])
    &&& g2.board[idx] == g.current_turn_index as i32
    &&& is_mark(g2.board[idx])
    &&& forall|j: int| 0 <= j < BOARD_CELLS && j != idx ==> g2.board[j] == g.board[j]
    &&& exactly_one(
        g2.status == GameStatus::Ended,
        g2.status == GameStatus::Draw,
        g2.current_turn_index != g.current_turn_index,
    )
}

/// A legal move on an active match of two players changes exactly one cell,
/// from empty to a mark, and then does exactly one of: end the match, declare
/// a draw, or pass the turn.
pub proof fn lemma_move_changes_one_cell(
    s: StateView,
    me: Seq<char>,
    now: u64,
    row: u8,
    col: u8,
)
    requires
        s.wf(),
        s.game matches Some(g) && g.status == GameStatus::Active && g.players.len() == 2,
        operation_step(s, me, now, OperationView::MakeMove { row, col }) is Ok,
    ensures
        operation_step(s, me, now, OperationView::MakeMove { row, col }) matches Ok(r)
            && r.0.game matches Some(g2) && one_cell_one_outcome(s.game->0, g2, row, col),
{
}

/// `b` may follow `a` as the status of a node's match (`None`: no match): a
/// match appears waiting for a player (at its host) or active (at its guest);
/// a waiting match becomes active; an active one ends or is drawn; any match
/// may be deleted; or nothing changes.
pub open spec fn status_may_follow(a: Option<GameStatus>, b: Option<GameStatus>) -> bool {
    ||| b is None
    ||| a == b
    ||| a is None && (b == Some(GameStatus::WaitingForPlayer) || b == Some(GameStatus::Active))
    ||| a == Some(GameStatus::WaitingForPlayer) && b == Some(GameStatus::Active)
    ||| a == Some(GameStatus::Active) && (b == Some(GameStatus::Ended) || b == Some(
        GameStatus::Draw,
    ))
}

/// An operation moves the status only along waiting, active, then ended or
/// drawn, or deletes the match. Creating a match over one that exists starts
/// afresh and is left out.
pub proof fn lemma_operation_status_order(s: StateView, me: Seq<char>, now: u64, op: OperationView)
    requires
        s.wf(),
        !(op is CreateMatch && s.game is Some),
    ensures
        operation_step(s, me, now, op) matches Ok(r) ==> status_may_follow(s.status(), r.0.status()),
{
}

/// A message moves the status only along waiting, active, then ended or
/// drawn, or deletes the match, as long as a snapshot that it carries is
/// itself such a successor of the match it replaces.
pub proof fn lemma_message_status_order(s: StateView, me: Seq<char>, m: MessageView)
    requires
        s.wf(),
        message_wf(m),
        m matches MessageView::InitialStateSync { game } ==> status_may_follow(
            s.status(),
            Some(game.status),
        ),
        m matches MessageView::GameSync { game } ==> status_may_follow(
            s.status(),
            Some(game.status),
        ),
    ensures
        message_step(s, me, m) matches Ok(r) ==> status_may_follow(s.status(), r.0.status()),
{
}

/// Applying the same game snapshot twice leaves the replica as applying it
/// once does.
pub proof fn lemma_game_sync_idempotent(s: StateView, me: Seq<char>, g: GameView)
    ensures
        message_step(s, me, MessageView::GameSync { game: g }) matches Ok(r) && message_step(
            r.0,
            me,
            MessageView::GameSync { game: g },
        ) == message_step(s, me, MessageView::GameSync { game: g }),
{
}

/// Every step keeps the replica well formed, given well-formed snapshots.
pub proof fn lemma_steps_keep_wf(s: StateView, me: Seq<char>, now: u64, op: OperationView, m: MessageView)
    requires
        s.wf(),
        message_wf(m),
    ensures
        operation_step(s, me, now, op) matches Ok(r) ==> r.0.wf(),
        message_step(s, me, m) matches Ok(r) ==> r.0.wf(),
{
}

} // verus!
