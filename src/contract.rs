//! The local state machine and the message handlers of one node.
//!
//! Each step is first stated as a pure function over views
//! (`operation_step`, `message_step`): from the replica before, the node's own
//! id and the request, to the replica after and the message to send, or to the
//! reason the request is turned down. `TictactoeContract` carries the steps
//! out and is proved to match them exactly.
use vstd::prelude::*;

use crate::game::{
    decimal, new_game, opponent_of, Game, GameStatus, GameView, PlayerInfo, PlayerView,
};
use crate::protocol::{
    outgoing_view, AbortReason, CrossChainMessage, MessageView, Operation, OperationView,
    Outgoing, OutgoingView,
};
use crate::rules::{
    board_full, board_wf, is_mark, lemma_winner_is_player, line_at, winner_from, winner_of,
    BOARD_CELLS, LINE_COUNT,
};
use crate::state::{empty_state, StateView, TictactoeState};
use crate::InstantiationArgument;

verus! {

/// The notice the host shows once a second player has joined.
pub open spec fn note_player_joined() -> Seq<char> {
    "Player joined"@
}

/// The notice the guest shows once it has the match.
pub open spec fn note_match_ready() -> Seq<char> {
    "Match ready"@
}

/// The notice shown when the opponent has left.
pub open spec fn note_opponent_left() -> Seq<char> {
    "Opponent left"@
}

/// The cell index of `row`, `col`.
pub open spec fn cell_index(row: u8, col: u8) -> int {
    row as int * 3 + col as int
}

/// The match after a mark has been put down, giving board `b`: ended, if a
/// line is won (the winner is the player whose index is the mark); else a
/// draw, if the board is full; else the turn passes to the other player.
pub open spec fn settle(g: GameView, b: Seq<i32>) -> GameView {
    match winner_of(b) {
        Some(m) => GameView {
            board: b,
            status: GameStatus::Ended,
            winner_chain_id: Some(g.players[m as int].chain_id),
            ..g
        },
        None => if board_full(b) {
            GameView { board: b, status: GameStatus::Draw, ..g }
        } else {
            GameView { board: b, current_turn_index: (1 - g.current_turn_index) as u8, ..g }
        },
    }
}

/// `me` puts its mark at `row`, `col`, in this order of checks: the match
/// must be playable, the cell on the board, the cell empty and the turn
/// `me`'s. The mark put down is the turn index.
pub open spec fn move_outcome(g: GameView, me: Seq<char>, row: u8, col: u8) -> Result<
    GameView,
    AbortReason,
> {
    if !g.can_play() {
        Err(AbortReason::MatchNotReady)
    } else if row >= 3 || col >= 3 {
        Err(AbortReason::InvalidCell)
    } else if is_mark(g.board[cell_index(row, col)]) {
        Err(AbortReason::CellTaken)
    } else if g.turn_holder() != Some(me) {
        Err(AbortReason::NotYourTurn)
    } else {
        Ok(settle(g, g.board.update(cell_index(row, col), g.current_turn_index as i32)))
    }
}

/// The snapshot of `g` for `me`'s opponent, when there is one.
pub open spec fn sync_for_opponent(g: GameView, me: Seq<char>) -> Option<OutgoingView> {
    match opponent_of(g, me) {
        Some(o) => Some(OutgoingView { destination: o, message: MessageView::GameSync { game: g } }),
        None => None,
    }
}

/// The notice that `me` leaves, for its opponent in `game`, when there is one.
pub open spec fn leave_notice_for(game: Option<GameView>, me: Seq<char>) -> Option<OutgoingView> {
    match game {
        Some(g) => match opponent_of(g, me) {
            Some(o) => Some(
                OutgoingView {
                    destination: o,
                    message: MessageView::LeaveNotice { player_chain_id: me },
                },
            ),
            None => None,
        },
        None => None,
    }
}

/// An operation of the node `me`, at time `now` (in microseconds).
///
/// - Creating a match replaces whatever match there was and clears the notice.
/// - Joining changes nothing here and sends the join request to the host.
/// - A move needs a match and a legal move (see `move_outcome`); it replaces
///   the match and sends the new snapshot to the opponent.
/// - Leaving clears the match and the notice, and tells the opponent.
pub open spec fn operation_step(s: StateView, me: Seq<char>, now: u64, op: OperationView) -> Result<
    (StateView, Option<OutgoingView>),
    AbortReason,
> {
    match op {
        OperationView::CreateMatch { host_name } => Ok(
            (
                StateView {
                    game: Some(new_game(me, decimal(now as nat), host_name)),
                    last_notification: None,
                },
                None,
            ),
        ),
        OperationView::JoinMatch { host_chain_id, player_name } => Ok(
            (
                s,
                Some(
                    OutgoingView {
                        destination: host_chain_id,
                        message: MessageView::JoinRequest { player_chain_id: me, player_name },
                    },
                ),
            ),
        ),
        OperationView::MakeMove { row, col } => match s.game {
            None => Err(AbortReason::MatchNotFound),
            Some(g) => match move_outcome(g, me, row, col) {
                Err(e) => Err(e),
                Ok(g2) => Ok(
                    (
                        StateView { game: Some(g2), last_notification: s.last_notification },
                        sync_for_opponent(g2, me),
                    ),
                ),
            },
        },
        OperationView::LeaveMatch => Ok((empty_state(), leave_notice_for(s.game, me))),
    }
}

/// The match once the player `id`, named `name`, has joined it.
pub open spec fn joined(g: GameView, id: Seq<char>, name: Seq<char>) -> GameView {
    GameView {
        players: g.players.push(PlayerView { chain_id: id, name }),
        status: GameStatus::Active,
        ..g
    }
}

/// A message that arrives at node `me`.
///
/// - A join request needs a match hosted by `me` that waits for a player and
///   has fewer than two; the sender joins, the match becomes active, and the
///   host sends it the match.
/// - Either snapshot replaces the match wholesale; the first one also sets
///   the notice.
/// - A leave notice clears the match and says that the opponent left.
pub open spec fn message_step(s: StateView, me: Seq<char>, m: MessageView) -> Result<
    (StateView, Option<OutgoingView>),
    AbortReason,
> {
    match m {
        MessageView::JoinRequest { player_chain_id, player_name } => match s.game {
            None => Err(AbortReason::MatchNotFound),
            Some(g) => if g.host_chain_id != me {
                Err(AbortReason::NotHost)
            } else if g.status != GameStatus::WaitingForPlayer {
                Err(AbortReason::MatchNotJoinable)
            } else if g.players.len() >= 2 {
                Err(AbortReason::MatchFull)
            } else {
                let g2 = joined(g, player_chain_id, player_name);
                Ok(
                    (
                        StateView {
                            game: Some(g2),
                            last_notification: Some(note_player_joined()),
                        },
                        Some(
                            OutgoingView {
                                destination: player_chain_id,
                                message: MessageView::InitialStateSync { game: g2 },
                            },
                        ),
                    ),
                )
            },
        },
        MessageView::InitialStateSync { game } => Ok(
            (StateView { game: Some(game), last_notification: Some(note_match_ready()) }, None),
        ),
        MessageView::GameSync { game } => Ok(
            (StateView { game: Some(game), last_notification: s.last_notification }, None),
        ),
        MessageView::LeaveNotice { .. } => Ok(
            (StateView { game: None, last_notification: Some(note_opponent_left()) }, None),
        ),
    }
}

/// A snapshot in a message meets the record's invariants.
pub open spec fn message_wf(m: MessageView) -> bool {
    match m {
        MessageView::InitialStateSync { game } => game.wf(),
        MessageView::GameSync { game } => game.wf(),
        _ => true,
    }
}

/// One node: its replica and its own id.
pub struct TictactoeContract {
    pub state: TictactoeState,
    pub chain_id: String,
}

impl TictactoeContract {
    /// The stored match, if any, meets the record's invariants.
    pub open spec fn wf(&self) -> bool {
        self.state@.wf()
    }

    /// A node with id `chain_id` and the given replica.
    pub fn new(state: TictactoeState, chain_id: String) -> (r: TictactoeContract)
        requires
            state@.wf(),
        ensures
            r.state@ == state@,
            r.chain_id@ == chain_id@,
            r.wf(),
    {
        TictactoeContract { state, chain_id }
    }

    /// Sets the replica to no match and no notification.
    pub fn instantiate(&mut self, _argument: InstantiationArgument)
        ensures
            final(self).state@ == empty_state(),
            final(self).chain_id == old(self).chain_id,
            final(self).wf(),
    {
        self.state.game = None;
        self.state.last_notification = None;
    }

    /// Whether this node hosts `game`.
    pub fn is_host(&self, game: &Game) -> (r: bool)
        ensures
            r == (game@.host_chain_id == self.chain_id@),
    {
        game.host_chain_id == self.chain_id
    }

    /// The first player of `game` whose node is not this one.
    pub fn opponent_chain_id(&self, game: &Game) -> (r: Option<String>)
        ensures
            r.deep_view() == opponent_of(game@, self.chain_id@),
    {
        let ghost ps = game@.players;
        let mut i: usize = 0;
        while i < game.players.len()
            invariant
                i <= game.players@.len(),
                ps == game@.players,
                crate::game::other_player_from(ps, self.chain_id@, i as int) == opponent_of(
                    game@,
                    self.chain_id@,
                ),
            decreases game.players@.len() - i,
        {
            if !(game.players[i].chain_id == self.chain_id) {
                return Some(game.players[i].chain_id.clone());
            }
            i += 1;
        }
        None
    }

    /// Whether `game` can take a move: it is active and has two players.
    pub fn can_play(&self, game: &Game) -> (r: bool)
        ensures
            r == game@.can_play(),
    {
        game.status == GameStatus::Active && game.players.len() == 2
    }

    /// The mark of the first line, in scan order (rows, columns, diagonals),
    /// whose three cells hold the same mark; `None` when no line does.
    pub fn check_winner(board: &[i32]) -> (r: Option<i32>)
        requires
            board@.len() == BOARD_CELLS,
        ensures
            r == winner_of(board@),
    {
        let mut k: usize = 0;
        while k < LINE_COUNT
            invariant
                k <= LINE_COUNT,
                board@.len() == BOARD_CELLS,
                winner_of(board@) == winner_from(board@, k as int),
            decreases LINE_COUNT - k,
        {
            let (i, j, l) = line_at(k);
            let a = board[i];
            let b = board[j];
            let c = board[l];
            if a >= 0 && a == b && b == c {
                return Some(a);
            }
            k += 1;
        }
        None
    }

    /// Whether no cell of the board is empty.
    pub fn is_board_full(board: &[i32]) -> (r: bool)
        ensures
            r == board_full(board@),
    {
        let mut i: usize = 0;
        while i < board.len()
            invariant
                i <= board@.len(),
                forall|j: int| 0 <= j < i ==> is_mark(#[trigger] board@[j]),
            decreases board@.len() - i,
        {
            if board[i] < 0 {
                return false;
            }
            i += 1;
        }
        true
    }

    /// The node whose turn it is, when the turn index names a player.
    pub fn current_turn_chain_id(game: &Game) -> (r: Option<String>)
        ensures
            r.deep_view() == game@.turn_holder(),
    {
        let t = game.current_turn_index as usize;
        if game.players.len() <= t {
            return None;
        }
        Some(game.players[t].chain_id.clone())
    }

    fn play_move(&self, game: &Game, row: u8, col: u8) -> (r: Result<Game, AbortReason>)
        requires
            game@.wf(),
        ensures
            match r {
                Ok(g) => move_outcome(game@, self.chain_id@, row, col) == Ok::<
                    GameView,
                    AbortReason,
                >(g@) && g@.wf(),
                Err(e) => move_outcome(game@, self.chain_id@, row, col) == Err::<
                    GameView,
                    AbortReason,
                >(e),
            },
    {
        if !self.can_play(game) {
            return Err(AbortReason::MatchNotReady);
        }
        if row >= 3 || col >= 3 {
            return Err(AbortReason::InvalidCell);
        }
        let idx = (row as usize) * 3 + (col as usize);
        if game.board[idx] >= 0 {
            return Err(AbortReason::CellTaken);
        }
        let mine = match Self::current_turn_chain_id(game) {
            Some(c) => c == self.chain_id,
            None => false,
        };
        if !mine {
            return Err(AbortReason::NotYourTurn);
        }
        let mut next = game.snapshot();
        next.board.set(idx, game.current_turn_index as i32);
        let ghost placed = next.board@;
        assert(board_wf(placed));
        match Self::check_winner(next.board.as_slice()) {
            Some(w) => {
                proof {
                    lemma_winner_is_player(placed);
                }
                next.status = GameStatus::Ended;
                next.winner_chain_id = Some(next.players[w as usize].chain_id.clone());
            },
            None => {
                if Self::is_board_full(next.board.as_slice()) {
                    next.status = GameStatus::Draw;
                } else {
                    next.current_turn_index = 1 - next.current_turn_index;
                }
            },
        }
        Ok(next)
    }

    /// Carries out an operation of this node's participant at time
    /// `now_micros`, exactly as `operation_step` states. A turned-down
    /// operation leaves the replica as it was. The result is the message to
    /// send, if any.
    pub fn execute_operation(&mut self, operation: Operation, now_micros: u64) -> (r: Result<
        Option<Outgoing>,
        AbortReason,
    >)
        requires
            old(self).wf(),
        ensures
            final(self).wf(),
            final(self).chain_id == old(self).chain_id,
            match r {
                Ok(out) => operation_step(
                    old(self).state@,
                    old(self).chain_id@,
                    now_micros,
                    operation@,
                ) == Ok::<(StateView, Option<OutgoingView>), AbortReason>(
                    (final(self).state@, outgoing_view(out)),
                ),
                Err(e) => operation_step(
                    old(self).state@,
                    old(self).chain_id@,
                    now_micros,
                    operation@,
                ) == Err::<(StateView, Option<OutgoingView>), AbortReason>(e) && final(self).state@
                    == old(self).state@,
            },
    {
        match operation {
            Operation::CreateMatch { host_name } => {
                let game = Game::create(self.chain_id.as_str(), host_name, now_micros);
                self.state.game = Some(game);
                self.state.last_notification = None;
                Ok(None)
            },
            Operation::JoinMatch { host_chain_id, player_name } => {
                let request = CrossChainMessage::JoinRequest {
                    player_chain_id: self.chain_id.clone(),
                    player_name,
                };
                Ok(Some(Outgoing { destination: host_chain_id, message: request }))
            },
            Operation::MakeMove { row, col } => {
                let next = match &self.state.game {
                    None => {
                        return Err(AbortReason::MatchNotFound);
                    },
                    Some(g) => self.play_move(g, row, col),
                };
                match next {
                    Err(e) => Err(e),
                    Ok(game) => {
                        let out = match self.opponent_chain_id(&game) {
                            Some(o) => Some(
                                Outgoing {
                                    destination: o,
                                    message: CrossChainMessage::GameSync { game: game.snapshot() },
                                },
                            ),
                            None => None,
                        };
                        self.state.game = Some(game);
                        Ok(out)
                    },
                }
            },
            Operation::LeaveMatch => {
                let out = match &self.state.game {
                    Some(g) => match self.opponent_chain_id(g) {
                        Some(o) => Some(
                            Outgoing {
                                destination: o,
                                message: CrossChainMessage::LeaveNotice {
                                    player_chain_id: self.chain_id.clone(),
                                },
                            },
                        ),
                        None => None,
                    },
                    None => None,
                };
                self.state.game = None;
                self.state.last_notification = None;
                Ok(out)
            },
        }
    }

    /// Applies a message that arrived from the other node, exactly as
    /// `message_step` states. A turned-down message leaves the replica as it
    /// was. The result is the reply to send, if any.
    pub fn execute_message(&mut self, message: CrossChainMessage) -> (r: Result<
        Option<Outgoing>,
        AbortReason,
    >)
        requires
            old(self).wf(),
            message_wf(message@),
        ensures
            final(self).wf(),
            final(self).chain_id == old(self).chain_id,
            match r {
                Ok(out) => message_step(old(self).state@, old(self).chain_id@, message@) == Ok::<
                    (StateView, Option<OutgoingView>),
                    AbortReason,
                >((final(self).state@, outgoing_view(out))),
                Err(e) => message_step(old(self).state@, old(self).chain_id@, message@) == Err::<
                    (StateView, Option<OutgoingView>),
                    AbortReason,
                >(e) && final(self).state@ == old(self).state@,
            },
    {
        match message {
            CrossChainMessage::JoinRequest { player_chain_id, player_name } => {
                let next = match &self.state.game {
                    None => {
                        return Err(AbortReason::MatchNotFound);
                    },
                    Some(g) => {
                        if !self.is_host(g) {
                            return Err(AbortReason::NotHost);
                        }
                        if g.status != GameStatus::WaitingForPlayer {
                            return Err(AbortReason::MatchNotJoinable);
                        }
                        if g.players.len() >= 2 {
                            return Err(AbortReason::MatchFull);
                        }
                        let mut next = g.snapshot();
                        let joiner = PlayerInfo { chain_id: player_chain_id.clone(), name: player_name };
                        next.players.push(joiner);
                        next.status = GameStatus::Active;
                        assert(next@.players =~= g@.players.push(joiner@));
                        next
                    },
                };
                let reply = Outgoing {
                    destination: player_chain_id,
                    message: CrossChainMessage::InitialStateSync { game: next.snapshot() },
                };
                self.state.game = Some(next);
                self.state.last_notification = Some("Player joined".to_owned());
                Ok(Some(reply))
            },
            CrossChainMessage::InitialStateSync { game } => {
                self.state.game = Some(game);
                self.state.last_notification = Some("Match ready".to_owned());
                Ok(None)
            },
            CrossChainMessage::GameSync { game } => {
                self.state.game = Some(game);
                Ok(None)
            },
            CrossChainMessage::LeaveNotice { .. } => {
                self.state.game = None;
                self.state.last_notification = Some("Opponent left".to_owned());
                Ok(None)
            },
        }
    }
}

} // verus!
