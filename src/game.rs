//! The replicated game record.
use vstd::prelude::*;

use crate::rules::{board_full, board_wf, empty_board, BOARD_CELLS, EMPTY_CELL};

verus! {

/// Where a match stands.
#[derive(Debug, Clone, Copy, PartialEq, Eq, Structural)]
pub enum GameStatus {
    WaitingForPlayer,
    Active,
    Ended,
    Draw,
}

/// A participant: the node it plays from and its display name.
#[derive(Debug, Clone)]
pub struct PlayerInfo {
    pub chain_id: String,
    pub name: String,
}

/// What a `PlayerInfo` holds.
pub struct PlayerView {
    pub chain_id: Seq<char>,
    pub name: Seq<char>,
}

impl View for PlayerInfo {
    type V = PlayerView;

    open spec fn view(&self) -> PlayerView {
        PlayerView { chain_id: self.chain_id@, name: self.name@ }
    }
}

/// One match as a node sees it.
///
/// `board` holds nine cells: `-1` empty, `0` the host's mark, `1` the guest's.
/// `players[0]` is the host, who moves first; `current_turn_index` is the index
/// of the player whose mark goes next.
#[derive(Debug, Clone)]
pub struct Game {
    pub match_id: String,
    pub host_chain_id: String,
    pub status: GameStatus,
    pub players: Vec<PlayerInfo>,
    pub board: Vec<i32>,
    pub current_turn_index: u8,
    pub winner_chain_id: Option<String>,
}

/// What a `Game` holds.
pub struct GameView {
    pub match_id: Seq<char>,
    pub host_chain_id: Seq<char>,
    pub status: GameStatus,
    pub players: Seq<PlayerView>,
    pub board: Seq<i32>,
    pub current_turn_index: u8,
    pub winner_chain_id: Option<Seq<char>>,
}

impl View for Game {
    type V = GameView;

    open spec fn view(&self) -> GameView {
        GameView {
            match_id: self.match_id@,
            host_chain_id: self.host_chain_id@,
            status: self.status,
            players: self.players@.map_values(|p: PlayerInfo| p@),
            board: self.board@,
            current_turn_index: self.current_turn_index,
            winner_chain_id: self.winner_chain_id.deep_view(),
        }
    }
}

impl GameView {
    /// The record's invariants: a board of nine cells, one or two players, a
    /// turn index of 0 or 1; an ended match names its winner; a drawn match
    /// has a full board and no winner; an active match has two players; a
    /// match still in play names no winner.
    pub open spec fn wf(self) -> bool {
        &&& board_wf(self.board)
        &&& 1 <= self.players.len() <= 2
        &&& self.current_turn_index <= 1
        &&& self.status == GameStatus::Ended ==> self.winner_chain_id is Some
        &&& self.status == GameStatus::Draw ==> board_full(self.board)
            && self.winner_chain_id is None
        &&& self.status == GameStatus::Active ==> self.players.len() == 2
        &&& (self.status == GameStatus::WaitingForPlayer || self.status == GameStatus::Active)
            ==> self.winner_chain_id is None
    }

    /// Play is possible: the match is active and has both players.
    pub open spec fn can_play(self) -> bool {
        self.status == GameStatus::Active && self.players.len() == 2
    }

    /// The node whose turn it is, when the turn index names a player.
    pub open spec fn turn_holder(self) -> Option<Seq<char>> {
        if (self.current_turn_index as int) < self.players.len() {
            Some(self.players[self.current_turn_index as int].chain_id)
        } else {
            None
        }
    }
}

/// The first player, from index `i` on, whose node is not `me`.
pub open spec fn other_player_from(ps: Seq<PlayerView>, me: Seq<char>, i: int) -> Option<Seq<char>>
    decreases ps.len() - i,
{
    if i < 0 || i >= ps.len() {
        None
    } else if ps[i].chain_id != me {
        Some(ps[i].chain_id)
    } else {
        other_player_from(ps, me, i + 1)
    }
}

/// The opponent of `me`: the first player whose node is not `me`.
pub open spec fn opponent_of(g: GameView, me: Seq<char>) -> Option<Seq<char>> {
    other_player_from(g.players, me, 0)
}

/// The ten decimal digits.
pub open spec fn digit(d: nat) -> char {
    seq!['0', '1', '2', '3', '4', '5', '6', '7', '8', '9'][d as int]
}

/// `n` written in decimal, without sign or leading zeros.
pub open spec fn decimal(n: nat) -> Seq<char>
    decreases n,
{
    if n < 10 {
        seq![digit(n)]
    } else {
        decimal(n / 10).push(digit(n % 10))
    }
}

/// The match that `me` opens as host, named `match_id`.
pub open spec fn new_game(me: Seq<char>, match_id: Seq<char>, host_name: Seq<char>) -> GameView {
    GameView {
        match_id,
        host_chain_id: me,
        status: GameStatus::WaitingForPlayer,
        players: seq![PlayerView { chain_id: me, name: host_name }],
        board: empty_board(),
        current_turn_index: 0,
        winner_chain_id: None,
    }
}

/// Relies on `ToString` for `u64`, which goes through its `Display`: the
/// number in decimal digits, without sign, padding or leading zeros.
#[verifier::external_body]
fn decimal_text(n: u64) -> (r: String)
    ensures
        r@ == decimal(n as nat),
{
    n.to_string()
}

fn copy_string(s: &String) -> (r: String)
    ensures
        r@ == s@,
{
    s.clone()
}

fn copy_optional_string(s: &Option<String>) -> (r: Option<String>)
    ensures
        r.deep_view() == s.deep_view(),
{
    match s {
        Some(t) => Some(t.clone()),
        None => None,
    }
}

impl PlayerInfo {
    /// A copy that holds the same text.
    pub fn snapshot(&self) -> (r: PlayerInfo)
        ensures
            r@ == self@,
    {
        PlayerInfo { chain_id: copy_string(&self.chain_id), name: copy_string(&self.name) }
    }
}

impl Game {
    /// A new match hosted by `me`, waiting for its second player: `me` is its
    /// host and only player, the board is empty, the host moves first. The
    /// match id is the creation time in microseconds, in decimal.
    pub fn create(me: &str, host_name: String, now_micros: u64) -> (r: Game)
        ensures
            r@ == new_game(me@, decimal(now_micros as nat), host_name@),
            r@.wf(),
    {
        let mut board: Vec<i32> = Vec::new();
        let mut i: usize = 0;
        while i < BOARD_CELLS
            invariant
                i <= BOARD_CELLS,
                board@ == Seq::new(i as nat, |j: int| EMPTY_CELL),
            decreases BOARD_CELLS - i,
        {
            board.push(EMPTY_CELL);
            i += 1;
        }
        assert(board@ =~= empty_board());
        let mut players: Vec<PlayerInfo> = Vec::new();
        players.push(PlayerInfo { chain_id: me.to_owned(), name: host_name });
        let r = Game {
            match_id: decimal_text(now_micros),
            host_chain_id: me.to_owned(),
            status: GameStatus::WaitingForPlayer,
            players,
            board,
            current_turn_index: 0,
            winner_chain_id: None,
        };
        assert(r@.players =~= seq![PlayerView { chain_id: me@, name: host_name@ }]);
        r
    }

    /// A copy that holds the same values: the full snapshot sent to a peer.
    pub fn snapshot(&self) -> (r: Game)
        ensures
            r@ == self@,
    {
        let mut players: Vec<PlayerInfo> = Vec::new();
        let mut i: usize = 0;
        while i < self.players.len()
            invariant
                i <= self.players@.len(),
                players@.len() == i,
                forall|k: int| 0 <= k < i ==> (#[trigger] players@[k])@ == self.players@[k]@,
            decreases self.players@.len() - i,
        {
            players.push(self.players[i].snapshot());
            i += 1;
        }
        assert(players@.map_values(|p: PlayerInfo| p@) =~= self.players@.map_values(
            |p: PlayerInfo| p@,
        ));
        let mut board: Vec<i32> = Vec::new();
        let mut j: usize = 0;
        while j < self.board.len()
            invariant
                j <= self.board@.len(),
                board@ =~= self.board@.subrange(0, j as int),
            decreases self.board@.len() - j,
        {
            board.push(self.board[j]);
            j += 1;
        }
        assert(self.board@.subrange(0, self.board@.len() as int) =~= self.board@);
        Game {
            match_id: copy_string(&self.match_id),
            host_chain_id: copy_string(&self.host_chain_id),
            status: self.status,
            players,
            board,
            current_turn_index: self.current_turn_index,
            winner_chain_id: copy_optional_string(&self.winner_chain_id),
        }
    }

    /// Whether the record meets its invariants (see `GameView::wf`). A
    /// snapshot that arrives from a peer is checked with this before it is
    /// applied.
    pub fn is_well_formed(&self) -> (r: bool)
        ensures
            r == self@.wf(),
    {
        if self.board.len() != BOARD_CELLS {
            return false;
        }
        let mut i: usize = 0;
        while i < self.board.len()
            invariant
                i <= self.board@.len(),
                forall|j: int| 0 <= j < i ==> -1 <= #[trigger] self.board@[j] <= 1,
            decreases self.board@.len() - i,
        {
            if self.board[i] < -1 || self.board[i] > 1 {
                return false;
            }
            i += 1;
        }
        let n = self.players.len();
        if n < 1 || n > 2 || self.current_turn_index > 1 {
            return false;
        }
        let has_winner = self.winner_chain_id.is_some();
        match self.status {
            GameStatus::Ended => has_winner,
            GameStatus::Draw => !has_winner && crate::contract::TictactoeContract::is_board_full(
                self.board.as_slice(),
            ),
            GameStatus::Active => n == 2 && !has_winner,
            GameStatus::WaitingForPlayer => !has_winner,
        }
    }
}

} // verus!
