//! What a node is asked to do, what nodes send each other, and why a request
//! can be turned down.
use vstd::prelude::*;

use crate::game::{Game, GameView};

verus! {

/// A request from the node's own participant.
#[derive(Debug, Clone)]
pub enum Operation {
    /// Open a new match with this node as host.
    CreateMatch { host_name: String },
    /// Ask the host at `host_chain_id` to let this node join.
    JoinMatch { host_chain_id: String, player_name: String },
    /// Put this node's mark on the cell at `row`, `col` (each 0 to 2).
    MakeMove { row: u8, col: u8 },
    /// Leave the current match.
    LeaveMatch,
}

/// What an `Operation` holds.
pub enum OperationView {
    CreateMatch { host_name: Seq<char> },
    JoinMatch { host_chain_id: Seq<char>, player_name: Seq<char> },
    MakeMove { row: u8, col: u8 },
    LeaveMatch,
}

impl View for Operation {
    type V = OperationView;

    open spec fn view(&self) -> OperationView {
        match self {
            Operation::CreateMatch { host_name } => OperationView::CreateMatch {
                host_name: host_name@,
            },
            Operation::JoinMatch { host_chain_id, player_name } => OperationView::JoinMatch {
                host_chain_id: host_chain_id@,
                player_name: player_name@,
            },
            Operation::MakeMove { row, col } => OperationView::MakeMove { row: *row, col: *col },
            Operation::LeaveMatch => OperationView::LeaveMatch,
        }
    }
}

/// A one-way message from one node to the other.
#[derive(Debug, Clone)]
pub enum CrossChainMessage {
    /// To the host: the sender wants to join as second player.
    JoinRequest { player_chain_id: String, player_name: String },
    /// To the guest: the match as it stands once the guest has joined.
    InitialStateSync { game: Game },
    /// To the opponent: the match as it stands after a move.
    GameSync { game: Game },
    /// To the opponent: the sender has left the match.
    LeaveNotice { player_chain_id: String },
}

/// What a `CrossChainMessage` holds.
pub enum MessageView {
    JoinRequest { player_chain_id: Seq<char>, player_name: Seq<char> },
    InitialStateSync { game: GameView },
    GameSync { game: GameView },
    LeaveNotice { player_chain_id: Seq<char> },
}

impl View for CrossChainMessage {
    type V = MessageView;

    open spec fn view(&self) -> MessageView {
        match self {
            CrossChainMessage::JoinRequest { player_chain_id, player_name } => MessageView::JoinRequest {
                player_chain_id: player_chain_id@,
                player_name: player_name@,
            },
            CrossChainMessage::InitialStateSync { game } => MessageView::InitialStateSync {
                game: game@,
            },
            CrossChainMessage::GameSync { game } => MessageView::GameSync { game: game@ },
            CrossChainMessage::LeaveNotice { player_chain_id } => MessageView::LeaveNotice {
                player_chain_id: player_chain_id@,
            },
        }
    }
}

/// A message and the node it is for.
#[derive(Debug, Clone)]
pub struct Outgoing {
    pub destination: String,
    pub message: CrossChainMessage,
}

/// What an `Outgoing` holds.
pub struct OutgoingView {
    pub destination: Seq<char>,
    pub message: MessageView,
}

impl View for Outgoing {
    type V = OutgoingView;

    open spec fn view(&self) -> OutgoingView {
        OutgoingView { destination: self.destination@, message: self.message@ }
    }
}

/// Why an operation or a message was turned down. A turned-down request
/// changes nothing and sends nothing.
#[derive(Debug, Clone, Copy, PartialEq, Eq, Structural)]
pub enum AbortReason {
    /// The node holds no match.
    MatchNotFound,
    /// The match is not active or does not have two players.
    MatchNotReady,
    /// The turn belongs to the other player.
    NotYourTurn,
    /// The cell already holds a mark.
    CellTaken,
    /// The row or the column is 3 or more.
    InvalidCell,
    /// The match no longer waits for a player.
    MatchNotJoinable,
    /// The match already has two players.
    MatchFull,
    /// Only the host accepts a join request.
    NotHost,
}

/// The view of an optional outgoing message.
pub open spec fn outgoing_view(o: Option<Outgoing>) -> Option<OutgoingView> {
    match o {
        Some(m) => Some(m@),
        None => None,
    }
}

} // verus!
