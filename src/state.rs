//! A node's replica: its copy of the match and its last notification.
use vstd::prelude::*;

use crate::game::{Game, GameView};

verus! {

/// What a node keeps between invocations.
#[derive(Debug, Clone)]
pub struct TictactoeState {
    /// The match this node takes part in, if any.
    pub game: Option<Game>,
    /// The last notice shown to the participant ("Player joined", ...).
    pub last_notification: Option<String>,
}

/// What a `TictactoeState` holds.
pub struct StateView {
    pub game: Option<GameView>,
    pub last_notification: Option<Seq<char>>,
}

impl View for TictactoeState {
    type V = StateView;

    open spec fn view(&self) -> StateView {
        StateView {
            game: match self.game {
                Some(g) => Some(g@),
                None => None,
            },
            last_notification: self.last_notification.deep_view(),
        }
    }
}

impl StateView {
    /// A stored match meets the record's invariants.
    pub open spec fn wf(self) -> bool {
        self.game matches Some(g) ==> g.wf()
    }

    /// The status of the stored match; `None` when there is none.
    pub open spec fn status(self) -> Option<crate::game::GameStatus> {
        match self.game {
            Some(g) => Some(g.status),
            None => None,
        }
    }
}

/// The replica with which a node starts: no match and no notification.
pub open spec fn empty_state() -> StateView {
    StateView { game: None, last_notification: None }
}

impl TictactoeState {
    /// A replica with no match and no notification.
    pub fn new() -> (r: TictactoeState)
        ensures
            r@ == empty_state(),
    {
        TictactoeState { game: None, last_notification: None }
    }
}

} // verus!
