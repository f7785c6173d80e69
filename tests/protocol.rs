use tictactoe::{
    AbortReason, CrossChainMessage, Game, GameStatus, Operation, Outgoing, PlayerInfo,
    TictactoeContract, TictactoeState,
};

const ALICE: &str = "alice-chain";
const BOB: &str = "bob-chain";

fn node(id: &str) -> TictactoeContract {
    TictactoeContract::new(TictactoeState::new(), id.to_string())
}

fn create(host: &mut TictactoeContract, name: &str) {
    let out = host
        .execute_operation(Operation::CreateMatch { host_name: name.to_string() }, 1_700_000)
        .unwrap();
    assert!(out.is_none());
}

/// Alice hosts, Bob joins; both nodes hold the active match.
fn started() -> (TictactoeContract, TictactoeContract) {
    let mut alice = node(ALICE);
    let mut bob = node(BOB);
    create(&mut alice, "Alice");
    let request = bob
        .execute_operation(
            Operation::JoinMatch { host_chain_id: ALICE.to_string(), player_name: "Bob".to_string() },
            5,
        )
        .unwrap()
        .unwrap();
    assert_eq!(request.destination, ALICE);
    let reply = alice.execute_message(request.message).unwrap().unwrap();
    assert_eq!(reply.destination, BOB);
    assert!(bob.execute_message(reply.message).unwrap().is_none());
    (alice, bob)
}

fn game_of(n: &TictactoeContract) -> &Game {
    n.state.game.as_ref().unwrap()
}

/// Plays a move on `mover` and delivers the snapshot to `other`.
fn play(mover: &mut TictactoeContract, other: &mut TictactoeContract, row: u8, col: u8) {
    let out: Outgoing = mover
        .execute_operation(Operation::MakeMove { row, col }, 0)
        .unwrap()
        .unwrap();
    assert_eq!(out.destination, other.chain_id);
    assert!(matches!(out.message, CrossChainMessage::GameSync { .. }));
    assert!(other.execute_message(out.message).unwrap().is_none());
}

fn board(cells: [i32; 9]) -> Vec<i32> {
    cells.to_vec()
}

#[test]
fn create_match_waits_for_player() {
    let mut alice = node(ALICE);
    create(&mut alice, "Alice");
    let g = game_of(&alice);
    assert_eq!(g.status, GameStatus::WaitingForPlayer);
    assert_eq!(g.players.len(), 1);
    assert_eq!(g.players[0].chain_id, ALICE);
    assert_eq!(g.players[0].name, "Alice");
    assert_eq!(g.board, vec![-1; 9]);
    assert_eq!(g.host_chain_id, ALICE);
    assert_eq!(g.current_turn_index, 0);
    assert!(g.winner_chain_id.is_none());
    assert!(alice.state.last_notification.is_none());
}

#[test]
fn match_id_is_creation_time_in_decimal() {
    let mut alice = node(ALICE);
    alice
        .execute_operation(Operation::CreateMatch { host_name: "Alice".to_string() }, 1234567890)
        .unwrap();
    assert_eq!(game_of(&alice).match_id, "1234567890");
    alice.execute_operation(Operation::CreateMatch { host_name: "A".to_string() }, 0).unwrap();
    assert_eq!(game_of(&alice).match_id, "0");
    alice.execute_operation(Operation::CreateMatch { host_name: "A".to_string() }, u64::MAX).unwrap();
    assert_eq!(game_of(&alice).match_id, "18446744073709551615");
}

#[test]
fn join_request_activates_match() {
    let (alice, bob) = started();
    for n in [&alice, &bob] {
        let g = game_of(n);
        assert_eq!(g.status, GameStatus::Active);
        assert_eq!(g.players.len(), 2);
        assert_eq!(g.players[0].chain_id, ALICE);
        assert_eq!(g.players[0].name, "Alice");
        assert_eq!(g.players[1].chain_id, BOB);
        assert_eq!(g.players[1].name, "Bob");
        assert_eq!(g.current_turn_index, 0);
    }
    assert_eq!(alice.state.last_notification.as_deref(), Some("Player joined"));
    assert_eq!(bob.state.last_notification.as_deref(), Some("Match ready"));
}

#[test]
fn join_match_sends_request_without_local_change() {
    let mut bob = node(BOB);
    let out = bob
        .execute_operation(
            Operation::JoinMatch { host_chain_id: ALICE.to_string(), player_name: "Bob".to_string() },
            0,
        )
        .unwrap()
        .unwrap();
    assert!(bob.state.game.is_none());
    match out.message {
        CrossChainMessage::JoinRequest { player_chain_id, player_name } => {
            assert_eq!(player_chain_id, BOB);
            assert_eq!(player_name, "Bob");
        }
        _ => panic!("expected a join request"),
    }
}

#[test]
fn three_in_a_row_ends_match() {
    let (mut alice, mut bob) = started();
    play(&mut alice, &mut bob, 0, 0);
    play(&mut bob, &mut alice, 1, 0);
    play(&mut alice, &mut bob, 0, 1);
    play(&mut bob, &mut alice, 1, 1);
    assert_eq!(game_of(&alice).status, GameStatus::Active);
    play(&mut alice, &mut bob, 0, 2);
    for n in [&alice, &bob] {
        let g = game_of(n);
        assert_eq!(g.status, GameStatus::Ended);
        assert_eq!(g.winner_chain_id.as_deref(), Some(ALICE));
        assert_eq!(g.board, board([0, 0, 0, 1, 1, -1, -1, -1, -1]));
    }
    let r = bob.execute_operation(Operation::MakeMove { row: 2, col: 2 }, 0);
    assert_eq!(r.unwrap_err(), AbortReason::MatchNotReady);
}

#[test]
fn full_board_without_line_is_draw() {
    let (mut alice, mut bob) = started();
    let moves: [(u8, u8); 9] =
        [(0, 0), (1, 1), (2, 2), (0, 1), (2, 1), (2, 0), (0, 2), (1, 2), (1, 0)];
    for (k, &(row, col)) in moves.iter().enumerate() {
        if k % 2 == 0 {
            play(&mut alice, &mut bob, row, col);
        } else {
            play(&mut bob, &mut alice, row, col);
        }
    }
    for n in [&alice, &bob] {
        let g = game_of(n);
        assert_eq!(g.status, GameStatus::Draw);
        assert!(g.winner_chain_id.is_none());
        assert_eq!(g.board, board([0, 1, 0, 0, 1, 1, 1, 0, 0]));
    }
}

#[test]
fn leave_clears_both_nodes() {
    let (mut alice, mut bob) = started();
    let out = bob.execute_operation(Operation::LeaveMatch, 0).unwrap().unwrap();
    assert!(bob.state.game.is_none());
    assert!(bob.state.last_notification.is_none());
    assert_eq!(out.destination, ALICE);
    match &out.message {
        CrossChainMessage::LeaveNotice { player_chain_id } => assert_eq!(player_chain_id, BOB),
        _ => panic!("expected a leave notice"),
    }
    assert!(alice.execute_message(out.message).unwrap().is_none());
    assert!(alice.state.game.is_none());
    assert_eq!(alice.state.last_notification.as_deref(), Some("Opponent left"));
}

#[test]
fn host_leaving_notifies_guest() {
    let (mut alice, mut bob) = started();
    let out = alice.execute_operation(Operation::LeaveMatch, 0).unwrap().unwrap();
    assert!(alice.state.game.is_none());
    assert_eq!(out.destination, BOB);
    bob.execute_message(out.message).unwrap();
    assert!(bob.state.game.is_none());
    assert_eq!(bob.state.last_notification.as_deref(), Some("Opponent left"));
}

#[test]
fn leave_without_opponent_sends_nothing() {
    let mut alice = node(ALICE);
    assert!(alice.execute_operation(Operation::LeaveMatch, 0).unwrap().is_none());
    create(&mut alice, "Alice");
    assert!(alice.execute_operation(Operation::LeaveMatch, 0).unwrap().is_none());
    assert!(alice.state.game.is_none());
}

#[test]
fn move_errors() {
    let mut lone = node(ALICE);
    let mv = |r: u8, c: u8| Operation::MakeMove { row: r, col: c };
    assert_eq!(lone.execute_operation(mv(0, 0), 0).unwrap_err(), AbortReason::MatchNotFound);
    create(&mut lone, "Alice");
    assert_eq!(lone.execute_operation(mv(0, 0), 0).unwrap_err(), AbortReason::MatchNotReady);

    let (mut alice, mut bob) = started();
    assert_eq!(alice.execute_operation(mv(3, 0), 0).unwrap_err(), AbortReason::InvalidCell);
    assert_eq!(alice.execute_operation(mv(0, 3), 0).unwrap_err(), AbortReason::InvalidCell);
    assert_eq!(bob.execute_operation(mv(0, 0), 0).unwrap_err(), AbortReason::NotYourTurn);
    play(&mut alice, &mut bob, 1, 1);
    let before = game_of(&bob).board.clone();
    assert_eq!(bob.execute_operation(mv(1, 1), 0).unwrap_err(), AbortReason::CellTaken);
    assert_eq!(alice.execute_operation(mv(0, 0), 0).unwrap_err(), AbortReason::NotYourTurn);
    assert_eq!(game_of(&bob).board, before);
    assert_eq!(game_of(&bob).current_turn_index, 1);
}

#[test]
fn join_errors() {
    let request = || CrossChainMessage::JoinRequest {
        player_chain_id: "carol-chain".to_string(),
        player_name: "Carol".to_string(),
    };
    let mut empty = node(ALICE);
    assert_eq!(empty.execute_message(request()).unwrap_err(), AbortReason::MatchNotFound);

    let (mut alice, mut bob) = started();
    assert_eq!(bob.execute_message(request()).unwrap_err(), AbortReason::NotHost);
    assert_eq!(alice.execute_message(request()).unwrap_err(), AbortReason::MatchNotJoinable);
    assert_eq!(game_of(&alice).players.len(), 2);

    // A host whose waiting match already lists two players.
    let mut host = node(ALICE);
    create(&mut host, "Alice");
    let mut g = game_of(&host).clone();
    g.players.push(PlayerInfo { chain_id: BOB.to_string(), name: "Bob".to_string() });
    host.state.game = Some(g);
    assert_eq!(host.execute_message(request()).unwrap_err(), AbortReason::MatchFull);
}

#[test]
fn game_sync_twice_equals_once() {
    let (mut alice, mut bob) = started();
    let out = alice.execute_operation(Operation::MakeMove { row: 2, col: 1 }, 0).unwrap().unwrap();
    bob.execute_message(out.message.clone()).unwrap();
    let once = format!("{:?}", bob.state);
    bob.execute_message(out.message).unwrap();
    assert_eq!(format!("{:?}", bob.state), once);
    assert_eq!(game_of(&bob).board, board([-1, -1, -1, -1, -1, -1, -1, 0, -1]));
    assert_eq!(game_of(&bob).current_turn_index, 1);
}

#[test]
fn check_winner_finds_each_line() {
    let lines = [
        [0, 1, 2], [3, 4, 5], [6, 7, 8], [0, 3, 6], [1, 4, 7], [2, 5, 8], [0, 4, 8], [2, 4, 6],
    ];
    for mark in [0, 1] {
        for line in lines {
            let mut b = vec![-1; 9];
            for i in line {
                b[i] = mark;
            }
            assert_eq!(TictactoeContract::check_winner(&b), Some(mark));
        }
    }
    assert_eq!(TictactoeContract::check_winner(&vec![-1; 9]), None);
    assert_eq!(TictactoeContract::check_winner(&board([0, 1, 0, 0, 1, 1, 1, 0, 0])), None);
    assert_eq!(TictactoeContract::check_winner(&board([0, 0, 1, -1, -1, -1, -1, -1, -1])), None);
    // Rows come before columns in the scan.
    assert_eq!(TictactoeContract::check_winner(&board([1, 1, 1, 0, -1, -1, 0, -1, -1])), Some(1));
}

#[test]
fn board_full_needs_every_cell() {
    assert!(TictactoeContract::is_board_full(&board([0, 1, 0, 0, 1, 1, 1, 0, 0])));
    assert!(!TictactoeContract::is_board_full(&board([0, 1, 0, 0, -1, 1, 1, 0, 0])));
    assert!(!TictactoeContract::is_board_full(&vec![-1; 9]));
}

#[test]
fn opponent_and_turn_holder() {
    let (alice, bob) = started();
    let g = game_of(&alice);
    assert_eq!(alice.opponent_chain_id(g).as_deref(), Some(BOB));
    assert_eq!(bob.opponent_chain_id(g).as_deref(), Some(ALICE));
    assert!(alice.is_host(g));
    assert!(!bob.is_host(g));
    assert!(alice.can_play(g));
    assert_eq!(TictactoeContract::current_turn_chain_id(g).as_deref(), Some(ALICE));
    let mut lone = node(ALICE);
    create(&mut lone, "Alice");
    let g = game_of(&lone);
    assert_eq!(lone.opponent_chain_id(g), None);
    assert!(!lone.can_play(g));
}

#[test]
fn snapshot_well_formedness() {
    let (alice, _bob) = started();
    let g = game_of(&alice);
    assert!(g.is_well_formed());
    let copy = g.snapshot();
    assert_eq!(format!("{:?}", copy), format!("{:?}", g));
    let mut bad = g.clone();
    bad.board.pop();
    assert!(!bad.is_well_formed());
    let mut bad = g.clone();
    bad.status = GameStatus::Ended;
    assert!(!bad.is_well_formed());
    let mut bad = g.clone();
    bad.board[4] = 2;
    assert!(!bad.is_well_formed());
}

#[test]
fn instantiate_clears_replica() {
    let (mut alice, _bob) = started();
    alice.instantiate(tictactoe::InstantiationArgument);
    assert!(alice.state.game.is_none());
    assert!(alice.state.last_notification.is_none());
}

#[test]
fn legal_move_changes_one_cell_and_passes_turn() {
    let (mut alice, mut bob) = started();
    let before = game_of(&alice).board.clone();
    play(&mut alice, &mut bob, 1, 2);
    let g = game_of(&alice);
    let changed: Vec<usize> = (0..9).filter(|&i| g.board[i] != before[i]).collect();
    assert_eq!(changed, vec![5]);
    assert_eq!(g.board[5], 0);
    assert_eq!(g.status, GameStatus::Active);
    assert_eq!(g.current_turn_index, 1);
}

#[test]
fn status_runs_waiting_active_ended_then_deleted() {
    let mut alice = node(ALICE);
    let mut bob = node(BOB);
    let mut seen = vec![];
    create(&mut alice, "Alice");
    seen.push(game_of(&alice).status);
    let request = bob
        .execute_operation(
            Operation::JoinMatch { host_chain_id: ALICE.to_string(), player_name: "Bob".to_string() },
            0,
        )
        .unwrap()
        .unwrap();
    let reply = alice.execute_message(request.message).unwrap().unwrap();
    bob.execute_message(reply.message).unwrap();
    seen.push(game_of(&alice).status);
    for (k, (row, col)) in [(0, 0), (1, 0), (0, 1), (1, 1), (0, 2)].into_iter().enumerate() {
        if k % 2 == 0 {
            play(&mut alice, &mut bob, row, col);
        } else {
            play(&mut bob, &mut alice, row, col);
        }
        let s = game_of(&alice).status;
        if *seen.last().unwrap() != s {
            seen.push(s);
        }
    }
    assert_eq!(seen, vec![GameStatus::WaitingForPlayer, GameStatus::Active, GameStatus::Ended]);
    alice.execute_operation(Operation::LeaveMatch, 0).unwrap();
    assert!(alice.state.game.is_none());
}
