use tic_tac_toe::codec::decode;
use tic_tac_toe::codec::encode;
use tic_tac_toe::game::Game;
use tic_tac_toe::game::GameState;
use tic_tac_toe::game::Player;
use tic_tac_toe::game::Sign;
use tic_tac_toe::game::Tile;

fn player(n: u8) -> Player {
    Player { key: [n; 32] }
}

fn tile(row: u8, column: u8) -> Tile {
    Tile { row, column }
}

fn round_trips(g: &Game) {
    let bytes = encode(g);
    assert_eq!(decode(&bytes), Some(*g));
}

#[test]
fn unstarted_game_round_trips() {
    round_trips(&Game::new());
}

#[test]
fn active_mid_game_round_trips() {
    let mut g = Game::new();
    g.start([player(10), player(20)]).unwrap();
    g.play(tile(1, 1)).unwrap();
    g.play(tile(0, 2)).unwrap();
    g.play(tile(2, 0)).unwrap();
    assert_eq!(g.state, GameState::Active);
    round_trips(&g);
}

#[test]
fn tied_game_round_trips() {
    let mut g = Game::new();
    g.start([player(10), player(20)]).unwrap();
    for (row, column) in [
        (1, 1),
        (0, 0),
        (0, 1),
        (0, 2),
        (1, 0),
        (1, 2),
        (2, 0),
        (2, 1),
        (2, 2),
    ] {
        g.play(tile(row, column)).unwrap();
    }
    assert_eq!(g.state, GameState::Tie);
    round_trips(&g);
}

#[test]
fn won_game_round_trips() {
    let mut g = Game::new();
    g.start([player(10), player(20)]).unwrap();
    for (row, column) in [(0, 0), (1, 0), (0, 1), (1, 1), (0, 2)] {
        g.play(tile(row, column)).unwrap();
    }
    assert_eq!(g.state, GameState::Won { winner: player(10) });
    round_trips(&g);
}

#[test]
fn encoding_lays_out_keys_turn_board_state() {
    let mut g = Game::new();
    g.start([player(1), player(2)]).unwrap();
    g.play(tile(0, 0)).unwrap(); // O
    g.play(tile(2, 2)).unwrap(); // X
    let bytes = encode(&g);
    let mut expected = Vec::new();
    expected.extend_from_slice(&[1u8; 32]);
    expected.extend_from_slice(&[2u8; 32]);
    expected.push(3); // turn
    expected.extend_from_slice(&[1, 0, 0, 0, 0, 0, 0, 0, 2]); // O at (0,0), X at (2,2)
    expected.push(0); // still active
    assert_eq!(bytes, expected);
    assert_eq!(bytes.len(), 75);
}

#[test]
fn won_encoding_appends_the_winner_key() {
    let mut g = Game::new();
    g.start([player(1), player(2)]).unwrap();
    for (row, column) in [(0, 0), (1, 0), (0, 1), (1, 1), (0, 2)] {
        g.play(tile(row, column)).unwrap();
    }
    let bytes = encode(&g);
    assert_eq!(bytes.len(), 107);
    assert_eq!(bytes[74], 2);
    assert_eq!(&bytes[75..107], &[1u8; 32]);
    assert_eq!(bytes[64], 5); // the turn stayed at the winning move
}

#[test]
fn decode_rejects_malformed_bytes() {
    // Too short.
    assert_eq!(decode(&[0u8; 74]), None);
    // A cell byte past 2.
    let mut bytes = encode(&Game::new());
    bytes[65] = 3;
    assert_eq!(decode(&bytes), None);
    // A state tag past 2.
    let mut bytes = encode(&Game::new());
    bytes[74] = 3;
    assert_eq!(decode(&bytes), None);
    // A won tag without the winner's key.
    let mut bytes = encode(&Game::new());
    bytes[74] = 2;
    assert_eq!(decode(&bytes), None);
    // Trailing bytes after an active game.
    let mut bytes = encode(&Game::new());
    bytes.push(0);
    assert_eq!(decode(&bytes), None);
}

#[test]
fn decode_accepts_a_handwritten_snapshot() {
    let mut bytes = Vec::new();
    bytes.extend_from_slice(&[9u8; 32]);
    bytes.extend_from_slice(&[8u8; 32]);
    bytes.push(2); // turn
    bytes.extend_from_slice(&[1, 0, 0, 0, 0, 0, 0, 0, 0]); // one O at (0,0)
    bytes.push(0); // active
    let g = decode(&bytes).unwrap();
    assert_eq!(g.players[0], player(9));
    assert_eq!(g.players[1], player(8));
    assert_eq!(g.turn, 2);
    assert_eq!(g.board[0][0], Some(Sign::O));
    assert_eq!(g.board[1][1], None);
    assert_eq!(g.state, GameState::Active);
}
