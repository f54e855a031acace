//! A byte codec for game snapshots, for callers that persist or broadcast
//! them. A snapshot lays out as: the two 32-byte player keys, one turn
//! byte, nine cell bytes in row-major order, one state tag, and the
//! winner's 32-byte key after the `Won` tag. `encode` and `decode`
//! round-trip every field exactly: `lemma_encoding_valid` and
//! `lemma_encoding_injective` state that below.

use vstd::prelude::*;

use crate::game::Board;
use crate::game::Game;
use crate::game::GameState;
use crate::game::Player;
use crate::game::Sign;

verus! {

broadcast use vstd::array::group_array_axioms;

/// The byte a cell serializes to: 0 empty, 1 an `O`, 2 an `X`.
pub open spec fn cell_code(c: Option<Sign>) -> u8 {
    match c {
        None => 0u8,
        Some(Sign::O) => 1u8,
        Some(Sign::X) => 2u8,
    }
}

/// The cell a byte up to 2 deserializes to.
pub open spec fn code_cell(b: u8) -> Option<Sign> {
    if b == 0 {
        None
    } else if b == 1 {
        Some(Sign::O)
    } else {
        Some(Sign::X)
    }
}

/// The nine cell bytes, row-major.
pub open spec fn board_bytes(b: Board) -> Seq<u8> {
    Seq::new(9, |i: int| cell_code(b[i / 3][i % 3]))
}

/// The state tag and, for a won game, the winner's key.
pub open spec fn state_bytes(s: GameState) -> Seq<u8> {
    match s {
        GameState::Active => seq![0u8],
        GameState::Tie => seq![1u8],
        GameState::Won { winner } => seq![2u8] + winner.key@,
    }
}

/// The bytes a game serializes to.
pub open spec fn encoded(g: Game) -> Seq<u8> {
    g.players[0].key@ + g.players[1].key@ + seq![g.turn] + board_bytes(g.board) + state_bytes(
        g.state,
    )
}

/// The byte strings that decode to a game: 75 bytes for an active or tied
/// game, 107 for a won one, with each cell byte and the state tag in range.
pub open spec fn valid_encoding(b: Seq<u8>) -> bool {
    &&& b.len() >= 75
    &&& forall|i: int| 0 <= i < 9 ==> #[trigger] b[65 + i] <= 2
    &&& b[74] <= 2
    &&& (b[74] == 2 ==> b.len() == 107)
    &&& (b[74] != 2 ==> b.len() == 75)
}

/// The byte a cell serializes to.
fn cell_byte(c: Option<Sign>) -> (r: u8)
    ensures
        r == cell_code(c),
{
    match c {
        None => 0,
        Some(Sign::O) => 1,
        Some(Sign::X) => 2,
    }
}

/// The cell a byte deserializes to; bytes past 2 address no cell.
fn cell_from(b: u8) -> (r: Option<Option<Sign>>)
    ensures
        b <= 2 ==> r == Some(code_cell(b)),
        b > 2 ==> r is None,
{
    if b == 0 {
        Some(None)
    } else if b == 1 {
        Some(Some(Sign::O))
    } else if b == 2 {
        Some(Some(Sign::X))
    } else {
        None
    }
}

/// Appends the 32 bytes of a key.
fn push_key(out: &mut Vec<u8>, k: &[u8; 32])
    ensures
        final(out)@ == old(out)@ + k@,
{
    let mut i: usize = 0;
    while i < 32
        invariant
            i <= 32,
            out@ == old(out)@ + k@.subrange(0, i as int),
        decreases 32 - i,
    {
        out.push(k[i]);
        assert(out@ =~= old(out)@ + k@.subrange(0, i + 1));
        i = i + 1;
    }
    assert(out@ =~= old(out)@ + k@);
}

/// Reads a 32-byte key starting at the given position.
fn read_key(bytes: &[u8], pos: usize) -> (k: [u8; 32])
    requires
        pos + 32 <= bytes@.len(),
    ensures
        k@ == bytes@.subrange(pos as int, pos + 32),
{
    let n = bytes.len();
    let mut k: [u8; 32] = [0u8; 32];
    let mut i: usize = 0;
    while i < 32
        invariant
            i <= 32,
            pos + 32 <= n == bytes@.len(),
            forall|j: int| 0 <= j < i ==> k@[j] == bytes@[pos + j],
        decreases 32 - i,
    {
        k[i] = bytes[pos + i];
        i = i + 1;
    }
    assert(k@ =~= bytes@.subrange(pos as int, pos + 32));
    k
}

/// Serializes a game.
pub fn encode(g: &Game) -> (r: Vec<u8>)
    ensures
        r@ == encoded(*g),
{
    let mut out: Vec<u8> = Vec::new();
    push_key(&mut out, &g.players[0].key);
    push_key(&mut out, &g.players[1].key);
    out.push(g.turn);
    let mut row: usize = 0;
    while row < 3
        invariant
            row <= 3,
            out@ == g.players[0].key@ + g.players[1].key@ + seq![g.turn] + Seq::new(
                3 * row as nat,
                |i: int| cell_code(g.board[i / 3][i % 3]),
            ),
        decreases 3 - row,
    {
        let mut col: usize = 0;
        while col < 3
            invariant
                row < 3,
                col <= 3,
                out@ == g.players[0].key@ + g.players[1].key@ + seq![g.turn] + Seq::new(
                    (3 * row + col) as nat,
                    |i: int| cell_code(g.board[i / 3][i % 3]),
                ),
            decreases 3 - col,
        {
            out.push(cell_byte(g.board[row][col]));
            proof {
                let n = 3 * row + col;
                assert(n / 3 == row as int && n % 3 == col as int);
                assert(out@ =~= g.players[0].key@ + g.players[1].key@ + seq![g.turn] + Seq::new(
                    (n + 1) as nat,
                    |i: int| cell_code(g.board[i / 3][i % 3]),
                ));
            }
            col = col + 1;
        }
        row = row + 1;
    }
    match &g.state {
        GameState::Active => {
            out.push(0);
        },
        GameState::Tie => {
            out.push(1);
        },
        GameState::Won { winner } => {
            out.push(2);
            push_key(&mut out, &winner.key);
        },
    }
    proof {
        assert(Seq::new(9, |i: int| cell_code(g.board[i / 3][i % 3])) =~= board_bytes(g.board));
        assert(out@ =~= encoded(*g));
    }
    out
}

/// Deserializes a game. It returns a game exactly on a valid encoding, and
/// what it returns serializes back to the given bytes.
pub fn decode(bytes: &[u8]) -> (r: Option<Game>)
    ensures
        r is Some <==> valid_encoding(bytes@),
        r matches Some(g) ==> encoded(g) == bytes@,
{
    if bytes.len() < 75 {
        return None;
    }
    let p0 = Player { key: read_key(bytes, 0) };
    let p1 = Player { key: read_key(bytes, 32) };
    let turn = bytes[64];
    let mut cells: [Option<Sign>; 9] = [None; 9];
    let mut i: usize = 0;
    while i < 9
        invariant
            i <= 9,
            bytes@.len() >= 75,
            forall|j: int| 0 <= j < i ==> #[trigger] bytes@[65 + j] <= 2,
            forall|j: int| 0 <= j < i ==> cells@[j] == code_cell(bytes@[65 + j]),
        decreases 9 - i,
    {
        match cell_from(bytes[65 + i]) {
            Some(c) => {
                cells[i] = c;
            },
            None => {
                return None;
            },
        }
        i = i + 1;
    }
    let board: Board = [
        [cells[0], cells[1], cells[2]],
        [cells[3], cells[4], cells[5]],
        [cells[6], cells[7], cells[8]],
    ];
    let tag = bytes[74];
    let state: GameState = if tag == 0 {
        if bytes.len() != 75 {
            return None;
        }
        GameState::Active
    } else if tag == 1 {
        if bytes.len() != 75 {
            return None;
        }
        GameState::Tie
    } else if tag == 2 {
        if bytes.len() != 107 {
            return None;
        }
        GameState::Won { winner: Player { key: read_key(bytes, 75) } }
    } else {
        return None;
    };
    let g = Game { players: [p0, p1], turn, board, state };
    proof {
        assert forall|j: int| 0 <= j < 9 implies #[trigger] board_bytes(board)[j] == bytes@[65 + j] by {
            assert(board[j / 3][j % 3] == cells@[j]);
            assert(cell_code(code_cell(bytes@[65 + j])) == bytes@[65 + j]);
        }
        assert(encoded(g) =~= bytes@);
    }
    Some(g)
}

/// Every byte string a game serializes to is a valid encoding, so `decode`
/// accepts everything `encode` produces.
pub proof fn lemma_encoding_valid(g: Game)
    ensures
        valid_encoding(encoded(g)),
{
    let e = encoded(g);
    assert forall|i: int| 0 <= i < 9 implies #[trigger] e[65 + i] <= 2 by {
        assert(e[65 + i] == cell_code(g.board[i / 3][i % 3]));
    }
    assert(e[74] == state_bytes(g.state)[0]);
}

/// Two games with one encoding are one game: decoding loses nothing, so a
/// serialized game deserializes to exactly the players, turn, board and
/// state it was serialized with, at any point of its lifecycle.
pub proof fn lemma_encoding_injective(g1: Game, g2: Game)
    requires
        encoded(g1) == encoded(g2),
    ensures
        g1 == g2,
{
    let e1 = encoded(g1);
    let e2 = encoded(g2);
    assert forall|i: int| 0 <= i < 32 implies g1.players[0].key[i] == g2.players[0].key[i] by {
        assert(e1[i] == g1.players[0].key[i] && e2[i] == g2.players[0].key[i]);
    }
    assert(g1.players[0].key =~= g2.players[0].key);
    assert forall|i: int| 0 <= i < 32 implies g1.players[1].key[i] == g2.players[1].key[i] by {
        assert(e1[32 + i] == g1.players[1].key[i] && e2[32 + i] == g2.players[1].key[i]);
    }
    assert(g1.players[1].key =~= g2.players[1].key);
    assert(g1.players =~= g2.players);
    assert(e1[64] == g1.turn && e2[64] == g2.turn);
    assert forall|r: int, c: int| 0 <= r < 3 && 0 <= c < 3 implies g1.board[r][c]
        == g2.board[r][c] by {
        let i = 3 * r + c;
        assert(i / 3 == r && i % 3 == c);
        assert(e1[65 + i] == cell_code(g1.board[r][c]) && e2[65 + i] == cell_code(g2.board[r][c]));
        lemma_cell_code_injective(g1.board[r][c], g2.board[r][c]);
    }
    assert forall|r: int| 0 <= r < 3 implies g1.board[r] == g2.board[r] by {
        assert(g1.board[r] =~= g2.board[r]);
    }
    assert(g1.board =~= g2.board);
    assert(e1[74] == state_bytes(g1.state)[0] && e2[74] == state_bytes(g2.state)[0]);
    match (g1.state, g2.state) {
        (GameState::Won { winner: w1 }, GameState::Won { winner: w2 }) => {
            assert forall|i: int| 0 <= i < 32 implies w1.key[i] == w2.key[i] by {
                assert(e1[75 + i] == w1.key[i] && e2[75 + i] == w2.key[i]);
            }
            assert(w1.key =~= w2.key);
        },
        _ => {},
    }
}

/// Distinct cells serialize to distinct bytes.
proof fn lemma_cell_code_injective(c1: Option<Sign>, c2: Option<Sign>)
    requires
        cell_code(c1) == cell_code(c2),
    ensures
        c1 == c2,
{
}

} // verus!
