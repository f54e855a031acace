//! The game data model and its transition logic: board mutation, turn
//! advancement, and win/tie detection.

use vstd::prelude::*;

verus! {

broadcast use vstd::array::group_array_axioms;

/// An opaque player identity: a 32-byte public key or user id. The engine
/// never interprets the bytes; it only stores and returns them.
#[derive(Clone, Copy, PartialEq, Eq, Debug)]
pub struct Player {
    pub key: [u8; 32],
}

/// The marker a slot writes into a cell: slot 0 always plays `O`,
/// slot 1 always plays `X`.
#[derive(Clone, Copy, PartialEq, Eq, Structural, Debug)]
pub enum Sign {
    O,
    X,
}

/// The phase a game is in. A zero-initialized game carries `Active` with
/// turn 0; it accepts moves only once `start` has set the turn to 1.
#[derive(Clone, Copy, PartialEq, Eq, Debug)]
pub enum GameState {
    Active,
    Tie,
    Won { winner: Player },
}

/// A cell address on the 3x3 board.
#[derive(Clone, Copy, PartialEq, Eq, Structural, Debug)]
pub struct Tile {
    pub row: u8,
    pub column: u8,
}

/// The 3x3 grid; a cell is `None` while empty.
pub type Board = [[Option<Sign>; 3]; 3];

/// Why a call was rejected. Every rejection leaves the game unchanged.
#[derive(Clone, Copy, PartialEq, Eq, Structural, Debug)]
pub enum TicTacToeError {
    GameAlreadyStarted,
    GameAlreadyFull,
    NotEnoughPlayer,
    PlayerNotInGame,
    GameNotActive,
    TileOutOfBounds,
    TileAlreadySet,
}

impl TicTacToeError {
    /// A short description of the rejection, for callers that report it.
    pub fn message(&self) -> (m: &'static str)
        ensures
            self is GameAlreadyStarted ==> m@ == "The game has already been started"@,
            self is GameAlreadyFull ==> m@ == "There is no empty space for new player"@,
            self is NotEnoughPlayer ==> m@ == "The game needs 2 players to start"@,
            self is PlayerNotInGame ==> m@ == "You are not a game player"@,
            self is GameNotActive ==> m@ == "The game is not active"@,
            self is TileOutOfBounds ==> m@ == "Unable to play out of the board"@,
            self is TileAlreadySet ==> m@ == "The tile is already set"@,
    {
        match self {
            TicTacToeError::GameAlreadyStarted => "The game has already been started",
            TicTacToeError::GameAlreadyFull => "There is no empty space for new player",
            TicTacToeError::NotEnoughPlayer => "The game needs 2 players to start",
            TicTacToeError::PlayerNotInGame => "You are not a game player",
            TicTacToeError::GameNotActive => "The game is not active",
            TicTacToeError::TileOutOfBounds => "Unable to play out of the board",
            TicTacToeError::TileAlreadySet => "The tile is already set",
        }
    }
}

/// A game: two fixed player slots, the turn counter (0 while unstarted,
/// then 1 upward), the board, and the current state.
#[derive(Clone, Copy, PartialEq, Eq, Debug)]
pub struct Game {
    pub players: [Player; 2],
    pub turn: u8,
    pub board: Board,
    pub state: GameState,
}

/// The sign a slot plays: slot 0 marks `O`, slot 1 marks `X`.
pub open spec fn sign_of_index(i: int) -> Sign {
    if i == 0 {
        Sign::O
    } else {
        Sign::X
    }
}

/// The slot that acts on the given turn: turns alternate starting with
/// slot 0 on turn 1.
pub open spec fn acting_index(turn: u8) -> int
    recommends
        turn >= 1,
{
    (turn - 1) % 2
}

/// Whether the three addressed cells are all occupied by one sign.
pub open spec fn three_match(b: Board, r0: int, c0: int, r1: int, c1: int, r2: int, c2: int) -> bool {
    &&& b[r0][c0] is Some
    &&& b[r0][c0] == b[r1][c1]
    &&& b[r0][c0] == b[r2][c2]
}

/// Whether the given row is a completed line of one sign.
pub open spec fn row_wins(b: Board, r: int) -> bool {
    three_match(b, r, 0, r, 1, r, 2)
}

/// Whether the given column is a completed line of one sign.
pub open spec fn col_wins(b: Board, c: int) -> bool {
    three_match(b, 0, c, 1, c, 2, c)
}

/// Whether the main diagonal is a completed line of one sign.
pub open spec fn diag_wins(b: Board) -> bool {
    three_match(b, 0, 0, 1, 1, 2, 2)
}

/// Whether the anti-diagonal is a completed line of one sign.
pub open spec fn anti_diag_wins(b: Board) -> bool {
    three_match(b, 0, 2, 1, 1, 2, 0)
}

/// The four lines a mark at (r, c) can complete: its row, its column, and
/// both diagonals. `lemma_local_check_complete` shows this check misses no
/// win on a board that had none before the mark.
pub open spec fn local_win(b: Board, r: int, c: int) -> bool {
    ||| row_wins(b, r)
    ||| col_wins(b, c)
    ||| diag_wins(b)
    ||| anti_diag_wins(b)
}

/// Whether any of the eight lines (3 rows, 3 columns, 2 diagonals) is a
/// completed line of one sign.
pub open spec fn any_win(b: Board) -> bool {
    ||| exists|r: int| 0 <= r < 3 && #[trigger] row_wins(b, r)
    ||| exists|c: int| 0 <= c < 3 && #[trigger] col_wins(b, c)
    ||| diag_wins(b)
    ||| anti_diag_wins(b)
}

/// The board with the one cell at (r, c) replaced by v.
pub open spec fn board_set(b: Board, r: int, c: int, v: Option<Sign>) -> Board {
    vstd::array::spec_array_update(b, r, vstd::array::spec_array_update(b[r], c, v))
}

/// Whether a tile addresses a cell of the 3x3 board.
pub open spec fn tile_in_bounds(t: Tile) -> bool {
    t.row < 3 && t.column < 3
}

/// What `start` returns: it succeeds exactly on an unstarted game.
pub open spec fn start_outcome(g: Game) -> Result<(), TicTacToeError> {
    if g.turn == 0 {
        Ok(())
    } else {
        Err(TicTacToeError::GameAlreadyStarted)
    }
}

/// The game after `start`: on an unstarted game the two slots are filled,
/// the state becomes `Active` and the turn becomes 1; otherwise the game is
/// left as it was.
pub open spec fn start_next(g: Game, players: [Player; 2]) -> Game {
    if g.turn == 0 {
        Game { players, turn: 1, board: g.board, state: GameState::Active }
    } else {
        g
    }
}

/// What `play` returns: the checks run in this order, and the move succeeds
/// exactly on a playable game, an in-bounds tile and an empty cell.
pub open spec fn play_outcome(g: Game, t: Tile) -> Result<(), TicTacToeError> {
    if !g.playable() {
        Err(TicTacToeError::GameNotActive)
    } else if !tile_in_bounds(t) {
        Err(TicTacToeError::TileOutOfBounds)
    } else if g.board[t.row as int][t.column as int] is Some {
        Err(TicTacToeError::TileAlreadySet)
    } else {
        Ok(())
    }
}

/// What `play_as` returns: as `play`, with the mover's identity checked
/// against the acting slot before the board is consulted.
pub open spec fn play_as_outcome(g: Game, mover: Player, t: Tile) -> Result<(), TicTacToeError> {
    if !g.playable() {
        Err(TicTacToeError::GameNotActive)
    } else if mover != g.players[acting_index(g.turn)] {
        Err(TicTacToeError::PlayerNotInGame)
    } else {
        play_outcome(g, t)
    }
}

/// The game after `play_as`: as `play` when the mover holds the acting
/// slot, and unchanged otherwise.
pub open spec fn play_as_next(g: Game, mover: Player, t: Tile) -> Game {
    if play_as_outcome(g, mover, t) is Ok {
        play_next(g, t)
    } else {
        g
    }
}

/// The state after a mark at (r, c): a completed line through the mark wins
/// for the acting slot, a full board with no such line ties, and otherwise
/// the state is kept.
pub open spec fn next_state(g: Game, r: int, c: int) -> GameState {
    if local_win(g.board, r, c) {
        GameState::Won { winner: g.players[acting_index(g.turn)] }
    } else if g.turn == 9 {
        GameState::Tie
    } else {
        g.state
    }
}

/// The game after `play`: on failure it is left as it was; on success the
/// acting slot's sign is written into the addressed cell, the state is
/// re-evaluated, and the turn advances only while the game stays active.
pub open spec fn play_next(g: Game, t: Tile) -> Game {
    if play_outcome(g, t) is Err {
        g
    } else {
        let r = t.row as int;
        let c = t.column as int;
        let b2 = board_set(g.board, r, c, Some(sign_of_index(acting_index(g.turn))));
        let marked = Game { players: g.players, turn: g.turn, board: b2, state: g.state };
        let s2 = next_state(marked, r, c);
        let t2 = if s2 is Active {
            (g.turn + 1) as u8
        } else {
            g.turn
        };
        Game { board: b2, state: s2, turn: t2, players: g.players }
    }
}

impl Game {
    /// A game accepts moves only between `start` and a terminal state.
    pub open spec fn playable(self) -> bool {
        self.turn >= 1 && self.state is Active
    }

    /// The turn counter never passes 9: a ninth mark either wins or ties
    /// the game, and terminal games accept no further moves.
    pub open spec fn wf(self) -> bool {
        self.turn <= 9
    }

    /// Whether the state tag is `Active`. An unstarted game reports active
    /// as well: it is `playable` that also asks for a started game.
    pub fn is_active(&self) -> (r: bool)
        ensures
            r == (self.state is Active),
    {
        match self.state {
            GameState::Active => true,
            _ => false,
        }
    }

    /// The slot whose move the current turn is.
    pub fn current_player_index(&self) -> (r: usize)
        requires
            self.turn >= 1,
        ensures
            r as int == acting_index(self.turn),
            r < 2,
    {
        ((self.turn - 1) % 2) as usize
    }

    /// The identity of the player whose move the current turn is.
    pub fn current_player(&self) -> (r: Player)
        requires
            self.turn >= 1,
        ensures
            r == self.players[acting_index(self.turn)],
    {
        self.players[self.current_player_index()]
    }

    /// The sign the acting slot writes: `O` for slot 0, `X` for slot 1.
    pub fn current_player_sign(&self) -> (r: Option<Sign>)
        requires
            self.turn >= 1,
        ensures
            r == Some(sign_of_index(acting_index(self.turn))),
    {
        if self.current_player_index() == 0 {
            Some(Sign::O)
        } else {
            Some(Sign::X)
        }
    }

    /// A fresh, unstarted game: empty slots, turn 0, empty board. The state
    /// tag is `Active`, as in a zero-initialized snapshot, but the game is
    /// not `playable` until `start` sets the turn to 1.
    pub fn new() -> (g: Game)
        ensures
            g.turn == 0,
            g.state is Active,
            forall|r: int, c: int| 0 <= r < 3 && 0 <= c < 3 ==> g.board[r][c] is None,
            forall|s: int, i: int| 0 <= s < 2 && 0 <= i < 32 ==> g.players[s].key[i] == 0,
            g.wf(),
            !g.playable(),
    {
        let empty = Player { key: [0u8; 32] };
        Game {
            players: [empty, empty],
            turn: 0,
            board: [[None, None, None], [None, None, None], [None, None, None]],
            state: GameState::Active,
        }
    }

    /// Assigns the two identifiers to their fixed slots, activates the game
    /// and sets the turn to 1. Fails with `GameAlreadyStarted`, changing
    /// nothing, on a game that was started before.
    pub fn start(&mut self, players: [Player; 2]) -> (r: Result<(), TicTacToeError>)
        ensures
            r == start_outcome(*old(self)),
            *final(self) == start_next(*old(self), players),
            old(self).wf() ==> final(self).wf(),
    {
        if self.turn != 0 {
            return Err(TicTacToeError::GameAlreadyStarted);
        }
        self.players = players;
        self.state = GameState::Active;
        self.turn = 1;
        Ok(())
    }

    /// Whether the three cells the trio addresses are all occupied by one
    /// sign.
    pub fn is_winning_trio(&self, trio: [(usize, usize); 3]) -> (r: bool)
        requires
            trio[0].0 < 3 && trio[0].1 < 3,
            trio[1].0 < 3 && trio[1].1 < 3,
            trio[2].0 < 3 && trio[2].1 < 3,
        ensures
            r == three_match(
                self.board,
                trio[0].0 as int,
                trio[0].1 as int,
                trio[1].0 as int,
                trio[1].1 as int,
                trio[2].0 as int,
                trio[2].1 as int,
            ),
    {
        let first = trio[0];
        let second = trio[1];
        let third = trio[2];
        match (self.board[first.0][first.1], self.board[second.0][second.1], self.board[third.0][third.1]) {
            (Some(a), Some(b), Some(c)) => a == b && a == c,
            _ => false,
        }
    }

    /// Re-evaluates the state after a mark at the given tile: the acting
    /// slot wins on a completed line through the tile, a full board ties,
    /// and otherwise the state is kept. Players, turn and board are
    /// untouched.
    pub fn update_state(&mut self, last_tile: Tile)
        requires
            old(self).turn >= 1,
            tile_in_bounds(last_tile),
        ensures
            final(self).players == old(self).players,
            final(self).turn == old(self).turn,
            final(self).board == old(self).board,
            final(self).state == next_state(
                *old(self),
                last_tile.row as int,
                last_tile.column as int,
            ),
    {
        let row_num = last_tile.row as usize;
        let col_num = last_tile.column as usize;
        if self.is_winning_trio([(row_num, 0), (row_num, 1), (row_num, 2)])
            || self.is_winning_trio([(0, col_num), (1, col_num), (2, col_num)])
            || self.is_winning_trio([(0, 0), (1, 1), (2, 2)])
            || self.is_winning_trio([(0, 2), (1, 1), (2, 0)])
        {
            self.state = GameState::Won { winner: self.current_player() };
        } else if self.turn == 9 {
            self.state = GameState::Tie;
        }
    }

    /// Plays the current turn at the addressed cell. On success the acting
    /// slot's sign is written into the empty cell, the state is
    /// re-evaluated, and the turn advances only while the game stays
    /// active. Each failure (`GameNotActive`, `TileOutOfBounds`,
    /// `TileAlreadySet`, checked in that order) leaves the game unchanged.
    pub fn play(&mut self, tile: Tile) -> (r: Result<(), TicTacToeError>)
        requires
            old(self).wf(),
        ensures
            r == play_outcome(*old(self), tile),
            *final(self) == play_next(*old(self), tile),
            final(self).wf(),
    {
        if !(self.turn >= 1 && self.is_active()) {
            return Err(TicTacToeError::GameNotActive);
        }
        if !(tile.row <= 2 && tile.column <= 2) {
            return Err(TicTacToeError::TileOutOfBounds);
        }
        let row_num = tile.row as usize;
        let col_num = tile.column as usize;
        match self.board[row_num][col_num] {
            Some(_) => {
                return Err(TicTacToeError::TileAlreadySet);
            },
            None => {
                let v = self.current_player_sign();
                let mut marked_row = self.board[row_num];
                marked_row[col_num] = v;
                self.board[row_num] = marked_row;
            },
        }
        proof {
            assert(self.board =~= board_set(
                old(self).board,
                tile.row as int,
                tile.column as int,
                Some(sign_of_index(acting_index(old(self).turn))),
            ));
        }
        self.update_state(tile);
        if self.is_active() {
            self.turn = self.turn + 1;
        }
        Ok(())
    }

    /// As `play`, but only for the player whose turn it is: a mover that
    /// does not hold the acting slot is turned away with `PlayerNotInGame`
    /// before the board is consulted, and the game is left unchanged.
    pub fn play_as(&mut self, mover: Player, tile: Tile) -> (r: Result<(), TicTacToeError>)
        requires
            old(self).wf(),
        ensures
            r == play_as_outcome(*old(self), mover, tile),
            *final(self) == play_as_next(*old(self), mover, tile),
            final(self).wf(),
    {
        if !(self.turn >= 1 && self.is_active()) {
            return Err(TicTacToeError::GameNotActive);
        }
        let acting = self.current_player();
        if !keys_equal(&mover.key, &acting.key) {
            return Err(TicTacToeError::PlayerNotInGame);
        }
        proof {
            assert(mover.key =~= acting.key);
        }
        self.play(tile)
    }
}

/// Whether two 32-byte keys hold the same bytes.
fn keys_equal(a: &[u8; 32], b: &[u8; 32]) -> (r: bool)
    ensures
        r == (a@ == b@),
{
    let mut i: usize = 0;
    while i < 32
        invariant
            i <= 32,
            forall|j: int| 0 <= j < i ==> a@[j] == b@[j],
        decreases 32 - i,
    {
        if a[i] != b[i] {
            return false;
        }
        i = i + 1;
    }
    assert(a@ =~= b@);
    true
}

/// A winning line on a board that had none before a single mark must pass
/// through the marked cell: the local four-line check of `update_state`
/// misses no win among the eight lines.
pub proof fn lemma_local_check_complete(b0: Board, b1: Board, r: int, c: int)
    requires
        0 <= r < 3,
        0 <= c < 3,
        !any_win(b0),
        forall|i: int, j: int|
            0 <= i < 3 && 0 <= j < 3 && !(i == r && j == c) ==> b1[i][j] == b0[i][j],
    ensures
        any_win(b1) == local_win(b1, r, c),
{
    if any_win(b1) && !local_win(b1, r, c) {
        if exists|i: int| 0 <= i < 3 && #[trigger] row_wins(b1, i) {
            let i = choose|i: int| 0 <= i < 3 && #[trigger] row_wins(b1, i);
            assert(i != r);
            assert(row_wins(b0, i));
        } else {
            let j = choose|j: int| 0 <= j < 3 && #[trigger] col_wins(b1, j);
            assert(j != c);
            assert(col_wins(b0, j));
        }
    }
}

/// A successful move occupies exactly the addressed empty cell; every other
/// cell keeps its value.
pub proof fn lemma_play_changes_one_cell(g: Game, tile: Tile)
    requires
        play_outcome(g, tile) is Ok,
    ensures
        g.board[tile.row as int][tile.column as int] is None,
        play_next(g, tile).board[tile.row as int][tile.column as int] is Some,
        forall|i: int, j: int|
            0 <= i < 3 && 0 <= j < 3 && !(i == tile.row as int && j == tile.column as int)
                ==> play_next(g, tile).board[i][j] == g.board[i][j],
{
    let r = tile.row as int;
    let c = tile.column as int;
    let b2 = play_next(g, tile).board;
    assert(b2[r][c] is Some);
    assert forall|i: int, j: int|
        0 <= i < 3 && 0 <= j < 3 && !(i == r && j == c) implies b2[i][j] == g.board[i][j] by {
        if i == r {
            assert(b2[i] == vstd::array::spec_array_update(g.board[r], c, b2[r][c]));
        }
    }
}

/// A terminal game is frozen: once tied or won, every further move is
/// turned away with `GameNotActive` and nothing changes.
pub proof fn lemma_terminal_is_frozen(g: Game, tile: Tile)
    requires
        g.state is Tie || g.state is Won,
    ensures
        play_outcome(g, tile) == Err::<(), TicTacToeError>(TicTacToeError::GameNotActive),
        play_next(g, tile) == g,
{
}

/// The turn counter never decreases: a move advances it by one or, on a
/// move that ends the game, leaves it where it was.
pub proof fn lemma_turn_monotone(g: Game, players: [Player; 2], tile: Tile)
    requires
        g.wf(),
    ensures
        start_next(g, players).turn >= g.turn,
        play_next(g, tile).turn >= g.turn,
        play_next(g, tile).turn <= g.turn + 1,
{
}

/// On a board with no winning line yet, a successful move ends the game as
/// won exactly when it completes one of the eight lines, for the acting
/// player; while no line is complete the game stays active.
pub proof fn lemma_play_detects_every_win(g: Game, tile: Tile)
    requires
        play_outcome(g, tile) is Ok,
        !any_win(g.board),
    ensures
        play_next(g, tile).state is Won <==> any_win(play_next(g, tile).board),
        play_next(g, tile).state matches GameState::Won { winner } ==> winner
            == g.players[acting_index(g.turn)],
        play_next(g, tile).state is Active ==> !any_win(play_next(g, tile).board),
{
    lemma_play_changes_one_cell(g, tile);
    lemma_local_check_complete(
        g.board,
        play_next(g, tile).board,
        tile.row as int,
        tile.column as int,
    );
}

/// A failed `play` leaves the game unchanged, so running the same failing
/// call again yields the identical error and the identical snapshot.
pub proof fn lemma_failed_play_repeats(g: Game, tile: Tile)
    requires
        play_outcome(g, tile) is Err,
    ensures
        play_next(g, tile) == g,
        play_outcome(play_next(g, tile), tile) == play_outcome(g, tile),
        play_next(play_next(g, tile), tile) == play_next(g, tile),
{
}

/// A failed `start` leaves the game unchanged, so running the same failing
/// call again yields the identical error and the identical snapshot.
pub proof fn lemma_failed_start_repeats(g: Game, players: [Player; 2])
    requires
        start_outcome(g) is Err,
    ensures
        start_next(g, players) == g,
        start_outcome(start_next(g, players)) == start_outcome(g),
        start_next(start_next(g, players), players) == start_next(g, players),
{
}

} // verus!
