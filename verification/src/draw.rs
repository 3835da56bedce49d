//! Neither side can force a win: the value of the initial game is 0.
//!
//! The proof exhibits one simple strategy and shows that whoever follows it
//! never loses, whether moving first or second. The strategy is: complete a
//! line if possible; else block a line that the opponent is about to
//! complete; else take the centre; else answer the corners at which the
//! opponent could fork; else take the first free corner or side.
//!
//! That the strategy never loses is stated by a recursive predicate over
//! all the opponent's lines of play, and proved for the empty board by
//! unfolding the predicate: the boards are written as nine named cells, so
//! that each unfolding meets concrete cells and the solver can walk the
//! whole tree. An induction then carries the result over to the value of
//! the game, which is defined over sequences of cells.

use crate::board::{
    column_owner, derive_status, empty_count, initial_view, line_owner, row_owner, winner, Cell,
    GameStatus, Player,
};
use crate::solver::{
    best_move, game_value, lemma_best_move_is_optimal, lemma_place_fills_a_cell, place,
    reply_value,
};
use vstd::prelude::*;

verus! {

/// A board as nine named cells in row-major order.
struct Grid {
    c0: Cell,
    c1: Cell,
    c2: Cell,
    c3: Cell,
    c4: Cell,
    c5: Cell,
    c6: Cell,
    c7: Cell,
    c8: Cell,
}

/// The cell with index `k`.
spec fn at(g: Grid, k: int) -> Cell {
    if k == 0 {
        g.c0
    } else if k == 1 {
        g.c1
    } else if k == 2 {
        g.c2
    } else if k == 3 {
        g.c3
    } else if k == 4 {
        g.c4
    } else if k == 5 {
        g.c5
    } else if k == 6 {
        g.c6
    } else if k == 7 {
        g.c7
    } else {
        g.c8
    }
}

/// The grid with the cell of index `k` replaced.
spec fn with_cell(g: Grid, k: int, cell: Cell) -> Grid {
    if k == 0 {
        Grid { c0: cell, ..g }
    } else if k == 1 {
        Grid { c1: cell, ..g }
    } else if k == 2 {
        Grid { c2: cell, ..g }
    } else if k == 3 {
        Grid { c3: cell, ..g }
    } else if k == 4 {
        Grid { c4: cell, ..g }
    } else if k == 5 {
        Grid { c5: cell, ..g }
    } else if k == 6 {
        Grid { c6: cell, ..g }
    } else if k == 7 {
        Grid { c7: cell, ..g }
    } else {
        Grid { c8: cell, ..g }
    }
}

/// Whether `p` holds the three cells.
#[verifier::inline]
spec fn all_three(x: Cell, y: Cell, z: Cell, p: Player) -> bool {
    x == Cell::Occupied(p) && y == Cell::Occupied(p) && z == Cell::Occupied(p)
}

/// Whether `p` holds a complete line.
spec fn has_line(g: Grid, p: Player) -> bool {
    all_three(g.c0, g.c1, g.c2, p) || all_three(g.c3, g.c4, g.c5, p) || all_three(
        g.c6,
        g.c7,
        g.c8,
        p,
    ) || all_three(g.c0, g.c3, g.c6, p) || all_three(g.c1, g.c4, g.c7, p) || all_three(
        g.c2,
        g.c5,
        g.c8,
        p,
    ) || all_three(g.c0, g.c4, g.c8, p) || all_three(g.c2, g.c4, g.c6, p)
}

/// Whether `p` holds both cells.
#[verifier::inline]
spec fn both(x: Cell, y: Cell, p: Player) -> bool {
    x == Cell::Occupied(p) && y == Cell::Occupied(p)
}

/// The first empty cell with which `p` would complete a line; 9 if none.
#[verifier::inline]
spec fn completing_cell(g: Grid, p: Player) -> int {
    if g.c0 is Empty && (both(g.c1, g.c2, p) || both(g.c3, g.c6, p) || both(g.c4, g.c8, p)) {
        0
    } else if g.c1 is Empty && (both(g.c0, g.c2, p) || both(g.c4, g.c7, p)) {
        1
    } else if g.c2 is Empty && (both(g.c0, g.c1, p) || both(g.c5, g.c8, p) || both(g.c4, g.c6, p)) {
        2
    } else if g.c3 is Empty && (both(g.c4, g.c5, p) || both(g.c0, g.c6, p)) {
        3
    } else if g.c4 is Empty && (both(g.c3, g.c5, p) || both(g.c1, g.c7, p) || both(g.c0, g.c8, p)
        || both(g.c2, g.c6, p)) {
        4
    } else if g.c5 is Empty && (both(g.c3, g.c4, p) || both(g.c2, g.c8, p)) {
        5
    } else if g.c6 is Empty && (both(g.c7, g.c8, p) || both(g.c0, g.c3, p) || both(g.c2, g.c4, p)) {
        6
    } else if g.c7 is Empty && (both(g.c6, g.c8, p) || both(g.c1, g.c4, p)) {
        7
    } else if g.c8 is Empty && (both(g.c6, g.c7, p) || both(g.c2, g.c5, p) || both(g.c0, g.c4, p)) {
        8
    } else {
        9
    }
}

/// Whether `p` holds exactly one of the two cells and the other is empty.
#[verifier::inline]
spec fn one_of(x: Cell, y: Cell, p: Player) -> bool {
    (x == Cell::Occupied(p) && y is Empty) || (x is Empty && y == Cell::Occupied(p))
}

/// Whether `p` would threaten along both edges at once by taking the corner:
/// the corner is empty, and on each of the two edges that meet in it `p`
/// holds one of the other two cells while the third is empty.
#[verifier::inline]
spec fn fork_at(corner: Cell, a: Cell, b: Cell, c: Cell, d: Cell, p: Player) -> bool {
    corner is Empty && one_of(a, b, p) && one_of(c, d, p)
}

/// 1 for true, 0 for false.
#[verifier::inline]
spec fn flag(b: bool) -> nat {
    if b {
        1
    } else {
        0
    }
}

/// The cell that the strategy takes for `me`; 9 on a full board.
spec fn answer(g: Grid, me: Player) -> int {
    let you = me.other();
    let fork0 = fork_at(g.c0, g.c1, g.c2, g.c3, g.c6, you);
    let fork2 = fork_at(g.c2, g.c0, g.c1, g.c5, g.c8, you);
    let fork6 = fork_at(g.c6, g.c7, g.c8, g.c0, g.c3, you);
    let fork8 = fork_at(g.c8, g.c6, g.c7, g.c2, g.c5, you);
    let forks = flag(fork0) + flag(fork2) + flag(fork6) + flag(fork8);
    if completing_cell(g, me) < 9 {
        completing_cell(g, me)
    } else if completing_cell(g, you) < 9 {
        completing_cell(g, you)
    } else if g.c4 is Empty {
        4
    } else if forks >= 2 && g.c1 is Empty {
        1
    } else if forks >= 2 && g.c3 is Empty {
        3
    } else if forks >= 2 && g.c5 is Empty {
        5
    } else if forks >= 2 && g.c7 is Empty {
        7
    } else if forks == 1 && fork0 {
        0
    } else if forks == 1 && fork2 {
        2
    } else if forks == 1 && fork6 {
        6
    } else if forks == 1 && fork8 {
        8
    } else if g.c0 is Empty {
        0
    } else if g.c2 is Empty {
        2
    } else if g.c6 is Empty {
        6
    } else if g.c8 is Empty {
        8
    } else if g.c1 is Empty {
        1
    } else if g.c3 is Empty {
        3
    } else if g.c5 is Empty {
        5
    } else if g.c7 is Empty {
        7
    } else {
        9
    }
}

/// Whether `me`, following the strategy from `g` on with `turn` to move,
/// does not lose within the next `plies` moves, whatever the opponent plays.
#[verifier::opaque]
spec fn never_loses(g: Grid, me: Player, turn: Player, plies: nat) -> bool
    decreases plies,
{
    let you = me.other();
    let rest = (plies - 1) as nat;
    let stone = Cell::Occupied(turn);
    if has_line(g, you) {
        false
    } else if has_line(g, me) || plies == 0 {
        true
    } else if turn == me {
        let k = answer(g, me);
        if k == 0 {
            g.c0 is Empty && never_loses(Grid { c0: stone, ..g }, me, you, rest)
        } else if k == 1 {
            g.c1 is Empty && never_loses(Grid { c1: stone, ..g }, me, you, rest)
        } else if k == 2 {
            g.c2 is Empty && never_loses(Grid { c2: stone, ..g }, me, you, rest)
        } else if k == 3 {
            g.c3 is Empty && never_loses(Grid { c3: stone, ..g }, me, you, rest)
        } else if k == 4 {
            g.c4 is Empty && never_loses(Grid { c4: stone, ..g }, me, you, rest)
        } else if k == 5 {
            g.c5 is Empty && never_loses(Grid { c5: stone, ..g }, me, you, rest)
        } else if k == 6 {
            g.c6 is Empty && never_loses(Grid { c6: stone, ..g }, me, you, rest)
        } else if k == 7 {
            g.c7 is Empty && never_loses(Grid { c7: stone, ..g }, me, you, rest)
        } else if k == 8 {
            g.c8 is Empty && never_loses(Grid { c8: stone, ..g }, me, you, rest)
        } else {
            false
        }
    } else {
        &&& g.c0 is Empty ==> never_loses(Grid { c0: stone, ..g }, me, me, rest)
        &&& g.c1 is Empty ==> never_loses(Grid { c1: stone, ..g }, me, me, rest)
        &&& g.c2 is Empty ==> never_loses(Grid { c2: stone, ..g }, me, me, rest)
        &&& g.c3 is Empty ==> never_loses(Grid { c3: stone, ..g }, me, me, rest)
        &&& g.c4 is Empty ==> never_loses(Grid { c4: stone, ..g }, me, me, rest)
        &&& g.c5 is Empty ==> never_loses(Grid { c5: stone, ..g }, me, me, rest)
        &&& g.c6 is Empty ==> never_loses(Grid { c6: stone, ..g }, me, me, rest)
        &&& g.c7 is Empty ==> never_loses(Grid { c7: stone, ..g }, me, me, rest)
        &&& g.c8 is Empty ==> never_loses(Grid { c8: stone, ..g }, me, me, rest)
    }
}

/// The empty grid.
spec fn empty_grid() -> Grid {
    Grid {
        c0: Cell::Empty,
        c1: Cell::Empty,
        c2: Cell::Empty,
        c3: Cell::Empty,
        c4: Cell::Empty,
        c5: Cell::Empty,
        c6: Cell::Empty,
        c7: Cell::Empty,
        c8: Cell::Empty,
    }
}

/// The cells of a grid as a sequence.
spec fn cells_of(g: Grid) -> Seq<Cell> {
    Seq::new(9, |k: int| at(g, k))
}

/// The status of a grid, read off its lines.
proof fn lemma_status_of_grid(g: Grid)
    ensures
        forall|p: Player| winner(cells_of(g)) == Some(p) ==> has_line(g, p),
        forall|p: Player| has_line(g, p) ==> winner(cells_of(g)) is Some,
        derive_status(cells_of(g)) == GameStatus::Draw ==> empty_count(cells_of(g)) == 0,
        derive_status(cells_of(g)) == GameStatus::InProgress ==> empty_count(cells_of(g)) > 0,
{
    let cells = cells_of(g);
    assert(cells[0] == g.c0 && cells[1] == g.c1 && cells[2] == g.c2);
    assert(cells[3] == g.c3 && cells[4] == g.c4 && cells[5] == g.c5);
    assert(cells[6] == g.c6 && cells[7] == g.c7 && cells[8] == g.c8);
    assert(row_owner(cells, 0) == line_owner(cells, 0, 1, 2));
    assert(row_owner(cells, 1) == line_owner(cells, 3, 4, 5));
    assert(row_owner(cells, 2) == line_owner(cells, 6, 7, 8));
    assert(column_owner(cells, 0) == line_owner(cells, 0, 3, 6));
    assert(column_owner(cells, 1) == line_owner(cells, 1, 4, 7));
    assert(column_owner(cells, 2) == line_owner(cells, 2, 5, 8));
    if derive_status(cells) == GameStatus::InProgress {
        let k = choose|k: int| 0 <= k < 9 && #[trigger] cells[k] is Empty;
        assert(cells[k] is Empty);
    }
}

/// Taking a cell of the grid is taking it in the sequence of its cells.
proof fn lemma_cells_of_with_cell(g: Grid, k: int, p: Player)
    requires
        0 <= k < 9,
    ensures
        cells_of(with_cell(g, k, Cell::Occupied(p))) == place(cells_of(g), k, p),
{
    let next = with_cell(g, k, Cell::Occupied(p));
    assert forall|j: int| 0 <= j < 9 implies cells_of(next)[j] == place(cells_of(g), k, p)[j] by {
        assert(cells_of(next)[j] == at(next, j));
        assert(cells_of(g)[j] == at(g, j));
    }
    assert(cells_of(next) =~= place(cells_of(g), k, p));
}

/// What `never_loses` says of one move: the opponent has no line; on the
/// player's own turn the cell that the strategy names is empty and taking it
/// keeps the player from losing; on the opponent's turn every empty cell
/// does.
proof fn lemma_never_loses_step(g: Grid, me: Player, turn: Player, plies: nat)
    requires
        never_loses(g, me, turn, plies),
    ensures
        !has_line(g, me.other()),
        plies > 0 && !has_line(g, me) && turn == me ==> {
            &&& 0 <= answer(g, me) < 9
            &&& at(g, answer(g, me)) is Empty
            &&& never_loses(
                with_cell(g, answer(g, me), Cell::Occupied(me)),
                me,
                me.other(),
                (plies - 1) as nat,
            )
        },
        plies > 0 && !has_line(g, me) && turn != me ==> forall|k: int|
            0 <= k < 9 && at(g, k) is Empty ==> never_loses(
                #[trigger] with_cell(g, k, Cell::Occupied(turn)),
                me,
                me,
                (plies - 1) as nat,
            ),
{
    reveal(never_loses);
}

/// A player who never loses from a grid on has a value there that is at
/// least a draw: not below 0 for `X`, not above 0 for `O`.
proof fn lemma_never_losing_bounds_the_value(g: Grid, me: Player, turn: Player)
    requires
        never_loses(g, me, turn, empty_count(cells_of(g))),
    ensures
        me == Player::X ==> game_value(cells_of(g), turn) >= 0,
        me == Player::O ==> game_value(cells_of(g), turn) <= 0,
    decreases empty_count(cells_of(g)),
{
    let cells = cells_of(g);
    let plies = empty_count(cells);
    lemma_status_of_grid(g);
    lemma_never_loses_step(g, me, turn, plies);
    if derive_status(cells) == GameStatus::InProgress {
        lemma_best_move_is_optimal(cells, turn);
        let k = if turn == me {
            answer(g, me)
        } else {
            best_move(cells, turn)->Some_0.index()
        };
        let next = with_cell(g, k, Cell::Occupied(turn));
        assert(cells[k] == at(g, k));
        lemma_cells_of_with_cell(g, k, turn);
        lemma_place_fills_a_cell(cells, k, turn);
        lemma_never_losing_bounds_the_value(next, me, turn.other());
        assert(game_value(cells_of(next), turn.other()) == reply_value(cells, turn, k));
    }
}

/// Following the strategy, the player who moves first never loses.
proof fn lemma_first_player_never_loses()
    ensures
        never_loses(empty_grid(), Player::X, Player::X, 9),
{
    reveal_with_fuel(never_loses, 10);
}

/// Following the strategy, the player who moves second never loses.
proof fn lemma_second_player_never_loses()
    ensures
        never_loses(empty_grid(), Player::O, Player::X, 9),
{
    reveal_with_fuel(never_loses, 10);
}

/// The initial game is worth a draw: neither player can force a win.
pub proof fn lemma_initial_game_is_a_draw()
    ensures
        game_value(initial_view().cells, Player::X) == 0,
{
    assert(cells_of(empty_grid()) =~= initial_view().cells);
    lemma_first_player_never_loses();
    lemma_second_player_never_loses();
    lemma_never_losing_bounds_the_value(empty_grid(), Player::X, Player::X);
    lemma_never_losing_bounds_the_value(empty_grid(), Player::O, Player::X);
}

} // verus!
