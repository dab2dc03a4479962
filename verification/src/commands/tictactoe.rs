//! Play Tic Tac Toe with a computer because you don't have any REAL friends!
//!
//! usage (!tictactoe/!ttt) (reset/1..=9)

use crate::commands::default_limit;
use crate::commands::default_rate_limit;
use crate::commands::two_names;
use crate::commands::ChatCommand;
use crate::message::announcement;
use crate::message::one_announcement;
use crate::message::reply_views;
use crate::message::ChatMessage;
use crate::message::MessageView;
use crate::message::Reply;
use crate::message::ReplyView;
use crate::message::Response;
use crate::message::ResponseView;
use crate::spam::RateLimit;
use crate::text::chars_of;
use crate::text::glue;
use crate::text::same_text;
use crate::text::split_words;
use crate::text::texts;
use crate::text::words;
use vstd::hash_map::StringHashMap;
use vstd::prelude::*;
use vstd::string::StringExecFns;

verus! {

/// The mark of a player.
#[derive(Debug, PartialEq, Eq, Clone, Copy, Structural)]
pub enum Mark {
    X,
    O,
}

impl Mark {
    /// The mark of the opponent.
    pub open spec fn opponent(self) -> Mark {
        match self {
            Mark::O => Mark::X,
            Mark::X => Mark::O,
        }
    }

    /// The letter of the mark.
    pub open spec fn letter(self) -> char {
        match self {
            Mark::O => 'O',
            Mark::X => 'X',
        }
    }

    /// The sign of the mark: positive for `O`, negative for `X`.
    pub open spec fn sign(self) -> int {
        match self {
            Mark::O => 1,
            Mark::X => -1,
        }
    }

    /// The mark of the opponent.
    pub fn other(&self) -> (mark: Mark)
        ensures
            mark == self.opponent(),
    {
        match self {
            Mark::O => Mark::X,
            Mark::X => Mark::O,
        }
    }

    /// The letter of the mark.
    pub fn to_char(self) -> (c: char)
        ensures
            c == self.letter(),
    {
        match self {
            Self::O => 'O',
            Self::X => 'X',
        }
    }

    /// The sign of the mark: positive for `O`, negative for `X`.
    pub fn to_value(self) -> (value: i8)
        ensures
            value == self.sign(),
    {
        match self {
            Self::O => 1,
            Self::X => -1,
        }
    }
}

/// How a game stands.
#[derive(Debug, Clone, Copy, PartialEq, Eq)]
pub enum State {
    /// The board is full and nobody has won.
    Tie,
    /// The game goes on, and this mark is the next to be placed.
    Turn(Mark),
    /// This mark has three in a line.
    Winner(Mark),
}

impl State {
    /// The mark that the state speaks of; `X` for a tie.
    pub open spec fn mark(self) -> Mark {
        match self {
            State::Tie => Mark::X,
            State::Winner(m) => m,
            State::Turn(m) => m,
        }
    }

    /// The mark that the state speaks of; `X` for a tie.
    pub fn to_mark(&self) -> (mark: Mark)
        ensures
            mark == self.mark(),
    {
        match self {
            Self::Tie => Mark::X,
            Self::Winner(m) => *m,
            Self::Turn(m) => *m,
        }
    }
}

/// The number of cells of a board.
pub const CELLS: usize = 9;

/// Whether `marks` are the cells of a board.
pub open spec fn is_board(marks: Seq<Option<Mark>>) -> bool {
    marks.len() == CELLS
}

/// The mark that holds all of the cells `a`, `b` and `c`, if one does.
pub open spec fn line(marks: Seq<Option<Mark>>, a: int, b: int, c: int) -> Option<Mark> {
    if marks[a] is Some && marks[b] == marks[a] && marks[c] == marks[a] {
        marks[a]
    } else {
        None
    }
}

/// The first of two findings that found something.
pub open spec fn or_else(first: Option<Mark>, second: Option<Mark>) -> Option<Mark> {
    if first is Some {
        first
    } else {
        second
    }
}

/// The mark that has three in a line. Where several lines are full, the rows
/// come before the columns and these before the diagonals.
pub open spec fn winner(marks: Seq<Option<Mark>>) -> Option<Mark> {
    or_else(
        line(marks, 0, 1, 2),
        or_else(
            line(marks, 3, 4, 5),
            or_else(
                line(marks, 6, 7, 8),
                or_else(
                    line(marks, 0, 3, 6),
                    or_else(
                        line(marks, 1, 4, 7),
                        or_else(
                            line(marks, 2, 5, 8),
                            or_else(line(marks, 0, 4, 8), line(marks, 2, 4, 6)),
                        ),
                    ),
                ),
            ),
        ),
    )
}

/// The number of marks among the first `k` cells.
pub open spec fn marked(marks: Seq<Option<Mark>>, k: int) -> nat
    decreases k,
{
    if k <= 0 {
        0
    } else if marks[k - 1] is Some {
        marked(marks, k - 1) + 1
    } else {
        marked(marks, k - 1)
    }
}

/// The number of blank cells of a board.
pub open spec fn blanks(marks: Seq<Option<Mark>>) -> nat {
    (CELLS - marked(marks, CELLS as int)) as nat
}

/// How the game on the board `marks` stands: won, if a mark has three in a
/// line; tied, if the board is full; else it is the turn of `X` after an even
/// number of marks and of `O` after an odd one.
pub open spec fn state_of(marks: Seq<Option<Mark>>) -> State {
    match winner(marks) {
        Some(m) => State::Winner(m),
        None => if marked(marks, CELLS as int) == CELLS {
            State::Tie
        } else if marked(marks, CELLS as int) % 2 == 0 {
            State::Turn(Mark::X)
        } else {
            State::Turn(Mark::O)
        },
    }
}

/// The board after a mark was placed on cell `i`, if that is a move: the game
/// goes on, the cell is on the board and blank. The mark is that of the player
/// whose turn it is.
pub open spec fn placed(marks: Seq<Option<Mark>>, i: int) -> Option<Seq<Option<Mark>>> {
    match state_of(marks) {
        State::Turn(m) => if 0 <= i < CELLS && marks[i] is None {
            Some(marks.update(i, Some(m)))
        } else {
            None
        },
        _ => None,
    }
}

/// The blank cells among the first `k`, in rising order.
pub open spec fn blank_cells(marks: Seq<Option<Mark>>, k: int) -> Seq<usize>
    decreases k,
{
    if k <= 0 {
        Seq::empty()
    } else if marks[k - 1] is None {
        blank_cells(marks, k - 1).push((k - 1) as usize)
    } else {
        blank_cells(marks, k - 1)
    }
}

/// There are no more marks than cells.
pub proof fn lemma_marked_bounded(marks: Seq<Option<Mark>>, k: int)
    requires
        0 <= k,
    ensures
        marked(marks, k) <= k,
    decreases k,
{
    if k > 0 {
        lemma_marked_bounded(marks, k - 1);
    }
}

/// A mark on a blank cell is one mark more.
pub proof fn lemma_marked_after_update(marks: Seq<Option<Mark>>, i: int, m: Mark, k: int)
    requires
        0 <= i < marks.len(),
        0 <= k <= marks.len(),
        marks[i] is None,
    ensures
        marked(marks.update(i, Some(m)), k) == marked(marks, k) + if i < k {
            1nat
        } else {
            0nat
        },
    decreases k,
{
    if k > 0 {
        lemma_marked_after_update(marks, i, m, k - 1);
    }
}

/// The worth of placing a mark on `cell` to the player whose turn it is, if
/// both players go on as well as they can: 1 for a game won, 0 for a tie,
/// -1 for a game lost. Where `cell` is no move, the worth is 0.
pub open spec fn move_worth(marks: Seq<Option<Mark>>, cell: int) -> int
    decreases blanks(marks), 0int,
{
    if !is_board(marks) {
        0
    } else {
        match placed(marks, cell) {
            None => 0,
            Some(next) => {
                proof {
                    lemma_marked_after_update(marks, cell, state_of(marks).mark(), CELLS as int);
                    lemma_marked_bounded(next, CELLS as int);
                }
                match state_of(next) {
                    State::Turn(_) => -best_of(
                        next,
                        blank_cells(next, CELLS as int),
                        blank_cells(next, CELLS as int).len() as int,
                    ).1,
                    State::Tie => 0,
                    State::Winner(m) => m.sign() * state_of(marks).mark().sign(),
                }
            },
        }
    }
}

/// The best of the first `j` of the moves `cells`, with its worth: the last
/// of them whose worth is the greatest. Without a move to pick from, the
/// answer is cell 0 with a worth below every real one.
pub open spec fn best_of(marks: Seq<Option<Mark>>, cells: Seq<usize>, j: int) -> (usize, int)
    decreases blanks(marks), j + 1,
{
    if j <= 0 || j > cells.len() {
        (0, -2)
    } else {
        let before = best_of(marks, cells, j - 1);
        let worth = move_worth(marks, cells[j - 1] as int);
        if worth >= before.1 {
            (cells[j - 1], worth)
        } else {
            before
        }
    }
}

/// The move that is best for the player whose turn it is, with its worth; cell
/// 0 with worth 0 where the game is over.
pub open spec fn minimax_of(marks: Seq<Option<Mark>>) -> (usize, int) {
    match state_of(marks) {
        State::Turn(_) => best_of(
            marks,
            blank_cells(marks, CELLS as int),
            blank_cells(marks, CELLS as int).len() as int,
        ),
        _ => (0, 0),
    }
}

/// The blank cells are cells of the board, and blank.
pub proof fn lemma_blank_cells(marks: Seq<Option<Mark>>, k: int)
    requires
        0 <= k <= CELLS,
    ensures
        blank_cells(marks, k).len() + marked(marks, k) == k,
        forall|j: int|
            0 <= j < blank_cells(marks, k).len() ==> (#[trigger] blank_cells(marks, k)[j]) < k
                && marks[blank_cells(marks, k)[j] as int] is None,
    decreases k,
{
    if k > 0 {
        lemma_blank_cells(marks, k - 1);
    }
}

/// The product of two signs is a sign.
pub proof fn lemma_sign_product(a: Mark, b: Mark)
    ensures
        a.sign() * b.sign() == if a == b {
            1int
        } else {
            -1int
        },
{
}

/// No move is worth more than a game won or less than a game lost.
pub proof fn lemma_move_worth_bounded(marks: Seq<Option<Mark>>, cell: int)
    ensures
        -1 <= move_worth(marks, cell) <= 1,
    decreases blanks(marks), 0int,
{
    if is_board(marks) {
        match placed(marks, cell) {
            None => {},
            Some(next) => {
                lemma_marked_after_update(marks, cell, state_of(marks).mark(), CELLS as int);
                lemma_marked_bounded(next, CELLS as int);
                match state_of(next) {
                    State::Turn(_) => {
                        let cells_next = blank_cells(next, CELLS as int);
                        lemma_blank_cells(next, CELLS as int);
                        lemma_best_bounded(next, cells_next, cells_next.len() as int);
                    },
                    State::Tie => {},
                    State::Winner(m) => {
                        lemma_sign_product(m, state_of(marks).mark());
                    },
                }
            },
        }
    }
}

/// Where there is a move to pick from, the best is worth no more than a game
/// won and no less than a game lost.
pub proof fn lemma_best_bounded(marks: Seq<Option<Mark>>, cells: Seq<usize>, j: int)
    requires
        0 < j <= cells.len(),
    ensures
        -1 <= best_of(marks, cells, j).1 <= 1,
    decreases blanks(marks), j + 1,
{
    lemma_move_worth_bounded(marks, cells[j - 1] as int);
    if j > 1 {
        lemma_best_bounded(marks, cells, j - 1);
    } else {
        assert(best_of(marks, cells, 0).1 == -2);
    }
}

/// Every blank cell among the first `k` is one of the blank cells.
pub proof fn lemma_blank_cells_complete(marks: Seq<Option<Mark>>, k: int, cell: int)
    requires
        0 <= cell < k <= CELLS,
        marks[cell] is None,
    ensures
        blank_cells(marks, k).contains(cell as usize),
    decreases k,
{
    if cell == k - 1 {
        let cells = blank_cells(marks, k);
        assert(cells[cells.len() - 1] == cell as usize);
    } else {
        lemma_blank_cells_complete(marks, k - 1, cell);
        let fewer = blank_cells(marks, k - 1);
        let i = choose|i: int| 0 <= i < fewer.len() && fewer[i] == cell as usize;
        assert(blank_cells(marks, k)[i] == cell as usize);
    }
}

/// The best of some moves is one of them, and none of them is worth more.
pub proof fn lemma_best_of_is_best(marks: Seq<Option<Mark>>, cells: Seq<usize>, j: int)
    requires
        0 < j <= cells.len(),
    ensures
        exists|i: int|
            0 <= i < j && best_of(marks, cells, j).0 == #[trigger] cells[i] && best_of(
                marks,
                cells,
                j,
            ).1 == move_worth(marks, cells[i] as int),
        forall|i: int|
            0 <= i < j ==> move_worth(marks, #[trigger] cells[i] as int) <= best_of(
                marks,
                cells,
                j,
            ).1,
    decreases j,
{
    lemma_move_worth_bounded(marks, cells[j - 1] as int);
    if j > 1 {
        lemma_best_of_is_best(marks, cells, j - 1);
        let before = best_of(marks, cells, j - 1);
        let i = choose|i: int|
            0 <= i < j - 1 && before.0 == #[trigger] cells[i] && before.1 == move_worth(
                marks,
                cells[i] as int,
            );
        if move_worth(marks, cells[j - 1] as int) >= before.1 {
            assert(best_of(marks, cells, j).0 == cells[j - 1]);
        } else {
            assert(best_of(marks, cells, j).0 == cells[i]);
        }
    } else {
        assert(best_of(marks, cells, 0).1 == -2);
        assert(best_of(marks, cells, j).0 == cells[0]);
    }
}

/// While the game goes on, the move that [`minimax_of`] picks is a move, its
/// worth is what is told of it, and no move is worth more.
pub proof fn lemma_minimax_is_best(marks: Seq<Option<Mark>>, cell: int)
    requires
        is_board(marks),
        state_of(marks) is Turn,
    ensures
        minimax_of(marks).0 < CELLS,
        marks[minimax_of(marks).0 as int] is None,
        minimax_of(marks).1 == move_worth(marks, minimax_of(marks).0 as int),
        0 <= cell < CELLS && marks[cell] is None ==> move_worth(marks, cell) <= minimax_of(marks).1,
{
    let cells = blank_cells(marks, CELLS as int);
    lemma_blank_cells(marks, CELLS as int);
    lemma_marked_bounded(marks, CELLS as int);
    lemma_best_of_is_best(marks, cells, cells.len() as int);
    if 0 <= cell < CELLS && marks[cell] is None {
        lemma_blank_cells_complete(marks, CELLS as int, cell);
        let i = choose|i: int| 0 <= i < cells.len() && cells[i] == cell as usize;
        assert(move_worth(marks, cells[i] as int) <= minimax_of(marks).1);
    }
}

/// What a cell shows: the letter of its mark, or `_` while it is blank.
pub open spec fn cell_char(cell: Option<Mark>) -> char {
    match cell {
        Some(m) => m.letter(),
        None => '_',
    }
}

/// The row that begins with cell `r`, as it is shown.
pub open spec fn row_text(marks: Seq<Option<Mark>>, r: int) -> Seq<char> {
    seq![
        cell_char(marks[r]),
        '|',
        cell_char(marks[r + 1]),
        '|',
        cell_char(marks[r + 2]),
    ]
}

/// How `state` is told.
pub open spec fn state_text(state: State) -> Seq<char> {
    match state {
        State::Tie => "The game ended in a Tie!"@,
        State::Winner(m) => seq![m.letter()] + " Won!"@,
        State::Turn(m) => seq![m.letter()] + "'s turn!"@,
    }
}

/// The board as it is shown: how the game stands, and the three rows.
pub open spec fn shown(marks: Seq<Option<Mark>>) -> Seq<Seq<char>> {
    seq![state_text(state_of(marks)), row_text(marks, 0), row_text(marks, 3), row_text(marks, 6)]
}

/// The blank board.
pub open spec fn blank_board() -> Seq<Option<Mark>> {
    Seq::new(CELLS as nat, |i: int| None::<Mark>)
}

/// The cell that the digit `c` stands for: `1` for the first, `9` for the
/// last.
pub open spec fn cell_of(c: char) -> Option<usize> {
    if c == '1' {
        Some(0usize)
    } else if c == '2' {
        Some(1usize)
    } else if c == '3' {
        Some(2usize)
    } else if c == '4' {
        Some(3usize)
    } else if c == '5' {
        Some(4usize)
    } else if c == '6' {
        Some(5usize)
    } else if c == '7' {
        Some(6usize)
    } else if c == '8' {
        Some(7usize)
    } else if c == '9' {
        Some(8usize)
    } else {
        None
    }
}

/// The cell that the digit `c` stands for.
pub fn digit_cell(c: char) -> (cell: Option<usize>)
    ensures
        cell == cell_of(c),
{
    match c {
        '1' => Some(0),
        '2' => Some(1),
        '3' => Some(2),
        '4' => Some(3),
        '5' => Some(4),
        '6' => Some(5),
        '7' => Some(6),
        '8' => Some(7),
        '9' => Some(8),
        _ => None,
    }
}

/// What a cell shows, as text.
fn cell_text(cell: Option<Mark>) -> (text: &'static str)
    ensures
        text@ == seq![cell_char(cell)],
{
    proof {
        reveal_strlit("X");
        reveal_strlit("O");
        reveal_strlit("_");
    }
    let text: &'static str = match cell {
        Some(Mark::X) => "X",
        Some(Mark::O) => "O",
        None => "_",
    };
    assert(text@ =~= seq![cell_char(cell)]);
    text
}

/// A tic-tac-toe board: nine cells, row by row.
#[derive(Debug, Clone, Copy)]
pub struct Board {
    marks: [Option<Mark>; 9],
}

impl View for Board {
    type V = Seq<Option<Mark>>;

    closed spec fn view(&self) -> Seq<Option<Mark>> {
        self.marks@
    }
}

impl Board {
    /// A board always has nine cells.
    pub broadcast proof fn lemma_nine_cells(&self)
        ensures
            #[trigger] is_board(self@),
    {
    }

    /// The blank board.
    pub fn new() -> (board: Self)
        ensures
            forall|i: int| 0 <= i < CELLS ==> (#[trigger] board@[i]) is None,
    {
        Board { marks: [None, None, None, None, None, None, None, None, None] }
    }

    /// The mark on cell `i`, if there is one.
    pub fn get(&self, i: usize) -> (mark: Option<Mark>)
        requires
            i < CELLS,
        ensures
            mark == self@[i as int],
    {
        self.marks[i]
    }

    /// The mark that holds all of the cells `a`, `b` and `c`, if one does.
    fn line(&self, a: usize, b: usize, c: usize) -> (found: Option<Mark>)
        requires
            a < CELLS,
            b < CELLS,
            c < CELLS,
        ensures
            found == line(self@, a as int, b as int, c as int),
    {
        match self.marks[a] {
            Some(m) => {
                let second: bool = match self.marks[b] {
                    Some(n) => n == m,
                    None => false,
                };
                let third: bool = match self.marks[c] {
                    Some(n) => n == m,
                    None => false,
                };
                if second && third {
                    Some(m)
                } else {
                    None
                }
            },
            None => None,
        }
    }

    /// The number of marks on the board.
    pub fn count(&self) -> (n: usize)
        ensures
            n == marked(self@, CELLS as int),
            n <= CELLS,
    {
        let mut n: usize = 0;
        let mut i: usize = 0;
        while i < CELLS
            invariant
                i <= CELLS,
                n == marked(self@, i as int),
                n <= i,
            decreases CELLS - i,
        {
            if self.marks[i].is_some() {
                n = n + 1;
            }
            i = i + 1;
        }
        n
    }

    /// How the game stands.
    pub fn get_state(&self) -> (state: State)
        ensures
            state == state_of(self@),
    {
        // rows
        if let Some(m) = self.line(0, 1, 2) {
            return State::Winner(m);
        }
        if let Some(m) = self.line(3, 4, 5) {
            return State::Winner(m);
        }
        if let Some(m) = self.line(6, 7, 8) {
            return State::Winner(m);
        }
        // columns
        if let Some(m) = self.line(0, 3, 6) {
            return State::Winner(m);
        }
        if let Some(m) = self.line(1, 4, 7) {
            return State::Winner(m);
        }
        if let Some(m) = self.line(2, 5, 8) {
            return State::Winner(m);
        }
        // diagonals
        if let Some(m) = self.line(0, 4, 8) {
            return State::Winner(m);
        }
        if let Some(m) = self.line(2, 4, 6) {
            return State::Winner(m);
        }
        let r: usize = self.count();
        if r == CELLS {
            return State::Tie;
        }
        if r % 2 == 0 {
            State::Turn(Mark::X)
        } else {
            State::Turn(Mark::O)
        }
    }

    /// The row that begins with cell `r`, as it is shown.
    fn row(&self, r: usize) -> (text: String)
        requires
            r + 2 < CELLS,
        ensures
            text@ == row_text(self@, r as int),
    {
        proof {
            reveal_strlit("|");
        }
        let mut text: String = String::from_str(cell_text(self.marks[r]));
        text.append("|");
        text.append(cell_text(self.marks[r + 1]));
        text.append("|");
        text.append(cell_text(self.marks[r + 2]));
        assert(text@ =~= row_text(self@, r as int));
        text
    }

    /// The board as it is shown: how the game stands, and the three rows.
    pub fn print(&self) -> (lines: Vec<String>)
        ensures
            texts(lines@) == shown(self@),
    {
        let head: String = match self.get_state() {
            State::Tie => "The game ended in a Tie!".to_owned(),
            State::Winner(m) => glue(cell_text(Some(m)), " Won!"),
            State::Turn(m) => glue(cell_text(Some(m)), "'s turn!"),
        };
        let mut lines: Vec<String> = Vec::new();
        lines.push(head);
        lines.push(self.row(0));
        lines.push(self.row(3));
        lines.push(self.row(6));
        assert(texts(lines@) =~= shown(self@));
        lines
    }

    /// Places the mark of the player whose turn it is on cell `i`, if that is
    /// a move. Says whether it was.
    pub fn place(&mut self, i: usize) -> (done: Option<()>)
        ensures
            match placed(old(self)@, i as int) {
                Some(marks) => done is Some && final(self)@ == marks,
                None => done is None && final(self)@ == old(self)@,
            },
    {
        let state: State = self.get_state();
        let turn: Mark = match state {
            State::Turn(m) => m,
            _ => {
                return None;
            },
        };

        if i > 8 {
            return None;
        }
        match self.marks[i] {
            Some(_) => None,
            None => {
                self.marks[i] = Some(turn);
                Some(())
            },
        }
    }

    /// The blank cells, in rising order.
    pub fn empty(&self) -> (cells: Vec<usize>)
        ensures
            cells@ == blank_cells(self@, CELLS as int),
    {
        let mut cells: Vec<usize> = Vec::new();
        let mut i: usize = 0;
        while i < CELLS
            invariant
                i <= CELLS,
                cells@ == blank_cells(self@, i as int),
            decreases CELLS - i,
        {
            if self.marks[i].is_none() {
                cells.push(i);
            }
            i = i + 1;
        }
        cells
    }
}

/// The move that is best for the player whose turn it is, with its worth.
pub fn minimax(board: &Board) -> (best: (usize, i8))
    ensures
        best.0 == minimax_of(board@).0,
        best.1 == minimax_of(board@).1,
        -1 <= best.1 <= 1,
    decreases blanks(board@),
{
    let possible: Vec<usize> = board.empty();
    let player: Mark = match board.get_state() {
        State::Turn(m) => m,
        _ => {
            return (0, 0);
        },
    };
    proof {
        board.lemma_nine_cells();
        lemma_blank_cells(board@, CELLS as int);
        lemma_marked_bounded(board@, CELLS as int);
    }
    let mut best: (usize, i8) = (0, -2);
    let mut j: usize = 0;
    while j < possible.len()
        invariant
            j <= possible.len(),
            is_board(board@),
            possible@ == blank_cells(board@, CELLS as int),
            state_of(board@) == State::Turn(player),
            best.0 == best_of(board@, possible@, j as int).0,
            best.1 == best_of(board@, possible@, j as int).1,
            -2 <= best.1 <= 1,
        decreases possible.len() - j,
    {
        let mve: usize = possible[j];
        let mut new_board: Board = *board;
        new_board.place(mve);
        proof {
            lemma_blank_cells(board@, CELLS as int);
            lemma_marked_after_update(board@, mve as int, player, CELLS as int);
            lemma_marked_bounded(new_board@, CELLS as int);
            lemma_move_worth_bounded(board@, mve as int);
        }
        let worth: i8 = match new_board.get_state() {
            State::Turn(_) => {
                let reply: (usize, i8) = minimax(&new_board);
                -reply.1
            },
            State::Tie => 0,
            State::Winner(m) => {
                proof {
                    lemma_sign_product(m, player);
                }
                m.to_value() * player.to_value()
            },
        };
        assert(worth == move_worth(board@, mve as int));
        if worth >= best.1 {
            best = (mve, worth);
        }
        j = j + 1;
    }
    proof {
        lemma_best_bounded(board@, possible@, possible@.len() as int);
    }
    best
}

/// The boards by the id of their player.
pub open spec fn boards_of(players: Map<Seq<char>, Board>) -> Map<Seq<char>, Seq<Option<Mark>>> {
    Map::new(|id: Seq<char>| players.contains_key(id), |id: Seq<char>| players[id]@)
}

/// Each of `lines` as a message to the chat.
pub open spec fn announcements(lines: Seq<Seq<char>>) -> Seq<ReplyView> {
    Seq::new(lines.len(), |i: int| announcement(lines[i]))
}

/// The board after the player's mark on `cell` and the answer of the bot, or
/// `None` where `cell` is no move. The bot answers with its best move, unless
/// the player's has ended the game.
pub open spec fn round(marks: Seq<Option<Mark>>, cell: int) -> Option<Seq<Option<Mark>>> {
    match placed(marks, cell) {
        Some(next) => match placed(next, minimax_of(next).0 as int) {
            Some(answered) => Some(answered),
            None => Some(next),
        },
        None => None,
    }
}

/// The `tictactoe` command: a board for every player who has one.
pub struct TicTacToe {
    players: StringHashMap<Board>,
}

impl TicTacToe {
    /// The boards by the id of their player.
    pub closed spec fn games(&self) -> Map<Seq<char>, Seq<Option<Mark>>> {
        boards_of(self.players@)
    }

    /// The board of the player `id`; the blank board for a player without one.
    pub open spec fn game_of(&self, id: Seq<char>) -> Seq<Option<Mark>> {
        if self.games().contains_key(id) {
            self.games()[id]
        } else {
            blank_board()
        }
    }

    /// The answer that is the usage line.
    pub open spec fn explained(&self) -> ResponseView {
        one_announcement(self.usage(), false)
    }

    /// Plays one round on the board of the player `id`: the player's mark goes
    /// on `cell`, and the bot answers. Returns what to tell the chat.
    pub fn play(&mut self, id: &str, cell: usize) -> (response: Response)
        ensures
            match round(old(self).game_of(id@), cell as int) {
                Some(answered) => {
                    &&& final(self).games() == old(self).games().insert(id@, answered)
                    &&& response@ == (ResponseView {
                        replies: announcements(shown(answered)),
                        must_arrive: false,
                    })
                },
                None => {
                    &&& final(self).games() == old(self).games().insert(
                        id@,
                        old(self).game_of(id@),
                    )
                    &&& response@ == one_announcement("Invalid move!"@, false)
                },
            },
    {
        let mut board: Board = match self.players.get(id) {
            Some(b) => *b,
            None => Board::new(),
        };
        assert(board@ =~= self.game_of(id@));
        let response: Response = if board.place(cell).is_some() {
            let bot_move: usize = minimax(&board).0;
            board.place(bot_move);
            let lines: Vec<String> = board.print();
            let mut replies: Vec<Reply> = Vec::new();
            let mut k: usize = 0;
            while k < lines.len()
                invariant
                    k <= lines.len(),
                    replies@.len() == k,
                    forall|i: int|
                        0 <= i < k ==> (#[trigger] replies@[i])@ == announcement(lines@[i]@),
                decreases lines.len() - k,
            {
                replies.push(Reply::plain(lines[k].clone()));
                k = k + 1;
            }
            assert(reply_views(replies@) =~= announcements(texts(lines@)));
            Response { replies, must_arrive: false }
        } else {
            Response::announce("Invalid move!".to_owned(), false)
        };
        let ghost before = self.players@;
        self.players.insert(id.to_owned(), board);
        assert(boards_of(self.players@) =~= boards_of(before).insert(id@, board@));
        response
    }
}

impl ChatCommand for TicTacToe {
    open spec fn aliases() -> Seq<Seq<char>> {
        seq!["tictactoe"@, "ttt"@]
    }

    open spec fn usage(&self) -> Seq<char> {
        "usage: !tictactoe/!ttt (1-9/reset)"@
    }

    open spec fn limit(&self) -> RateLimit {
        default_limit()
    }

    /// Without an argument the command explains itself. `reset` takes the
    /// sender's board away. An argument that begins with a digit from 1 to 9
    /// plays one round on the sender's board, which is a blank one if the
    /// sender had none. Any other argument is answered with the usage line.
    open spec fn handles(
        &self,
        ctx: MessageView,
        after: Self,
        outcome: Result<ResponseView, Seq<char>>,
    ) -> bool {
        let args = words(ctx.text);
        if args.len() < 2 {
            &&& after.games() == self.games()
            &&& outcome == Ok::<ResponseView, Seq<char>>(self.explained())
        } else if args[1] == "reset"@ {
            &&& after.games() == self.games().remove(ctx.chatter_id)
            &&& outcome == Ok::<ResponseView, Seq<char>>(
                ResponseView { replies: Seq::empty(), must_arrive: false },
            )
        } else if args[1].len() > 0 && cell_of(args[1][0]) is Some {
            match round(self.game_of(ctx.chatter_id), cell_of(args[1][0]).unwrap() as int) {
                Some(answered) => {
                    &&& after.games() == self.games().insert(ctx.chatter_id, answered)
                    &&& outcome == Ok::<ResponseView, Seq<char>>(
                        ResponseView { replies: announcements(shown(answered)), must_arrive: false },
                    )
                },
                None => {
                    &&& after.games() == self.games().insert(
                        ctx.chatter_id,
                        self.game_of(ctx.chatter_id),
                    )
                    &&& outcome == Ok::<ResponseView, Seq<char>>(
                        one_announcement("Invalid move!"@, false),
                    )
                },
            }
        } else {
            &&& after.games() == self.games()
            &&& outcome == Ok::<ResponseView, Seq<char>>(self.explained())
        }
    }

    fn new() -> (game: Self)
        ensures
            game.games() == Map::<Seq<char>, Seq<Option<Mark>>>::empty(),
    {
        let game = Self { players: StringHashMap::new() };
        assert(game.games() =~= Map::<Seq<char>, Seq<Option<Mark>>>::empty());
        game
    }

    fn names() -> (names: Vec<String>) {
        two_names("tictactoe", "ttt")
    }

    fn rate_limit(&self) -> (limit: RateLimit) {
        default_rate_limit()
    }

    fn handle(&mut self, ctx: &ChatMessage) -> (outcome: Result<Response, String>) {
        let args: Vec<String> = split_words(ctx.text.as_str());
        if args.len() < 2 {
            return Ok(Response::announce(self.help(), false));
        }
        let arg: &str = args[1].as_str();
        if same_text(arg, "reset") {
            let ghost before = self.players@;
            self.players.remove(ctx.chatter.id.as_str());
            assert(boards_of(self.players@) =~= boards_of(before).remove(ctx@.chatter_id));
            let replies: Vec<Reply> = Vec::new();
            assert(reply_views(replies@) =~= Seq::<ReplyView>::empty());
            return Ok(Response { replies, must_arrive: false });
        }
        let letters: Vec<char> = chars_of(arg);
        if letters.len() > 0 {
            match digit_cell(letters[0]) {
                Some(cell) => {
                    return Ok(self.play(ctx.chatter.id.as_str(), cell));
                },
                None => {},
            }
        }
        Ok(Response::announce(self.help(), false))
    }

    fn help(&self) -> (usage: String) {
        "usage: !tictactoe/!ttt (1-9/reset)".to_owned()
    }
}

} // verus!
