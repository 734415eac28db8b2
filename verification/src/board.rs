//! The board: which cell belongs to whom, the winning lines and the players' names.

use vstd::prelude::*;
use vstd::string::StringExecFns;
use std::collections::HashMap;
use crate::coordinate::Coordinate;
use crate::errors::{outcome, ErrorView, TttError};

verus! {

broadcast use vstd::std_specs::hash::group_hash_axioms;

/// The cell in row `y` and column `x`.
pub open spec fn cell(y: int, x: int) -> Coordinate<i8> {
    Coordinate { y: y as i8, x: x as i8 }
}

/// Whether `coord` is one of the nine cells of the board.
pub open spec fn on_board(coord: Coordinate<i8>) -> bool {
    0 <= coord.y < 3 && 0 <= coord.x < 3
}

/// The nine cells of the board.
pub open spec fn all_cells() -> Set<Coordinate<i8>> {
    Set::new(|coord: Coordinate<i8>| on_board(coord))
}

/// The eight lines that win the game: three rows, three columns, two diagonals.
pub open spec fn win_lines() -> Seq<Set<Coordinate<i8>>> {
    seq![
        set![cell(0, 0), cell(0, 1), cell(0, 2)],
        set![cell(1, 0), cell(1, 1), cell(1, 2)],
        set![cell(2, 0), cell(2, 1), cell(2, 2)],
        set![cell(0, 0), cell(1, 0), cell(2, 0)],
        set![cell(0, 1), cell(1, 1), cell(2, 1)],
        set![cell(0, 2), cell(1, 2), cell(2, 2)],
        set![cell(0, 0), cell(1, 1), cell(2, 2)],
        set![cell(2, 0), cell(1, 1), cell(0, 2)],
    ]
}

/// What a board holds: under each owner (0 for nobody, 1 and 2 for the players)
/// the cells that belong to it, and under each player id the name registered for it.
pub struct BoardView {
    pub occupancy: Map<u8, Set<Coordinate<i8>>>,
    pub names: Map<u8, Seq<char>>,
}

impl BoardView {
    /// The board at the start of a match: every cell free, nobody registered.
    pub open spec fn start() -> BoardView {
        BoardView {
            occupancy: map![
                0u8 => all_cells(),
                1u8 => Set::empty(),
                2u8 => Set::empty(),
            ],
            names: Map::empty(),
        }
    }

    /// The cells of the three owners are those of the board, and no two owners
    /// share a cell.
    pub open spec fn valid(self) -> bool {
        &&& self.occupancy.dom() =~= set![0u8, 1u8, 2u8]
        &&& self.occupancy[0] + self.occupancy[1] + self.occupancy[2] =~= all_cells()
        &&& self.occupancy[0].disjoint(self.occupancy[1])
        &&& self.occupancy[0].disjoint(self.occupancy[2])
        &&& self.occupancy[1].disjoint(self.occupancy[2])
    }

    /// The board after `coord` has passed from nobody to `player`.
    pub open spec fn claim(self, player: u8, coord: Coordinate<i8>) -> BoardView {
        BoardView {
            occupancy: self.occupancy.insert(0, self.occupancy[0].remove(coord)).insert(
                player,
                self.occupancy[player].insert(coord),
            ),
            names: self.names,
        }
    }

    /// The outcome of an attempt by `player` to take `coord`, and the board after it.
    /// A cell that is not free is refused whoever asks; a free one is refused to
    /// anyone but the players 1 and 2. A refusal leaves the board as it was.
    pub open spec fn update(self, player: u8, coord: Coordinate<i8>) -> (
        Result<(), ErrorView>,
        BoardView,
    ) {
        if !self.occupancy[0].contains(coord) {
            (Err(ErrorView::UsedSpace(coord)), self)
        } else if player != 1 && player != 2 {
            (Err(ErrorView::NoPlayer(player)), self)
        } else {
            (Ok(()), self.claim(player, coord))
        }
    }

    /// Whether the cells of `owner` hold one of the winning lines.
    pub open spec fn has_line(self, owner: u8) -> bool {
        exists|i: int|
            0 <= i < win_lines().len() && (#[trigger] win_lines()[i]).subset_of(
                self.occupancy[owner],
            )
    }

    /// The answer to the question whether `owner` has won.
    pub open spec fn check_win(self, owner: u8) -> Result<bool, ErrorView> {
        if owner <= 2 {
            Ok(self.has_line(owner))
        } else {
            Err(ErrorView::NoPlayer(owner))
        }
    }

    /// Whether no cell is free.
    pub open spec fn is_full(self) -> bool {
        self.occupancy[0] =~= Set::empty()
    }

    /// The name registered for `player_id`.
    pub open spec fn get_name(self, player_id: u8) -> Result<Seq<char>, ErrorView> {
        if self.names.contains_key(player_id) {
            Ok(self.names[player_id])
        } else {
            Err(ErrorView::NoPlayer(player_id))
        }
    }

    /// The board with `name` registered for `player_id`.
    pub open spec fn set_name(self, player_id: u8, name: Seq<char>) -> BoardView {
        BoardView { occupancy: self.occupancy, names: self.names.insert(player_id, name) }
    }

    /// The mark shown in a cell: `X` for player 1, `O` for player 2, a blank otherwise.
    pub open spec fn mark(self, coord: Coordinate<i8>) -> Seq<char> {
        if self.occupancy[1].contains(coord) {
            "X"@
        } else if self.occupancy[2].contains(coord) {
            "O"@
        } else {
            " "@
        }
    }

    /// The nine marks of the board, row after row.
    pub open spec fn render(self) -> Seq<Seq<char>> {
        Seq::new(9, |k: int| self.mark(cell(k / 3, k % 3)))
    }

    /// Row `y` of the drawing, from its left border to the end of the line.
    pub open spec fn row_text(self, y: int) -> Seq<char> {
        "\u{2551}"@ + self.mark(cell(y, 0)) + "\u{2502}"@ + self.mark(cell(y, 1)) + "\u{2502}"@
            + self.mark(cell(y, 2)) + "\u{2551}\n"@
    }

    /// The drawing of the board: the column letters, then the three rows, each with
    /// its number, inside a frame. Every line ends with a line feed.
    pub open spec fn display(self) -> Seq<char> {
        "     a b c\n    \u{2554}\u{2550}\u{2564}\u{2550}\u{2564}\u{2550}\u{2557}\n   1"@
            + self.row_text(0)
            + "    \u{255F}\u{2500}\u{253C}\u{2500}\u{253C}\u{2500}\u{2562}\n   2"@
            + self.row_text(1)
            + "    \u{255F}\u{2500}\u{253C}\u{2500}\u{253C}\u{2500}\u{2562}\n   3"@
            + self.row_text(2)
            + "    \u{255A}\u{2550}\u{2567}\u{2550}\u{2567}\u{2550}\u{255D}\n"@
    }
}

#[derive(Debug)]
pub struct Board {
    win_states: Vec<Vec<Coordinate<i8>>>,
    unclaimed: Vec<Coordinate<i8>>,
    first: Vec<Coordinate<i8>>,
    second: Vec<Coordinate<i8>>,
    names: HashMap<u8, String>,
}

/// The winning lines in the order in which a board keeps them.
spec fn win_table() -> Seq<Seq<Coordinate<i8>>> {
    seq![
        seq![cell(0, 0), cell(0, 1), cell(0, 2)],
        seq![cell(1, 0), cell(1, 1), cell(1, 2)],
        seq![cell(2, 0), cell(2, 1), cell(2, 2)],
        seq![cell(0, 0), cell(1, 0), cell(2, 0)],
        seq![cell(0, 1), cell(1, 1), cell(2, 1)],
        seq![cell(0, 2), cell(1, 2), cell(2, 2)],
        seq![cell(0, 0), cell(1, 1), cell(2, 2)],
        seq![cell(2, 0), cell(1, 1), cell(0, 2)],
    ]
}

impl View for Board {
    type V = BoardView;

    closed spec fn view(&self) -> BoardView {
        BoardView {
            occupancy: map![
                0u8 => self.unclaimed@.to_set(),
                1u8 => self.first@.to_set(),
                2u8 => self.second@.to_set(),
            ],
            names: Map::new(
                |id: u8| self.names@.contains_key(id),
                |id: u8| self.names@[id]@,
            ),
        }
    }
}

fn line_of(a: Coordinate<i8>, b: Coordinate<i8>, c: Coordinate<i8>) -> (line: Vec<Coordinate<i8>>)
    ensures
        line@ == seq![a, b, c],
{
    let mut line = Vec::new();
    line.push(a);
    line.push(b);
    line.push(c);
    line
}

/// Where `coord` stands in `list`, if it does.
fn position(list: &Vec<Coordinate<i8>>, coord: Coordinate<i8>) -> (found: Option<usize>)
    ensures
        match found {
            Some(i) => i < list@.len() && list@[i as int] == coord,
            None => !list@.contains(coord),
        },
{
    let mut i: usize = 0;
    while i < list.len()
        invariant
            i <= list@.len(),
            forall|k: int| 0 <= k < i ==> list@[k] != coord,
        decreases list@.len() - i,
    {
        if list[i] == coord {
            return Some(i);
        }
        i = i + 1;
    }
    None
}

/// Whether every cell of `line` is among `cells`.
fn covers(cells: &Vec<Coordinate<i8>>, line: &Vec<Coordinate<i8>>) -> (all: bool)
    ensures
        all == line@.to_set().subset_of(cells@.to_set()),
{
    let mut j: usize = 0;
    while j < line.len()
        invariant
            j <= line@.len(),
            forall|k: int| 0 <= k < j ==> cells@.contains(#[trigger] line@[k]),
        decreases line@.len() - j,
    {
        if position(cells, line[j]).is_none() {
            assert(line@.to_set().contains(line@[j as int]));
            return false;
        }
        j = j + 1;
    }
    true
}

proof fn lemma_remove_unique(list: Seq<Coordinate<i8>>, i: int)
    requires
        list.no_duplicates(),
        0 <= i < list.len(),
    ensures
        list.remove(i).no_duplicates(),
        list.remove(i).to_set() =~= list.to_set().remove(list[i]),
{
    let rest = list.remove(i);
    assert forall|coord: Coordinate<i8>|
        rest.to_set().contains(coord) <==> list.to_set().remove(list[i]).contains(coord) by {
        if list.contains(coord) && coord != list[i] {
            let k = choose|k: int| 0 <= k < list.len() && list[k] == coord;
            if k < i {
                assert(rest[k] == coord);
            } else {
                assert(rest[k - 1] == coord);
            }
        }
    }
}

proof fn lemma_push_unique(list: Seq<Coordinate<i8>>, coord: Coordinate<i8>)
    requires
        list.no_duplicates(),
        !list.contains(coord),
    ensures
        list.push(coord).no_duplicates(),
        list.push(coord).to_set() =~= list.to_set().insert(coord),
{
    let more = list.push(coord);
    assert forall|other: Coordinate<i8>|
        more.to_set().contains(other) <==> list.to_set().insert(coord).contains(other) by {
        if list.contains(other) {
            let k = choose|k: int| 0 <= k < list.len() && list[k] == other;
            assert(more[k] == other);
        }
        assert(more[list.len() as int] == coord);
    }
}

proof fn lemma_table_lines()
    ensures
        win_table().len() == 8,
        win_lines().len() == 8,
        forall|i: int| 0 <= i < 8 ==> (#[trigger] win_table()[i]).to_set() =~= win_lines()[i],
{
}

impl Board {
    /// The invariant of a board: each of its three lists names a cell at most once,
    /// every cell of the board is in exactly one of them, and the table of winning
    /// lines is the fixed one.
    pub closed spec fn wf(&self) -> bool {
        &&& self.unclaimed@.no_duplicates()
        &&& self.first@.no_duplicates()
        &&& self.second@.no_duplicates()
        &&& self@.valid()
        &&& self.win_states@.len() == 8
        &&& forall|i: int| 0 <= i < 8 ==> (#[trigger] self.win_states@[i])@ == win_table()[i]
    }

    /// A board on which every cell is free and nobody is registered.
    pub fn new() -> (board: Self)
        ensures
            board.wf(),
            board@ == BoardView::start(),
    {
        let top_row = line_of(Coordinate::new(0, 0), Coordinate::new(0, 1), Coordinate::new(0, 2));
        let mid_row = line_of(Coordinate::new(1, 0), Coordinate::new(1, 1), Coordinate::new(1, 2));
        let low_row = line_of(Coordinate::new(2, 0), Coordinate::new(2, 1), Coordinate::new(2, 2));
        let left_col = line_of(Coordinate::new(0, 0), Coordinate::new(1, 0), Coordinate::new(2, 0));
        let mid_col = line_of(Coordinate::new(0, 1), Coordinate::new(1, 1), Coordinate::new(2, 1));
        let right_col = line_of(
            Coordinate::new(0, 2),
            Coordinate::new(1, 2),
            Coordinate::new(2, 2),
        );
        let neg_diag = line_of(Coordinate::new(0, 0), Coordinate::new(1, 1), Coordinate::new(2, 2));
        let pos_diag = line_of(Coordinate::new(2, 0), Coordinate::new(1, 1), Coordinate::new(0, 2));

        let mut win_states: Vec<Vec<Coordinate<i8>>> = Vec::new();
        win_states.push(top_row);
        win_states.push(mid_row);
        win_states.push(low_row);
        win_states.push(left_col);
        win_states.push(mid_col);
        win_states.push(right_col);
        win_states.push(neg_diag);
        win_states.push(pos_diag);

        let mut all_coords: Vec<Coordinate<i8>> = Vec::new();
        all_coords.push(Coordinate::new(0, 0));
        all_coords.push(Coordinate::new(0, 1));
        all_coords.push(Coordinate::new(0, 2));
        all_coords.push(Coordinate::new(1, 0));
        all_coords.push(Coordinate::new(1, 1));
        all_coords.push(Coordinate::new(1, 2));
        all_coords.push(Coordinate::new(2, 0));
        all_coords.push(Coordinate::new(2, 1));
        all_coords.push(Coordinate::new(2, 2));

        let board = Self {
            win_states,
            unclaimed: all_coords,
            first: Vec::new(),
            second: Vec::new(),
            names: HashMap::new(),
        };
        proof {
            let cells = board.unclaimed@;
            assert forall|coord: Coordinate<i8>| on_board(coord) implies cells.contains(coord) by {
                let k = coord.y * 3 + coord.x;
                assert(cells[k] == coord);
            }
            assert(board@.occupancy =~~= BoardView::start().occupancy);
            assert(board@.names =~= BoardView::start().names);
        }
        board
    }

    /// Gives `coord` to `player`. A cell that is not free is refused with `UsedSpace`,
    /// whoever asks; a free one is refused with `NoPlayer` to anyone but the players
    /// 1 and 2. A refusal leaves the board as it was. `DuplicateEntry` guards the
    /// invariant and never leaves a board that holds it.
    pub fn update(&mut self, player: u8, coord: Coordinate<i8>) -> (result: Result<(), TttError>)
        requires
            old(self).wf(),
        ensures
            final(self).wf(),
            (outcome(result), final(self)@) == old(self)@.update(player, coord),
    {
        let found = position(&self.unclaimed, coord);
        let at = match found {
            Some(at) => at,
            None => {
                return Err(TttError::UsedSpace(coord));
            },
        };
        if player == 1 {
            if position(&self.first, coord).is_some() {
                return Err(TttError::DuplicateEntry(coord));
            }
            proof {
                lemma_remove_unique(self.unclaimed@, at as int);
                lemma_push_unique(self.first@, coord);
            }
            self.unclaimed.remove(at);
            self.first.push(coord);
            assert(self@.occupancy =~~= old(self)@.claim(player, coord).occupancy);
            Ok(())
        } else if player == 2 {
            if position(&self.second, coord).is_some() {
                return Err(TttError::DuplicateEntry(coord));
            }
            proof {
                lemma_remove_unique(self.unclaimed@, at as int);
                lemma_push_unique(self.second@, coord);
            }
            self.unclaimed.remove(at);
            self.second.push(coord);
            assert(self@.occupancy =~~= old(self)@.claim(player, coord).occupancy);
            Ok(())
        } else {
            Err(TttError::NoPlayer(player))
        }
    }

    /// The mark in row `y`, column `x`: `X` for player 1, `O` for player 2, a blank
    /// for a free cell and for a place off the board.
    pub fn get_coord(&self, y: i8, x: i8) -> (result: Result<&'static str, TttError>)
        ensures
            outcome(result) == Ok::<Seq<char>, ErrorView>(self@.mark(Coordinate { y, x })),
    {
        Ok(self.mark(Coordinate::new(y, x)))
    }

    fn mark(&self, coord: Coordinate<i8>) -> (mark: &'static str)
        ensures
            mark@ == self@.mark(coord),
    {
        if position(&self.first, coord).is_some() {
            "X"
        } else if position(&self.second, coord).is_some() {
            "O"
        } else {
            " "
        }
    }

    /// Registers `name` for `player_id`, in place of any earlier name.
    pub fn set_name(&mut self, player_id: u8, name: String)
        requires
            old(self).wf(),
        ensures
            final(self).wf(),
            final(self)@ == old(self)@.set_name(player_id, name@),
    {
        self.names.insert(player_id, name);
        assert(self@.names =~= old(self)@.set_name(player_id, name@).names);
    }

    /// The name registered for `player_id`, or `NoPlayer` where there is none.
    pub fn get_name(&self, player_id: u8) -> (result: Result<String, TttError>)
        ensures
            outcome(result) == self@.get_name(player_id),
    {
        match self.names.get(&player_id) {
            Some(name) => Ok(name.clone()),
            None => Err(TttError::NoPlayer(player_id)),
        }
    }

    /// Whether the cells of `player_id` hold a winning line. The owners 0, 1 and 2
    /// are known; any other id is refused with `NoPlayer`.
    pub fn check_win(&self, player_id: u8) -> (result: Result<bool, TttError>)
        requires
            self.wf(),
        ensures
            outcome(result) == self@.check_win(player_id),
    {
        let player_coords = if player_id == 0 {
            &self.unclaimed
        } else if player_id == 1 {
            &self.first
        } else if player_id == 2 {
            &self.second
        } else {
            return Err(TttError::NoPlayer(player_id));
        };
        let mut i: usize = 0;
        while i < self.win_states.len()
            invariant
                self.wf(),
                i <= 8,
                player_id <= 2,
                player_coords@.to_set() == self@.occupancy[player_id],
                forall|k: int|
                    0 <= k < i ==> !(#[trigger] win_lines()[k]).subset_of(
                        self@.occupancy[player_id],
                    ),
            decreases 8 - i,
        {
            proof {
                lemma_table_lines();
            }
            if covers(player_coords, &self.win_states[i]) {
                return Ok(true);
            }
            i = i + 1;
        }
        Ok(false)
    }

    /// Whether no cell is free.
    pub fn is_full(&self) -> (result: Result<bool, TttError>)
        ensures
            outcome(result) == Ok::<bool, ErrorView>(self@.is_full()),
    {
        let full = self.unclaimed.len() == 0;
        proof {
            if !full {
                assert(self.unclaimed@.to_set().contains(self.unclaimed@[0]));
            }
        }
        Ok(full)
    }

    /// The nine marks of the board, row after row.
    pub fn render(&self) -> (marks: Vec<&'static str>)
        ensures
            marks@.len() == 9,
            forall|k: int| 0 <= k < 9 ==> (#[trigger] marks@[k])@ == self@.render()[k],
    {
        let mut marks: Vec<&'static str> = Vec::new();
        let mut y: i8 = 0;
        while y < 3
            invariant
                0 <= y <= 3,
                marks@.len() == 3 * y,
                forall|k: int| 0 <= k < 3 * y ==> (#[trigger] marks@[k])@ == self@.render()[k],
            decreases 3 - y,
        {
            let mut x: i8 = 0;
            while x < 3
                invariant
                    0 <= y < 3,
                    0 <= x <= 3,
                    marks@.len() == 3 * y + x,
                    forall|k: int|
                        0 <= k < 3 * y + x ==> (#[trigger] marks@[k])@ == self@.render()[k],
                decreases 3 - x,
            {
                let mark = self.mark(Coordinate::new(y, x));
                marks.push(mark);
                x = x + 1;
            }
            y = y + 1;
        }
        marks
    }

    fn push_row(&self, text: &mut String, y: i8)
        requires
            0 <= y < 3,
        ensures
            final(text)@ == old(text)@ + self@.row_text(y as int),
    {
        let left = self.mark(Coordinate::new(y, 0));
        let middle = self.mark(Coordinate::new(y, 1));
        let right = self.mark(Coordinate::new(y, 2));
        text.append("\u{2551}");
        text.append(left);
        text.append("\u{2502}");
        text.append(middle);
        text.append("\u{2502}");
        text.append(right);
        text.append("\u{2551}\n");
    }

    /// The drawing of the board, ready to be printed.
    pub fn display(&self) -> (result: Result<String, TttError>)
        ensures
            outcome(result) == Ok::<Seq<char>, ErrorView>(self@.display()),
    {
        let mut text = String::from_str(
            "     a b c\n    \u{2554}\u{2550}\u{2564}\u{2550}\u{2564}\u{2550}\u{2557}\n   1",
        );
        self.push_row(&mut text, 0);
        text.append("    \u{255F}\u{2500}\u{253C}\u{2500}\u{253C}\u{2500}\u{2562}\n   2");
        self.push_row(&mut text, 1);
        text.append("    \u{255F}\u{2500}\u{253C}\u{2500}\u{253C}\u{2500}\u{2562}\n   3");
        self.push_row(&mut text, 2);
        text.append("    \u{255A}\u{2550}\u{2567}\u{2550}\u{2567}\u{2550}\u{255D}\n");
        Ok(text)
    }
}

fn copy_of(list: &Vec<Coordinate<i8>>) -> (copy: Vec<Coordinate<i8>>)
    ensures
        copy@ == list@,
{
    let mut copy: Vec<Coordinate<i8>> = Vec::new();
    let mut i: usize = 0;
    while i < list.len()
        invariant
            i <= list@.len(),
            copy@ == list@.subrange(0, i as int),
        decreases list@.len() - i,
    {
        copy.push(list[i]);
        i = i + 1;
    }
    copy
}

impl Clone for Board {
    fn clone(&self) -> (board: Self)
        ensures
            board@ == self@,
            self.wf() ==> board.wf(),
    {
        let mut win_states: Vec<Vec<Coordinate<i8>>> = Vec::new();
        let mut i: usize = 0;
        while i < self.win_states.len()
            invariant
                i <= self.win_states@.len(),
                win_states@.len() == i,
                forall|k: int| 0 <= k < i ==> (#[trigger] win_states@[k])@ == self.win_states@[k]@,
            decreases self.win_states@.len() - i,
        {
            win_states.push(copy_of(&self.win_states[i]));
            i = i + 1;
        }
        let board = Self {
            win_states,
            unclaimed: copy_of(&self.unclaimed),
            first: copy_of(&self.first),
            second: copy_of(&self.second),
            names: self.names.clone(),
        };
        board
    }
}

impl Default for Board {
    fn default() -> (board: Self)
        ensures
            board.wf(),
            board@ == BoardView::start(),
    {
        Board::new()
    }
}

proof fn lemma_nine_cells()
    ensures
        all_cells().finite(),
        all_cells().len() == 9,
{
    let cells = seq![
        cell(0, 0),
        cell(0, 1),
        cell(0, 2),
        cell(1, 0),
        cell(1, 1),
        cell(1, 2),
        cell(2, 0),
        cell(2, 1),
        cell(2, 2),
    ];
    assert(cells.to_set() =~= all_cells());
    cells.unique_seq_to_set();
}

/// On a board that holds its invariant, every cell of the board has exactly one
/// owner among nobody, player 1 and player 2, and what lies off the board has none.
pub proof fn lemma_one_owner_per_cell(board: Board, coord: Coordinate<i8>)
    requires
        board.wf(),
    ensures
        board@.valid(),
        on_board(coord) ==> {
            ||| board@.occupancy[0].contains(coord) && !board@.occupancy[1].contains(coord)
                && !board@.occupancy[2].contains(coord)
            ||| !board@.occupancy[0].contains(coord) && board@.occupancy[1].contains(coord)
                && !board@.occupancy[2].contains(coord)
            ||| !board@.occupancy[0].contains(coord) && !board@.occupancy[1].contains(coord)
                && board@.occupancy[2].contains(coord)
        },
        !on_board(coord) ==> !board@.occupancy[0].contains(coord) && !board@.occupancy[1].contains(
            coord,
        ) && !board@.occupancy[2].contains(coord),
{
    let view = board@;
    assert((view.occupancy[0] + view.occupancy[1] + view.occupancy[2]).contains(coord)
        == on_board(coord));
}

/// The winning lines are the three rows, the three columns and the two diagonals
/// of the board.
pub proof fn lemma_win_lines_by_shape()
    ensures
        win_lines().len() == 8,
        forall|row: int|
            0 <= row < 3 ==> #[trigger] win_lines()[row] =~= Set::new(
                |coord: Coordinate<i8>| on_board(coord) && coord.y == row,
            ),
        forall|column: int|
            0 <= column < 3 ==> #[trigger] win_lines()[3 + column] =~= Set::new(
                |coord: Coordinate<i8>| on_board(coord) && coord.x == column,
            ),
        win_lines()[6] =~= Set::new(|coord: Coordinate<i8>| on_board(coord) && coord.y == coord.x),
        win_lines()[7] =~= Set::new(
            |coord: Coordinate<i8>| on_board(coord) && coord.y + coord.x == 2,
        ),
{
}

/// A cell that one of the players owns is refused to everybody, with `UsedSpace`,
/// and the board stays as it was.
pub proof fn lemma_claimed_cell_is_refused(view: BoardView, player: u8, coord: Coordinate<i8>)
    requires
        view.valid(),
        view.occupancy[1].contains(coord) || view.occupancy[2].contains(coord),
    ensures
        view.update(player, coord) == (
            Err::<(), ErrorView>(ErrorView::UsedSpace(coord)),
            view,
        ),
{
}

/// Taking a free cell for player 1 or 2 keeps every cell with exactly one owner.
pub proof fn lemma_claim_keeps_valid(view: BoardView, player: u8, coord: Coordinate<i8>)
    requires
        view.valid(),
        view.occupancy[0].contains(coord),
        player == 1 || player == 2,
    ensures
        view.claim(player, coord).valid(),
        view.claim(player, coord).occupancy[0] == view.occupancy[0].remove(coord),
        view.claim(player, coord).occupancy[player] == view.occupancy[player].insert(coord),
{
}

/// A board that holds its invariant is full exactly when the two players own
/// nine cells between them.
pub proof fn lemma_full_iff_nine_claimed(board: Board)
    requires
        board.wf(),
    ensures
        board@.occupancy[1].finite(),
        board@.occupancy[2].finite(),
        board@.is_full() <==> board@.occupancy[1].len() + board@.occupancy[2].len() == 9,
{
    let free = board@.occupancy[0];
    let first = board@.occupancy[1];
    let second = board@.occupancy[2];
    lemma_nine_cells();
    vstd::set_lib::lemma_set_disjoint_lens(free, first);
    vstd::set_lib::lemma_set_disjoint_lens(free + first, second);
}

} // verus!
