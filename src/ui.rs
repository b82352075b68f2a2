//! An immediate-mode renderer: each frame is laid out anew, one row per
//! label, top to bottom, and handed out as cells for a terminal to draw.
use vstd::prelude::*;

verus! {

/// The colour pair of a regular row.
pub const REGULAR_PAIR: i16 = 0;

/// The colour pair of the selected row.
pub const HIGHLIGHT_PAIR: i16 = 1;

/// The index of a row within a list.
pub type Id = usize;

/// One run of text to draw at a screen position with a colour pair.
pub struct Cell {
    pub row: usize,
    pub col: usize,
    pub text: String,
    pub pair: i16,
}

/// A cell as values: row, column, text and colour pair.
pub type CellModel = (nat, nat, Seq<char>, i16);

impl View for Cell {
    type V = CellModel;

    open spec fn view(&self) -> CellModel {
        (self.row as nat, self.col as nat, self.text@, self.pair)
    }
}

/// The mathematical state of a renderer.
pub ghost struct UiModel {
    /// The selected index of the open list, if a list is open.
    pub list_curr: Option<nat>,
    /// Where the next label goes.
    pub row: nat,
    pub col: nat,
    /// Whether a frame has begun and not ended.
    pub in_frame: bool,
    /// The cells of the current frame, in the order they were laid out.
    pub cells: Seq<CellModel>,
}

/// The state of the renderer between frames and within one.
pub struct Ui {
    list_curr: Option<Id>,
    row: usize,
    col: usize,
    in_frame: bool,
    cells: Vec<Cell>,
}

/// What a sequence of cells holds, as values.
pub open spec fn cell_views(v: Seq<Cell>) -> Seq<CellModel> {
    v.map_values(|c: Cell| c@)
}

impl View for Ui {
    type V = UiModel;

    closed spec fn view(&self) -> UiModel {
        UiModel {
            list_curr: match self.list_curr {
                Some(id) => Some(id as nat),
                None => None,
            },
            row: self.row as nat,
            col: self.col as nat,
            in_frame: self.in_frame,
            cells: cell_views(self.cells@),
        }
    }
}

impl Default for Ui {
    fn default() -> (r: Ui)
        ensures
            r@ == (UiModel {
                list_curr: None,
                row: 0,
                col: 0,
                in_frame: false,
                cells: Seq::empty(),
            }),
    {
        let r = Ui { list_curr: None, row: 0, col: 0, in_frame: false, cells: Vec::new() };
        assert(cell_views(r.cells@) =~= Seq::empty());
        r
    }
}

impl Ui {
    /// Starts a frame whose first label goes at `row`, `col`; the cells of
    /// the last frame are dropped.
    pub fn begin(&mut self, row: usize, col: usize)
        ensures
            final(self)@ == (UiModel {
                row: row as nat,
                col: col as nat,
                in_frame: true,
                cells: Seq::empty(),
                ..old(self)@
            }),
    {
        self.col = col;
        self.row = row;
        self.in_frame = true;
        self.cells = Vec::new();
        assert(cell_views(self.cells@) =~= Seq::empty());
    }

    /// Opens a list whose row `id` is drawn highlighted. Lists do not nest.
    pub fn begin_list(&mut self, id: Id)
        requires
            old(self)@.list_curr is None,
        ensures
            final(self)@ == (UiModel { list_curr: Some(id as nat), ..old(self)@ }),
    {
        self.list_curr = Some(id);
    }

    /// Lays out one row of the open list: highlighted if `id` is the list's
    /// selected index, regular otherwise.
    pub fn list_element(&mut self, label: &str, id: Id)
        requires
            old(self)@.list_curr is Some,
            old(self)@.in_frame,
            old(self)@.row < usize::MAX,
        ensures
            final(self)@ == (UiModel {
                row: old(self)@.row + 1,
                cells: old(self)@.cells.push(
                    (
                        old(self)@.row,
                        old(self)@.col,
                        label@,
                        if old(self)@.list_curr == Some(id as nat) {
                            HIGHLIGHT_PAIR
                        } else {
                            REGULAR_PAIR
                        },
                    ),
                ),
                ..old(self)@
            }),
    {
        let id_curr = self.list_curr.unwrap();
        self.label(label, if id_curr == id { HIGHLIGHT_PAIR } else { REGULAR_PAIR });
    }

    /// Closes the open list, so that another may open.
    pub fn end_list(&mut self)
        ensures
            final(self)@ == (UiModel { list_curr: None, ..old(self)@ }),
    {
        self.list_curr = None;
    }

    /// Ends the frame; its cells stay until the next one begins.
    pub fn end(&mut self)
        ensures
            final(self)@ == (UiModel { in_frame: false, ..old(self)@ }),
    {
        self.in_frame = false;
    }

    /// Lays out `label` at the current position with colour `pair`, and
    /// moves down one row.
    pub fn label(&mut self, label: &str, pair: i16)
        requires
            old(self)@.in_frame,
            old(self)@.row < usize::MAX,
        ensures
            final(self)@ == (UiModel {
                row: old(self)@.row + 1,
                cells: old(self)@.cells.push((old(self)@.row, old(self)@.col, label@, pair)),
                ..old(self)@
            }),
    {
        let ghost before = self.cells@;
        let cell = Cell { row: self.row, col: self.col, text: label.to_owned(), pair };
        self.cells.push(cell);
        assert(cell_views(self.cells@) =~= cell_views(before).push(cell@));
        self.row = self.row + 1;
    }

    /// The cells of the current frame, top to bottom.
    pub fn cells(&self) -> (r: &Vec<Cell>)
        ensures
            cell_views(r@) == self@.cells,
    {
        &self.cells
    }
}

} // verus!
