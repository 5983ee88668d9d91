use vstd::prelude::*;

verus! {

/// The direction in which a grid is traversed.
///
/// `Horizontal` lays cells side by side: the declared lengths are column
/// widths and each cell's height fills the line. `Vertical` stacks cells:
/// the declared lengths are row heights and each cell's width fills the line.
#[derive(Clone, Copy, Debug, PartialEq, Eq, Structural)]
pub enum GridDirection {
    Horizontal,
    Vertical,
}

/// The size of a cell along one axis.
#[derive(Clone, Copy, Debug, PartialEq)]
pub enum CellSize<L> {
    /// A fixed extent.
    Absolute(L),
    /// Whatever the current line leaves along this axis.
    Remainder,
}

/// The empty cells that fill out the lengths `lens`, in order.
pub open spec fn empty_cells_of<L>(direction: GridDirection, lens: Seq<L>) -> Seq<(CellSize<L>, CellSize<L>)> {
    lens.map_values(|len: L| cell_size_of(direction, len))
}

/// The (width, height) of a cell whose declared length is `len`.
pub open spec fn cell_size_of<L>(direction: GridDirection, len: L) -> (CellSize<L>, CellSize<L>) {
    match direction {
        GridDirection::Horizontal => (CellSize::Absolute(len), CellSize::Remainder),
        GridDirection::Vertical => (CellSize::Remainder, CellSize::Absolute(len)),
    }
}

/// Collects the size hints of a grid's columns or rows, in order.
///
/// The hints are resolved into concrete lengths by a size solver, which
/// returns one length per hint; the builder then binds those lengths to a
/// traversal direction and yields the [`Grid`] for one layout pass.
pub struct GridBuilder<H, P> {
    sizing: Vec<H>,
    padding: P,
}

impl<H, P> GridBuilder<H, P> {
    /// The hints added so far, in order.
    pub closed spec fn hints(&self) -> Seq<H> {
        self.sizing@
    }

    /// The padding handed on to the grid and to grids nested in it.
    pub closed spec fn padding_spec(&self) -> P {
        self.padding
    }

    /// Creates a builder with no hints yet.
    pub fn new(padding: P) -> (r: Self)
        ensures
            r.hints() == Seq::<H>::empty(),
            r.padding_spec() == padding,
    {
        let sizing: Vec<H> = Vec::new();
        GridBuilder { sizing, padding }
    }

    /// Adds the size hint of one more column or row.
    pub fn size(self, size: H) -> (r: Self)
        ensures
            r.hints() == self.hints().push(size),
            r.padding_spec() == self.padding_spec(),
    {
        let mut b = self;
        b.sizing.push(size);
        b
    }

    /// Adds the same size hint for `count` more columns or rows.
    pub fn sizes(self, size: H, count: usize) -> (r: Self)
        where
            H: Copy,
        ensures
            r.hints() == self.hints() + Seq::new(count as nat, |i: int| size),
            r.padding_spec() == self.padding_spec(),
    {
        let mut b = self;
        let ghost start = b.sizing@;
        let ghost pad = b.padding;
        let mut i: usize = 0;
        while i < count
            invariant
                i <= count,
                b.sizing@ == start + Seq::new(i as nat, |j: int| size),
                b.padding == pad,
            decreases count - i,
        {
            b.sizing.push(size);
            i = i + 1;
        }
        b
    }

    /// The hints added so far, in order; they are what the size solver reads.
    pub fn size_hints(&self) -> (r: &Vec<H>)
        ensures
            r@ == self.hints(),
    {
        &self.sizing
    }

    /// The padding that this grid and every grid nested in it use.
    pub fn padding(&self) -> (r: &P)
        ensures
            *r == self.padding_spec(),
    {
        &self.padding
    }

    /// Builds a grid whose cells lie side by side: `widths` are the column
    /// widths that the size solver computed from the hints, one per hint, for
    /// the available width. The cells' heights fill the line.
    pub fn horizontal<L>(self, widths: Vec<L>) -> (r: Grid<L, P>)
        requires
            widths@.len() == self.hints().len(),
        ensures
            r.lengths() == widths@,
            r.lengths().len() == self.hints().len(),
            r.direction_spec() == GridDirection::Horizontal,
            r.padding_spec() == self.padding_spec(),
    {
        Grid { direction: GridDirection::Horizontal, padding: self.padding, widths }
    }

    /// Builds a grid whose cells are stacked: `heights` are the row heights
    /// that the size solver computed from the hints, one per hint, for the
    /// available height. The cells' widths fill the line.
    pub fn vertical<L>(self, heights: Vec<L>) -> (r: Grid<L, P>)
        requires
            heights@.len() == self.hints().len(),
        ensures
            r.lengths() == heights@,
            r.lengths().len() == self.hints().len(),
            r.direction_spec() == GridDirection::Vertical,
            r.padding_spec() == self.padding_spec(),
    {
        Grid { direction: GridDirection::Vertical, padding: self.padding, widths: heights }
    }
}

/// One grid pass: the declared lengths that are still unused, front first.
pub struct Grid<L, P> {
    direction: GridDirection,
    padding: P,
    widths: Vec<L>,
}

impl<L, P> Grid<L, P> {
    /// The lengths not yet handed out, in declaration order.
    pub closed spec fn lengths(&self) -> Seq<L> {
        self.widths@
    }

    /// The direction fixed when the grid was built.
    pub closed spec fn direction_spec(&self) -> GridDirection {
        self.direction
    }

    /// The padding that grids nested in this one inherit.
    pub closed spec fn padding_spec(&self) -> P {
        self.padding
    }

    /// Takes the next declared length and turns it into a cell size.
    fn size(&mut self) -> (r: (CellSize<L>, CellSize<L>))
        requires
            old(self).lengths().len() > 0,
        ensures
            r == cell_size_of(old(self).direction_spec(), old(self).lengths()[0]),
            final(self).lengths() == old(self).lengths().drop_first(),
            final(self).direction_spec() == old(self).direction_spec(),
            final(self).padding_spec() == old(self).padding_spec(),
    {
        match self.direction {
            GridDirection::Horizontal => (CellSize::Absolute(self.widths.remove(0)), CellSize::Remainder),
            GridDirection::Vertical => (CellSize::Remainder, CellSize::Absolute(self.widths.remove(0))),
        }
    }

    /// How many declared cells are still unused.
    pub fn remaining(&self) -> (r: usize)
        ensures
            r == self.lengths().len(),
    {
        self.widths.len()
    }

    /// The direction in which this grid is traversed.
    pub fn direction(&self) -> (r: GridDirection)
        ensures
            r == self.direction_spec(),
    {
        self.direction
    }

    /// Takes the next declared cell and leaves it empty; returns its
    /// (width, height). Asking for more cells than were declared is a
    /// programming error, so at least one must remain.
    pub fn empty(&mut self) -> (r: (CellSize<L>, CellSize<L>))
        requires
            old(self).lengths().len() > 0,
        ensures
            r == cell_size_of(old(self).direction_spec(), old(self).lengths()[0]),
            final(self).lengths() == old(self).lengths().drop_first(),
            final(self).direction_spec() == old(self).direction_spec(),
            final(self).padding_spec() == old(self).padding_spec(),
    {
        self.size()
    }

    /// Takes the next declared cell for content that may overflow it;
    /// returns its (width, height).
    pub fn cell(&mut self) -> (r: (CellSize<L>, CellSize<L>))
        requires
            old(self).lengths().len() > 0,
        ensures
            r == cell_size_of(old(self).direction_spec(), old(self).lengths()[0]),
            final(self).lengths() == old(self).lengths().drop_first(),
            final(self).direction_spec() == old(self).direction_spec(),
            final(self).padding_spec() == old(self).padding_spec(),
    {
        self.size()
    }

    /// Takes the next declared cell for content that is clipped to it;
    /// returns its (width, height).
    pub fn cell_noclip(&mut self) -> (r: (CellSize<L>, CellSize<L>))
        requires
            old(self).lengths().len() > 0,
        ensures
            r == cell_size_of(old(self).direction_spec(), old(self).lengths()[0]),
            final(self).lengths() == old(self).lengths().drop_first(),
            final(self).direction_spec() == old(self).direction_spec(),
            final(self).padding_spec() == old(self).padding_spec(),
    {
        self.size()
    }

    /// Takes the next declared cell to hold a nested grid; whether its content
    /// is clipped does not change its size. Returns the cell's
    /// (width, height) and a fresh builder for the nested grid, with no hints
    /// and this grid's padding. Whatever the nested grid declares, this grid
    /// gives up exactly one cell.
    fn add_grid<H>(&mut self) -> (r: ((CellSize<L>, CellSize<L>), GridBuilder<H, P>))
        where
            P: Copy,
        requires
            old(self).lengths().len() > 0,
        ensures
            r.0 == cell_size_of(old(self).direction_spec(), old(self).lengths()[0]),
            r.1.hints() == Seq::<H>::empty(),
            r.1.padding_spec() == old(self).padding_spec(),
            final(self).lengths() == old(self).lengths().drop_first(),
            final(self).direction_spec() == old(self).direction_spec(),
            final(self).padding_spec() == old(self).padding_spec(),
    {
        let padding = self.padding;
        let cell = self.size();
        (cell, GridBuilder::new(padding))
    }

    /// Takes the next declared cell to hold a nested grid whose content may
    /// overflow it.
    pub fn grid<H>(&mut self) -> (r: ((CellSize<L>, CellSize<L>), GridBuilder<H, P>))
        where
            P: Copy,
        requires
            old(self).lengths().len() > 0,
        ensures
            r.0 == cell_size_of(old(self).direction_spec(), old(self).lengths()[0]),
            r.1.hints() == Seq::<H>::empty(),
            r.1.padding_spec() == old(self).padding_spec(),
            final(self).lengths() == old(self).lengths().drop_first(),
            final(self).direction_spec() == old(self).direction_spec(),
            final(self).padding_spec() == old(self).padding_spec(),
    {
        self.add_grid()
    }

    /// Takes the next declared cell to hold a nested grid whose content is
    /// clipped to it.
    pub fn grid_noclip<H>(&mut self) -> (r: ((CellSize<L>, CellSize<L>), GridBuilder<H, P>))
        where
            P: Copy,
        requires
            old(self).lengths().len() > 0,
        ensures
            r.0 == cell_size_of(old(self).direction_spec(), old(self).lengths()[0]),
            r.1.hints() == Seq::<H>::empty(),
            r.1.padding_spec() == old(self).padding_spec(),
            final(self).lengths() == old(self).lengths().drop_first(),
            final(self).direction_spec() == old(self).direction_spec(),
            final(self).padding_spec() == old(self).padding_spec(),
    {
        self.add_grid()
    }

    /// Ends the pass: takes every declared cell that is still unused as an
    /// empty cell, in order, and returns their (width, height) pairs, so that
    /// the grid always covers its whole declared extent.
    pub fn fill_remaining(&mut self) -> (r: Vec<(CellSize<L>, CellSize<L>)>)
        ensures
            r@ == empty_cells_of(old(self).direction_spec(), old(self).lengths()),
            final(self).lengths() == Seq::<L>::empty(),
            final(self).direction_spec() == old(self).direction_spec(),
            final(self).padding_spec() == old(self).padding_spec(),
    {
        let ghost start = self.widths@;
        let ghost d = self.direction;
        let mut cells: Vec<(CellSize<L>, CellSize<L>)> = Vec::new();
        while self.widths.len() > 0
            invariant
                self.direction == d,
                self.padding == old(self).padding,
                cells@.len() + self.widths@.len() == start.len(),
                self.widths@ == start.skip(cells@.len() as int),
                forall|i: int| 0 <= i < cells@.len() ==> cells@[i] == cell_size_of(d, start[i]),
            decreases self.widths@.len(),
        {
            let cell = self.empty();
            cells.push(cell);
            assert(self.widths@ =~= start.skip(cells@.len() as int));
        }
        assert(cells@ =~= empty_cells_of(d, start));
        cells
    }
}

} // verus!
