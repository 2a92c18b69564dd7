//! A fixed-size store of cells, addressed by column and row.

use vstd::prelude::*;

verus! {

/// A field of `width` columns of `height` cells each. The grid knows nothing
/// of what its cells mean.
pub struct Grid<T> {
    cells: Vec<Vec<T>>,
    width: usize,
    height: usize,
}

/// The columns `columns` with the cell at column `x`, row `y` replaced.
pub open spec fn put<T>(columns: Seq<Seq<T>>, x: int, y: int, cell: T) -> Seq<Seq<T>> {
    columns.update(x, columns[x].update(y, cell))
}

impl<T> View for Grid<T> {
    type V = Seq<Seq<T>>;

    /// The cells, column by column: `self@[x][y]` is the cell at column `x`
    /// and row `y`.
    closed spec fn view(&self) -> Seq<Seq<T>> {
        Seq::new(self.cells@.len(), |x: int| self.cells@[x]@)
    }
}

impl<T> Grid<T> {
    /// Number of columns.
    pub closed spec fn spec_width(&self) -> usize {
        self.width
    }

    /// Number of rows.
    pub closed spec fn spec_height(&self) -> usize {
        self.height
    }

    /// The grid holds exactly `width` columns of `height` cells.
    pub open spec fn wf(&self) -> bool {
        &&& self@.len() == self.spec_width()
        &&& forall|x: int|
            0 <= x < self@.len() ==> (#[trigger] self@[x]).len() == self.spec_height()
    }

    /// Whether `(x, y)` is a coordinate of the grid.
    pub open spec fn contains(&self, x: int, y: int) -> bool {
        0 <= x < self.spec_width() && 0 <= y < self.spec_height()
    }

    /// Well-formedness in terms of the stored columns.
    proof fn lemma_columns(&self)
        requires
            self.wf(),
        ensures
            self.cells@.len() == self.width,
            forall|i: int|
                0 <= i < self.cells@.len() ==> (#[trigger] self.cells@[i])@.len() == self.height,
    {
        assert forall|i: int| 0 <= i < self.cells@.len() implies (#[trigger] self.cells@[i])@.len()
            == self.height by {
            assert(self@[i].len() == self.height);
        }
    }

    /// Number of columns.
    #[verifier::when_used_as_spec(spec_width)]
    pub fn width(&self) -> (w: usize)
        ensures
            w == self.spec_width(),
    {
        self.width
    }

    /// Number of rows.
    #[verifier::when_used_as_spec(spec_height)]
    pub fn height(&self) -> (h: usize)
        ensures
            h == self.spec_height(),
    {
        self.height
    }

    /// The cell at the given coordinates, or `None` outside the grid.
    pub fn get(&self, x: usize, y: usize) -> (r: Option<&T>)
        requires
            self.wf(),
        ensures
            r is Some <==> self.contains(x as int, y as int),
            r is Some ==> *r.unwrap() == self@[x as int][y as int],
    {
        if x < self.width && y < self.height {
            assert(self@[x as int].len() == self.height);
            Some(&self.cells[x][y])
        } else {
            None
        }
    }

    /// Access to the cell at the given coordinates for changing it, or
    /// `None` outside the grid.
    pub fn get_mut(&mut self, x: usize, y: usize) -> (r: Option<&mut T>)
        requires
            old(self).wf(),
        ensures
            r is Some <==> old(self).contains(x as int, y as int),
            r is Some ==> *r.unwrap() == old(self)@[x as int][y as int],
            r is Some ==> final(self)@ == put(old(self)@, x as int, y as int, *final(r.unwrap())),
            r is None ==> final(self)@ == old(self)@,
            final(self).spec_width() == old(self).spec_width(),
            final(self).spec_height() == old(self).spec_height(),
            final(self).wf(),
    {
        if x < self.width && y < self.height {
            proof {
                self.lemma_columns();
            }
            Some(&mut self.cells[x][y])
        } else {
            None
        }
    }

    /// Replaces the cell at the given coordinates.
    pub fn set(&mut self, x: usize, y: usize, cell: T)
        requires
            old(self).wf(),
            old(self).contains(x as int, y as int),
        ensures
            final(self)@ == put(old(self)@, x as int, y as int, cell),
            final(self).spec_width() == old(self).spec_width(),
            final(self).spec_height() == old(self).spec_height(),
            final(self).wf(),
    {
        proof {
            self.lemma_columns();
        }
        self.cells[x][y] = cell;
        assert(self@ =~= put(old(self)@, x as int, y as int, cell));
    }
}

impl<T: Default> Grid<T> {
    /// A grid of the given size in which every cell holds the default value
    /// of its type.
    pub fn new(width: usize, height: usize) -> (r: Self)
        ensures
            r.wf(),
            r.spec_width() == width,
            r.spec_height() == height,
            forall|x: int, y: int|
                0 <= x < width && 0 <= y < height ==> call_ensures(
                    T::default,
                    (),
                    #[trigger] r@[x][y],
                ),
    {
        let mut cells: Vec<Vec<T>> = Vec::with_capacity(width);
        let mut i: usize = 0;
        while i < width
            invariant
                i <= width,
                cells@.len() == i,
                forall|x: int| 0 <= x < i ==> (#[trigger] cells@[x])@.len() == height,
                forall|x: int, y: int|
                    0 <= x < i && 0 <= y < height ==> call_ensures(
                        T::default,
                        (),
                        #[trigger] cells@[x]@[y],
                    ),
            decreases width - i,
        {
            let mut column: Vec<T> = Vec::with_capacity(height);
            let mut j: usize = 0;
            while j < height
                invariant
                    j <= height,
                    column@.len() == j,
                    forall|y: int|
                        0 <= y < j ==> call_ensures(T::default, (), #[trigger] column@[y]),
                decreases height - j,
            {
                column.push(T::default());
                j += 1;
            }
            cells.push(column);
            i += 1;
        }
        Grid { cells, width, height }
    }
}

impl<T: Copy> Clone for Grid<T> {
    /// A grid of the same size that holds the same cells.
    fn clone(&self) -> (r: Self)
        ensures
            r@ == self@,
            r.spec_width() == self.spec_width(),
            r.spec_height() == self.spec_height(),
    {
        let mut cells: Vec<Vec<T>> = Vec::with_capacity(self.cells.len());
        let mut i: usize = 0;
        while i < self.cells.len()
            invariant
                i <= self.cells@.len(),
                cells@.len() == i,
                forall|x: int| 0 <= x < i ==> (#[trigger] cells@[x])@ == self.cells@[x]@,
            decreases self.cells@.len() - i,
        {
            let source = &self.cells[i];
            let mut column: Vec<T> = Vec::with_capacity(source.len());
            let mut j: usize = 0;
            while j < source.len()
                invariant
                    j <= source@.len(),
                    column@.len() == j,
                    forall|y: int| 0 <= y < j ==> column@[y] == source@[y],
                decreases source@.len() - j,
            {
                column.push(source[j]);
                j += 1;
            }
            assert(column@ =~= source@);
            cells.push(column);
            i += 1;
        }
        let r = Grid { cells, width: self.width, height: self.height };
        assert(r@ =~= self@);
        r
    }
}

impl<T: Default> Default for Grid<T> {
    /// The grid without cells.
    fn default() -> (r: Self)
        ensures
            r.wf(),
            r.spec_width() == 0,
            r.spec_height() == 0,
    {
        Grid::new(0, 0)
    }
}

} // verus!
