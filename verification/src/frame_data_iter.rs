//! Iteration over the pixels of a frame, row by row.

use vstd::prelude::*;

use crate::frame_data::FrameDataValue;
use crate::pixel_grid::lemma_covers_iff_every_pixel_holds;

verus! {

/// An iterator over the rows of a frame, from the top. Each row is a
/// [`FrameRowIter`], an iterator over the values in that row. Nothing is
/// decoded before it is asked for, and [`FrameDataValue::iter`] starts anew
/// whenever it is called.
pub struct FrameDataIter<'a, T: FrameDataValue> {
    data: &'a T,
    width: usize,
    height: usize,
    row: usize,
}

impl<'a, T: FrameDataValue> FrameDataIter<'a, T> {
    /// The view whose rows are handed out.
    pub closed spec fn data(&self) -> &'a T {
        self.data
    }

    /// The number of the row that is handed out next.
    pub closed spec fn row(&self) -> nat {
        self.row as nat
    }

    #[verifier::type_invariant]
    spec fn every_pixel_is_readable(&self) -> bool {
        &&& self.data.grid().wf()
        &&& self.data.grid().covers(self.data.value_len())
        &&& self.width == self.data.grid().width
        &&& self.height == self.data.grid().height
    }

    /// An iterator over the rows of `data`, starting at the top.
    pub(crate) fn new(data: &'a T) -> (rows: FrameDataIter<'a, T>)
        requires
            data.grid().covers(data.value_len()),
        ensures
            rows.data() == data,
            rows.row() == 0,
    {
        let grid = data.pixel_grid();
        FrameDataIter { data, width: grid.width(), height: grid.height(), row: 0 }
    }

    /// Hands out the next row, or `None` once every row has been handed out.
    pub fn next(&mut self) -> (item: Option<FrameRowIter<'a, T>>)
        ensures
            final(self).data() == old(self).data(),
            old(self).row() < old(self).data().grid().height ==> {
                &&& item is Some
                &&& item.unwrap().data() == old(self).data()
                &&& item.unwrap().row() == old(self).row()
                &&& item.unwrap().col() == 0
                &&& final(self).row() == old(self).row() + 1
            },
            old(self).row() >= old(self).data().grid().height ==> {
                &&& item is None
                &&& final(self).row() == old(self).row()
            },
    {
        proof {
            use_type_invariant(&*self);
        }
        if self.row >= self.height {
            return None;
        }
        let row: usize = self.row;
        self.row += 1;
        Some(FrameRowIter { data: self.data, width: self.width, row, col: 0 })
    }
}

/// An iterator over the values in one row of a frame, from the left.
pub struct FrameRowIter<'a, T: FrameDataValue> {
    data: &'a T,
    width: usize,
    row: usize,
    col: usize,
}

impl<'a, T: FrameDataValue> FrameRowIter<'a, T> {
    /// The view whose values are handed out.
    pub closed spec fn data(&self) -> &'a T {
        self.data
    }

    /// The number of the row.
    pub closed spec fn row(&self) -> nat {
        self.row as nat
    }

    /// The number of the column whose value is handed out next.
    pub closed spec fn col(&self) -> nat {
        self.col as nat
    }

    #[verifier::type_invariant]
    spec fn row_is_readable(&self) -> bool {
        &&& self.data.grid().wf()
        &&& self.data.grid().covers(self.data.value_len())
        &&& self.width == self.data.grid().width
        &&& self.row < self.data.grid().height
    }

    /// Hands out the value of the next pixel of the row, or `None` once the
    /// row is exhausted. The value in column `x` is that of
    /// `get_pixel(x, row)`.
    pub fn next(&mut self) -> (item: Option<T::Value>)
        ensures
            final(self).data() == old(self).data(),
            final(self).row() == old(self).row(),
            old(self).row() < old(self).data().grid().height,
            old(self).col() < old(self).data().grid().width ==> {
                &&& item == Some(
                    old(self).data().pixel(old(self).col() as int, old(self).row() as int),
                )
                &&& final(self).col() == old(self).col() + 1
            },
            old(self).col() >= old(self).data().grid().width ==> {
                &&& item is None
                &&& final(self).col() == old(self).col()
            },
    {
        proof {
            use_type_invariant(&*self);
        }
        if self.col >= self.width {
            return None;
        }
        let col: usize = self.col;
        self.col += 1;
        proof {
            lemma_covers_iff_every_pixel_holds(self.data.grid(), self.data.value_len());
        }
        Some(self.data.get_pixel(col, self.row))
    }
}

} // verus!
