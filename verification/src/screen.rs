//! The screen buffer: a fully allocated 2D grid of colors that the render
//! loop repopulates before each frame.

use vstd::prelude::*;

use crate::voxel::Color;

verus! {

/// A 2D grid of colors, `size_x` rows by `size_y` columns.
pub struct Screen {
    pub pixels: Vec<Vec<Color>>,
    pub size_x: usize,
    pub size_y: usize,
}

impl Screen {
    /// Whether the pixel grid is fully allocated to the stated size:
    /// `size_x` rows, each of `size_y` cells.
    pub open spec fn well_formed(&self) -> bool {
        &&& self.pixels@.len() == self.size_x
        &&& forall|i: int|
            0 <= i < self.pixels@.len() ==> (#[trigger] self.pixels@[i])@.len() == self.size_y
    }

    /// Allocate the pixel grid to the stated size, with every cell set to
    /// the black background color.
    pub fn init(&mut self)
        ensures
            final(self).size_x == old(self).size_x,
            final(self).size_y == old(self).size_y,
            final(self).well_formed(),
            forall|i: int, j: int|
                0 <= i < final(self).size_x && 0 <= j < final(self).size_y
                    ==> (#[trigger] final(self).pixels@[i]@[j]) == (Color { r: 0, g: 0, b: 0 }),
    {
        let size_x = self.size_x;
        let size_y = self.size_y;
        let mut screen: Vec<Vec<Color>> = Vec::new();
        let mut row_index: usize = 0;
        while row_index < size_x
            invariant
                row_index <= size_x,
                screen@.len() == row_index,
                forall|i: int| 0 <= i < row_index ==> (#[trigger] screen@[i])@.len() == size_y,
                forall|i: int, j: int|
                    0 <= i < row_index && 0 <= j < size_y ==> (#[trigger] screen@[i]@[j]) == (Color {
                        r: 0,
                        g: 0,
                        b: 0,
                    }),
            decreases size_x - row_index,
        {
            let mut x_row: Vec<Color> = Vec::new();
            let mut cell_index: usize = 0;
            while cell_index < size_y
                invariant
                    cell_index <= size_y,
                    x_row@.len() == cell_index,
                    forall|j: int|
                        0 <= j < cell_index ==> (#[trigger] x_row@[j]) == (Color {
                            r: 0,
                            g: 0,
                            b: 0,
                        }),
                decreases size_y - cell_index,
            {
                x_row.push(Color { r: 0, g: 0, b: 0 });
                cell_index = cell_index + 1;
            }
            screen.push(x_row);
            row_index = row_index + 1;
        }
        self.pixels = screen;
    }
}

} // verus!
