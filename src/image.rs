use vstd::prelude::*;

verus! {

/// Column and row of pixel `i` in a row-major grid `width` pixels wide.
pub open spec fn position_spec(i: int, width: int) -> (int, int) {
    (i % width, i / width)
}

/// Column and row of pixel `i` in a row-major grid `width` pixels wide.
pub fn pixel_position(i: usize, width: usize) -> (r: (usize, usize))
    requires
        width > 0,
    ensures
        r.0 == position_spec(i as int, width as int).0,
        r.1 == position_spec(i as int, width as int).1,
        r.0 < width,
{
    (i % width, i / width)
}

/// Row-major order: the pixel at column `col` of row `row` has index
/// `row * width + col`, and its position is that column and row.
pub proof fn lemma_row_major(col: int, row: int, width: int)
    requires
        0 <= col < width,
        0 <= row,
    ensures
        position_spec(row * width + col, width) == (col, row),
{
    vstd::arithmetic::div_mod::lemma_fundamental_div_mod_converse(
        row * width + col,
        width,
        row,
        col,
    );
}

/// A width-by-height grid of packed colours, filled one pixel at a time in
/// index order. A partly filled buffer is a valid state: the sweep may stop
/// between pixels and the pixels written so far stay as they are.
pub struct ImageBuffer {
    width: usize,
    height: usize,
    pixels: Vec<u32>,
    filled: usize,
}

impl ImageBuffer {
    pub closed spec fn width_spec(&self) -> nat {
        self.width as nat
    }

    pub closed spec fn height_spec(&self) -> nat {
        self.height as nat
    }

    /// The colours of all pixels, in row-major order.
    pub closed spec fn view_pixels(&self) -> Seq<u32> {
        self.pixels@
    }

    /// Number of pixels written so far.
    pub closed spec fn filled_spec(&self) -> nat {
        self.filled as nat
    }

    pub closed spec fn wf(&self) -> bool {
        &&& self.pixels@.len() == self.width * self.height
        &&& self.filled <= self.pixels@.len()
    }

    /// A buffer of `width * height` pixels, all of the background colour zero.
    pub fn new(width: usize, height: usize) -> (r: ImageBuffer)
        requires
            width * height <= usize::MAX,
        ensures
            r.wf(),
            r.width_spec() == width,
            r.height_spec() == height,
            r.filled_spec() == 0,
            r.view_pixels() == Seq::new((width * height) as nat, |i: int| 0u32),
    {
        let n: usize = width * height;
        let mut pixels: Vec<u32> = Vec::new();
        let mut i: usize = 0;
        while i < n
            invariant
                i <= n,
                pixels@ == Seq::new(i as nat, |k: int| 0u32),
            decreases n - i,
        {
            pixels.push(0);
            i = i + 1;
        }
        ImageBuffer { width, height, pixels, filled: 0 }
    }

    pub fn width(&self) -> (r: usize)
        ensures
            r == self.width_spec(),
    {
        self.width
    }

    pub fn height(&self) -> (r: usize)
        ensures
            r == self.height_spec(),
    {
        self.height
    }

    /// Number of pixels written so far.
    pub fn filled(&self) -> (r: usize)
        ensures
            r == self.filled_spec(),
    {
        self.filled
    }

    pub fn is_complete(&self) -> (r: bool)
        requires
            self.wf(),
        ensures
            r == (self.filled_spec() == self.view_pixels().len()),
    {
        self.filled == self.pixels.len()
    }

    /// Column and row of the next pixel to write, or `None` once all are.
    pub fn next_pixel(&self) -> (r: Option<(usize, usize)>)
        requires
            self.wf(),
        ensures
            r is None <==> self.filled_spec() == self.view_pixels().len(),
            r matches Some(p) ==> p.0 == position_spec(
                self.filled_spec() as int,
                self.width_spec() as int,
            ).0 && p.1 == position_spec(self.filled_spec() as int, self.width_spec() as int).1,
    {
        if self.filled == self.pixels.len() {
            None
        } else {
            assert(self.width > 0) by (nonlinear_arith)
                requires
                    self.pixels@.len() == self.width * self.height,
                    self.filled < self.pixels@.len(),
            ;
            Some(pixel_position(self.filled, self.width))
        }
    }

    /// Writes the colour of the next pixel; every other pixel keeps its value.
    pub fn write_next(&mut self, color: u32)
        requires
            old(self).wf(),
            old(self).filled_spec() < old(self).view_pixels().len(),
        ensures
            final(self).wf(),
            final(self).view_pixels() == old(self).view_pixels().update(
                old(self).filled_spec() as int,
                color,
            ),
            final(self).filled_spec() == old(self).filled_spec() + 1,
            final(self).width_spec() == old(self).width_spec(),
            final(self).height_spec() == old(self).height_spec(),
    {
        let i = self.filled;
        let n = self.pixels.len();
        assert(i < n);
        self.pixels.set(i, color);
        self.filled = i + 1;
    }

    /// The colours of all pixels, in row-major order.
    pub fn pixels(&self) -> (r: &Vec<u32>)
        ensures
            r@ == self.view_pixels(),
    {
        &self.pixels
    }
}

} // verus!
