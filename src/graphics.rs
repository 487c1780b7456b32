//! Pixel buffers and the mapping of drawing coordinates onto them.
//!
//! A buffer holds one color per pixel, row by row: the pixel at column `x` and
//! row `y` of the unrotated panel is at `x + width * y`.
use crate::color::EpdColor;
use vstd::arithmetic::div_mod::lemma_fundamental_div_mod_converse;
use vstd::prelude::*;

verus! {

/// How drawing coordinates are turned before they meet the panel.
#[derive(Clone, Copy, Debug, PartialEq, Eq, Structural)]
pub enum DisplayRotation {
    /// No rotation
    Rotate0,
    /// Rotate by 90 degrees clockwise
    Rotate90,
    /// Rotate by 180 degrees clockwise
    Rotate180,
    /// Rotate 270 degrees clockwise
    Rotate270,
}

impl Default for DisplayRotation {
    fn default() -> (r: Self)
        ensures
            r == DisplayRotation::Rotate0,
    {
        DisplayRotation::Rotate0
    }
}

/// Whether `(x, y)` lies off a `width` by `height` panel under `rotation`.
pub open spec fn is_outside(x: int, y: int, width: int, height: int, rotation: DisplayRotation) -> bool {
    match rotation {
        DisplayRotation::Rotate0 | DisplayRotation::Rotate180 => x >= width || y >= height,
        DisplayRotation::Rotate90 | DisplayRotation::Rotate270 => y >= width || x >= height,
    }
}

/// The buffer index of the drawing coordinates `(x, y)` under `rotation`.
pub open spec fn position(x: int, y: int, width: int, height: int, rotation: DisplayRotation) -> int {
    match rotation {
        DisplayRotation::Rotate0 => x + width * y,
        DisplayRotation::Rotate90 => (width - 1 - y) + width * x,
        DisplayRotation::Rotate180 => (width * height - 1) - (x + width * y),
        DisplayRotation::Rotate270 => y + width * (height - 1 - x),
    }
}

/// Checks whether a position lies off the panel.
pub fn outside_display(x: u32, y: u32, width: u32, height: u32, rotation: DisplayRotation) -> (r:
    bool)
    ensures
        r == is_outside(x as int, y as int, width as int, height as int, rotation),
{
    match rotation {
        DisplayRotation::Rotate0 | DisplayRotation::Rotate180 => {
            if x >= width || y >= height {
                return true;
            }
        },
        DisplayRotation::Rotate90 | DisplayRotation::Rotate270 => {
            if y >= width || x >= height {
                return true;
            }
        },
    }
    false
}

/// The column `a` of row `b` lies inside a `w` by `h` grid.
proof fn lemma_cell_in_grid(a: int, b: int, w: int, h: int)
    requires
        0 <= a < w,
        0 <= b < h,
    ensures
        0 <= a + w * b < w * h,
{
    assert(w * b <= w * (h - 1)) by (nonlinear_arith)
        requires
            0 <= b < h,
            0 < w,
    ;
    assert(w * (h - 1) + w == w * h) by (nonlinear_arith);
    assert(0 <= w * b) by (nonlinear_arith)
        requires
            0 <= b,
            0 < w,
    ;
}

/// A row-major index names one column and one row.
proof fn lemma_cell_unique(a1: int, b1: int, a2: int, b2: int, w: int)
    requires
        0 <= a1 < w,
        0 <= a2 < w,
        0 <= b1,
        0 <= b2,
        a1 + w * b1 == a2 + w * b2,
    ensures
        a1 == a2,
        b1 == b2,
{
    let n = a1 + w * b1;
    assert(n == b1 * w + a1) by (nonlinear_arith)
        requires
            n == a1 + w * b1,
    ;
    assert(n == b2 * w + a2) by (nonlinear_arith)
        requires
            n == a2 + w * b2,
    ;
    lemma_fundamental_div_mod_converse(n, w, b1, a1);
    lemma_fundamental_div_mod_converse(n, w, b2, a2);
}

/// Every in-bounds coordinate pair maps into the buffer: under every rotation,
/// the index that `find_position` gives lies below `width * height`.
pub proof fn lemma_position_in_buffer(
    x: int,
    y: int,
    width: int,
    height: int,
    rotation: DisplayRotation,
)
    requires
        0 <= x,
        0 <= y,
        !is_outside(x, y, width, height, rotation),
    ensures
        0 <= position(x, y, width, height, rotation) < width * height,
{
    match rotation {
        DisplayRotation::Rotate0 | DisplayRotation::Rotate180 => {
            lemma_cell_in_grid(x, y, width, height);
        },
        DisplayRotation::Rotate90 => {
            lemma_cell_in_grid(width - 1 - y, x, width, height);
        },
        DisplayRotation::Rotate270 => {
            lemma_cell_in_grid(y, height - 1 - x, width, height);
        },
    }
}

/// Two in-bounds coordinate pairs that map to one buffer index are the same
/// pair: under every rotation, `find_position` gives distinct points distinct
/// indices.
pub proof fn lemma_position_unique(
    x1: int,
    y1: int,
    x2: int,
    y2: int,
    width: int,
    height: int,
    rotation: DisplayRotation,
)
    requires
        0 <= x1,
        0 <= y1,
        0 <= x2,
        0 <= y2,
        !is_outside(x1, y1, width, height, rotation),
        !is_outside(x2, y2, width, height, rotation),
        position(x1, y1, width, height, rotation) == position(x2, y2, width, height, rotation),
    ensures
        x1 == x2,
        y1 == y2,
{
    match rotation {
        DisplayRotation::Rotate0 | DisplayRotation::Rotate180 => {
            lemma_cell_unique(x1, y1, x2, y2, width);
        },
        DisplayRotation::Rotate90 => {
            lemma_cell_unique(width - 1 - y1, x1, width - 1 - y2, x2, width);
        },
        DisplayRotation::Rotate270 => {
            lemma_cell_unique(y1, height - 1 - x1, y2, height - 1 - x2, width);
        },
    }
}

/// The buffer index of an in-bounds position.
pub fn find_position(x: u32, y: u32, width: u32, height: u32, rotation: DisplayRotation) -> (r:
    usize)
    requires
        !is_outside(x as int, y as int, width as int, height as int, rotation),
        width as int * height as int <= u32::MAX,
    ensures
        r as int == position(x as int, y as int, width as int, height as int, rotation),
        r < width as int * height as int,
{
    match rotation {
        DisplayRotation::Rotate0 => {
            proof {
                lemma_cell_in_grid(x as int, y as int, width as int, height as int);
            }
            (x + width * y) as usize
        },
        DisplayRotation::Rotate90 => {
            proof {
                lemma_cell_in_grid((width - 1 - y) as int, x as int, width as int, height as int);
            }
            ((width - 1 - y) + width * x) as usize
        },
        DisplayRotation::Rotate180 => {
            proof {
                lemma_cell_in_grid(x as int, y as int, width as int, height as int);
            }
            ((width * height - 1) - (x + width * y)) as usize
        },
        DisplayRotation::Rotate270 => {
            proof {
                lemma_cell_in_grid(y as int, (height - 1 - x) as int, width as int, height as int);
            }
            (y + width * (height - 1 - x)) as usize
        },
    }
}


/// A display buffer of any size, with its rotation.
pub struct VarDisplay {
    width: u32,
    height: u32,
    rotation: DisplayRotation,
    buffer: Vec<EpdColor>,
}

impl View for VarDisplay {
    type V = Seq<EpdColor>;

    closed spec fn view(&self) -> Seq<EpdColor> {
        self.buffer@
    }
}

impl VarDisplay {
    pub closed spec fn spec_width(&self) -> u32 {
        self.width
    }

    pub closed spec fn spec_height(&self) -> u32 {
        self.height
    }

    pub closed spec fn spec_rotation(&self) -> DisplayRotation {
        self.rotation
    }

    /// The buffer holds one color for each pixel of the panel.
    pub open spec fn wf(&self) -> bool {
        &&& self.spec_width() as int * self.spec_height() as int <= u32::MAX
        &&& self@.len() == self.spec_width() as int * self.spec_height() as int
    }

    /// A display over `buffer`, which holds one color for each of the
    /// `width * height` pixels.
    pub fn new(width: u32, height: u32, buffer: Vec<EpdColor>) -> (r: VarDisplay)
        requires
            width as int * height as int <= u32::MAX,
            buffer@.len() == width as int * height as int,
        ensures
            r.wf(),
            r@ == buffer@,
            r.spec_width() == width,
            r.spec_height() == height,
            r.spec_rotation() == DisplayRotation::Rotate0,
    {
        VarDisplay { width, height, rotation: DisplayRotation::default(), buffer }
    }

    /// Fills the whole buffer with `background_color`.
    pub fn clear_buffer(&mut self, background_color: EpdColor)
        requires
            old(self).wf(),
        ensures
            final(self).wf(),
            final(self)@ == Seq::new(old(self)@.len(), |i: int| background_color),
            final(self).spec_width() == old(self).spec_width(),
            final(self).spec_height() == old(self).spec_height(),
            final(self).spec_rotation() == old(self).spec_rotation(),
    {
        let mut i: usize = 0;
        while i < self.buffer.len()
            invariant
                self.width == old(self).width,
                self.height == old(self).height,
                self.rotation == old(self).rotation,
                self.buffer@.len() == old(self).buffer@.len(),
                i <= self.buffer@.len(),
                forall|j: int| 0 <= j < i ==> self.buffer@[j] == background_color,
            decreases self.buffer@.len() - i,
        {
            self.buffer.set(i, background_color);
            i = i + 1;
        }
        assert(self.buffer@ =~= Seq::new(old(self)@.len(), |i: int| background_color));
    }

    /// The colors of all pixels, row by row.
    pub fn buffer(&self) -> (r: &[EpdColor])
        ensures
            r@ == self@,
    {
        self.buffer.as_slice()
    }

    pub fn set_rotation(&mut self, rotation: DisplayRotation)
        ensures
            final(self).spec_rotation() == rotation,
            final(self)@ == old(self)@,
            final(self).spec_width() == old(self).spec_width(),
            final(self).spec_height() == old(self).spec_height(),
            old(self).wf() ==> final(self).wf(),
    {
        self.rotation = rotation;
    }

    pub fn rotation(&self) -> (r: DisplayRotation)
        ensures
            r == self.spec_rotation(),
    {
        self.rotation
    }

    /// Paints the pixel at the drawing coordinates `(x, y)`; a position off the
    /// panel leaves the buffer as it is.
    pub fn draw_pixel(&mut self, x: u32, y: u32, color: EpdColor)
        requires
            old(self).wf(),
        ensures
            final(self).wf(),
            final(self).spec_width() == old(self).spec_width(),
            final(self).spec_height() == old(self).spec_height(),
            final(self).spec_rotation() == old(self).spec_rotation(),
            is_outside(
                x as int,
                y as int,
                old(self).spec_width() as int,
                old(self).spec_height() as int,
                old(self).spec_rotation(),
            ) ==> final(self)@ == old(self)@,
            !is_outside(
                x as int,
                y as int,
                old(self).spec_width() as int,
                old(self).spec_height() as int,
                old(self).spec_rotation(),
            ) ==> final(self)@ == old(self)@.update(
                position(
                    x as int,
                    y as int,
                    old(self).spec_width() as int,
                    old(self).spec_height() as int,
                    old(self).spec_rotation(),
                ),
                color,
            ),
    {
        if outside_display(x, y, self.width, self.height, self.rotation) {
            return;
        }
        let index = find_position(x, y, self.width, self.height, self.rotation);
        self.buffer.set(index, color);
    }
}

} // verus!
