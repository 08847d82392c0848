//! The geometry of a pixel buffer: rows of pixels, each a fixed number of
//! bytes, stored row by row.

use vstd::prelude::*;

verus! {

/// A pixel buffer with its geometry, as a mathematical value.
pub ghost struct Grid {
    /// The number of pixels in a row.
    pub width: nat,
    /// The number of rows.
    pub height: nat,
    /// The number of bytes of one pixel.
    pub bytes_per_pixel: nat,
    /// The pixels, row by row.
    pub bytes: Seq<u8>,
}

impl Grid {
    /// The length that the geometry gives the buffer.
    pub open spec fn byte_count(self) -> nat {
        self.width * self.height * self.bytes_per_pixel
    }

    /// Whether the buffer has the length that the geometry gives it.
    pub open spec fn wf(self) -> bool {
        self.bytes.len() == self.byte_count()
    }

    /// Whether `(x, y)` names a pixel: column `x` of row `y`.
    pub open spec fn in_bounds(self, x: int, y: int) -> bool {
        0 <= x < self.width && 0 <= y < self.height
    }

    /// The position in the buffer of the first byte of pixel `(x, y)`.
    pub open spec fn offset(self, x: int, y: int) -> int {
        (y * self.width + x) * self.bytes_per_pixel
    }

    /// Whether `(x, y)` names a pixel and `len` bytes can be read at it.
    pub open spec fn holds(self, x: int, y: int, len: int) -> bool {
        self.in_bounds(x, y) && self.offset(x, y) + len <= self.bytes.len()
    }

    /// Byte `k` of pixel `(x, y)`.
    pub open spec fn byte(self, x: int, y: int, k: int) -> u8 {
        self.bytes[self.offset(x, y) + k]
    }

    /// The first `len` bytes of pixel `(x, y)`.
    pub open spec fn slice(self, x: int, y: int, len: int) -> Seq<u8> {
        self.bytes.subrange(self.offset(x, y), self.offset(x, y) + len)
    }

    /// Whether `len` bytes can be read at every pixel: there is no pixel, or
    /// a pixel has at least `len` bytes.
    pub open spec fn covers(self, len: nat) -> bool {
        self.width == 0 || self.height == 0 || len <= self.bytes_per_pixel
    }

    /// The number of pixels.
    pub open spec fn pixel_count(self) -> nat {
        self.width * self.height
    }
}

/// In a well-formed grid every pixel lies inside the buffer with all its
/// bytes, and distinct pixels do not overlap.
pub proof fn lemma_pixel_lies_in_buffer(grid: Grid, x: int, y: int)
    requires
        grid.wf(),
        grid.in_bounds(x, y),
    ensures
        0 <= grid.offset(x, y),
        grid.offset(x, y) + grid.bytes_per_pixel <= grid.bytes.len(),
        grid.bytes_per_pixel > 0 ==> y * grid.width + x < grid.bytes.len(),
        grid.holds(x, y, grid.bytes_per_pixel as int),
{
    let w = grid.width as int;
    let h = grid.height as int;
    let b = grid.bytes_per_pixel as int;
    let p = y * w + x;
    assert(0 <= y * w) by (nonlinear_arith)
        requires
            0 <= y,
            0 <= w,
    ;
    assert(p + 1 <= w * h) by (nonlinear_arith)
        requires
            p == y * w + x,
            0 <= x < w,
            0 <= y < h,
    ;
    assert(0 <= p * b && (p + 1) * b <= w * h * b && (p + 1) * b == p * b + b) by (nonlinear_arith)
        requires
            0 <= p,
            p + 1 <= w * h,
            0 <= b,
    ;
    if b > 0 {
        assert(w * h <= w * h * b) by (nonlinear_arith)
            requires
                0 <= w * h,
                b >= 1,
        ;
    }
}

/// In a well-formed grid `len` bytes can be read at every pixel exactly when
/// the grid covers `len`.
pub proof fn lemma_covers_iff_every_pixel_holds(grid: Grid, len: nat)
    requires
        grid.wf(),
    ensures
        grid.covers(len) <==> (forall|x: int, y: int|
            grid.in_bounds(x, y) ==> #[trigger] grid.holds(x, y, len as int)),
{
    let w = grid.width as int;
    let h = grid.height as int;
    let b = grid.bytes_per_pixel as int;
    if grid.covers(len) {
        assert forall|x: int, y: int| grid.in_bounds(x, y) implies #[trigger] grid.holds(
            x,
            y,
            len as int,
        ) by {
            lemma_pixel_lies_in_buffer(grid, x, y);
        }
    }
    if forall|x: int, y: int| grid.in_bounds(x, y) ==> #[trigger] grid.holds(x, y, len as int) {
        if w > 0 && h > 0 {
            assert(grid.in_bounds(w - 1, h - 1));
            assert(grid.holds(w - 1, h - 1, len as int));
            assert(((h - 1) * w + (w - 1)) * b + b == w * h * b) by (nonlinear_arith);
        }
    }
}

/// Whether a buffer of `len` bytes has the length that the geometry gives
/// it. The product is never formed where it would not fit.
pub fn has_byte_count(width: usize, height: usize, bytes_per_pixel: usize, len: usize) -> (r: bool)
    ensures
        r == (len == width * height * bytes_per_pixel),
{
    if width == 0 || height == 0 || bytes_per_pixel == 0 {
        assert(width * height * bytes_per_pixel == 0) by (nonlinear_arith)
            requires
                width == 0 || height == 0 || bytes_per_pixel == 0,
        ;
        return len == 0;
    }
    match width.checked_mul(height) {
        None => {
            assert(width * height * bytes_per_pixel > len) by (nonlinear_arith)
                requires
                    width * height > usize::MAX,
                    bytes_per_pixel >= 1,
                    len <= usize::MAX,
            ;
            false
        },
        Some(pixels) => match pixels.checked_mul(bytes_per_pixel) {
            None => false,
            Some(total) => total == len,
        },
    }
}

/// The position in the buffer of the first byte of pixel `(x, y)`.
pub fn pixel_index(
    width: usize,
    height: usize,
    bytes_per_pixel: usize,
    len: usize,
    x: usize,
    y: usize,
) -> (index: usize)
    requires
        len == width * height * bytes_per_pixel,
        x < width,
        y < height,
    ensures
        index == (y * width + x) * bytes_per_pixel,
        index + bytes_per_pixel <= len,
{
    let ghost grid = Grid {
        width: width as nat,
        height: height as nat,
        bytes_per_pixel: bytes_per_pixel as nat,
        bytes: Seq::new(len as nat, |i: int| 0u8),
    };
    proof {
        lemma_pixel_lies_in_buffer(grid, x as int, y as int);
    }
    if bytes_per_pixel == 0 {
        assert((y * width + x) * bytes_per_pixel == 0) by (nonlinear_arith)
            requires
                bytes_per_pixel == 0,
        ;
        return 0;
    }
    assert(y * width <= y * width + x);
    assert(0 <= y * width) by (nonlinear_arith)
        requires
            0 <= y,
            0 <= width,
    ;
    let row: usize = y * width;
    let pixel: usize = row + x;
    pixel * bytes_per_pixel
}

/// A borrowed pixel buffer with its geometry. The buffer always has the
/// length that the geometry gives it.
#[derive(Clone, Copy, Debug)]
pub struct PixelGrid<'a> {
    width: usize,
    height: usize,
    bytes_per_pixel: usize,
    bytes: &'a [u8],
}

impl<'a> View for PixelGrid<'a> {
    type V = Grid;

    closed spec fn view(&self) -> Grid {
        Grid {
            width: self.width as nat,
            height: self.height as nat,
            bytes_per_pixel: self.bytes_per_pixel as nat,
            bytes: self.bytes@,
        }
    }
}

impl<'a> PixelGrid<'a> {
    #[verifier::type_invariant]
    spec fn length_matches(&self) -> bool {
        self@.wf()
    }

    /// Puts a geometry on `bytes`, if `bytes` has the length that the
    /// geometry gives it.
    pub fn new(width: usize, height: usize, bytes_per_pixel: usize, bytes: &'a [u8]) -> (grid:
        Option<PixelGrid<'a>>)
        ensures
            grid is Some <==> bytes@.len() == width * height * bytes_per_pixel,
            grid is Some ==> grid.unwrap()@ == (Grid {
                width: width as nat,
                height: height as nat,
                bytes_per_pixel: bytes_per_pixel as nat,
                bytes: bytes@,
            }),
    {
        if has_byte_count(width, height, bytes_per_pixel, bytes.len()) {
            Some(PixelGrid { width, height, bytes_per_pixel, bytes })
        } else {
            None
        }
    }

    /// The number of pixels in a row.
    pub fn width(&self) -> (w: usize)
        ensures
            w == self@.width,
    {
        self.width
    }

    /// The number of rows.
    pub fn height(&self) -> (h: usize)
        ensures
            h == self@.height,
    {
        self.height
    }

    /// The number of bytes of one pixel.
    pub fn bytes_per_pixel(&self) -> (n: usize)
        ensures
            n == self@.bytes_per_pixel,
    {
        self.bytes_per_pixel
    }

    /// The buffer.
    pub fn bytes(&self) -> (bytes: &'a [u8])
        ensures
            bytes@ == self@.bytes,
            bytes@.len() <= usize::MAX,
            self@.wf(),
    {
        proof {
            use_type_invariant(self);
        }
        let len: usize = self.bytes.len();
        self.bytes
    }

    /// The grid itself, known to be well-formed.
    pub fn checked(&self) -> (grid: &PixelGrid<'a>)
        ensures
            grid@ == self@,
            self@.wf(),
    {
        proof {
            use_type_invariant(self);
        }
        self
    }

    /// The number of pixels of a grid in which a pixel has at least one
    /// byte.
    pub fn pixel_count(&self) -> (count: usize)
        requires
            self@.covers(1),
        ensures
            count == self@.pixel_count(),
            count * self@.bytes_per_pixel == self@.bytes.len(),
            self@.wf(),
    {
        proof {
            use_type_invariant(self);
        }
        if self.width == 0 || self.height == 0 {
            assert(self.width * self.height == 0) by (nonlinear_arith)
                requires
                    self.width == 0 || self.height == 0,
            ;
            assert(self.width * self.height * self.bytes_per_pixel == 0) by (nonlinear_arith)
                requires
                    self.width * self.height == 0,
            ;
            return 0;
        }
        let len: usize = self.bytes.len();
        assert(self.width * self.height * self.bytes_per_pixel == len);
        assert(0 <= self.width * self.height <= self.width * self.height * self.bytes_per_pixel)
            by (nonlinear_arith)
            requires
                self.bytes_per_pixel >= 1,
                self.width >= 0,
                self.height >= 0,
        ;
        self.width * self.height
    }

    /// The position in the buffer of the first byte of pixel `(x, y)`.
    pub fn index(&self, x: usize, y: usize) -> (index: usize)
        requires
            self@.in_bounds(x as int, y as int),
        ensures
            index == self@.offset(x as int, y as int),
            index + self@.bytes_per_pixel <= self@.bytes.len(),
            self@.wf(),
    {
        proof {
            use_type_invariant(self);
        }
        pixel_index(self.width, self.height, self.bytes_per_pixel, self.bytes.len(), x, y)
    }
}

} // verus!
