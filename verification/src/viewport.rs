//! Viewport dimensions and the row-major addressing of its pixels.

use vstd::prelude::*;

verus! {

/// Why a pair of dimensions cannot serve as a viewport.
#[derive(Clone, Copy, Debug, PartialEq, Eq, Structural)]
pub enum ViewportError {
    /// The width is zero.
    ZeroWidth,
    /// The width is positive and the height is zero.
    ZeroHeight,
    /// Both are positive, and their product does not fit in 32 bits.
    TooLarge,
}

/// What is wrong with a pair of dimensions: `None` where they make a
/// viewport, else the first reason why they do not.
pub open spec fn dimensions_fault(width: u32, height: u32) -> Option<ViewportError> {
    if width == 0 {
        Some(ViewportError::ZeroWidth)
    } else if height == 0 {
        Some(ViewportError::ZeroHeight)
    } else if width * height > u32::MAX {
        Some(ViewportError::TooLarge)
    } else {
        None
    }
}

/// A pixel grid of positive width and height whose pixel count fits in 32 bits.
#[derive(Clone, Copy, Debug)]
pub struct Viewport {
    width: u32,
    height: u32,
}

impl Viewport {
    #[verifier::type_invariant]
    closed spec fn inv(self) -> bool {
        dimensions_fault(self.width, self.height) is None
    }

    /// Number of pixel columns.
    pub closed spec fn spec_width(self) -> u32 {
        self.width
    }

    /// Number of pixel rows.
    pub closed spec fn spec_height(self) -> u32 {
        self.height
    }

    /// Number of pixels.
    pub open spec fn spec_ray_count(self) -> nat {
        (self.spec_width() * self.spec_height()) as nat
    }

    /// What holds of every viewport that `new` hands out: both dimensions
    /// are positive and the pixel count fits in 32 bits.
    pub open spec fn wf(self) -> bool {
        dimensions_fault(self.spec_width(), self.spec_height()) is None
    }

    /// Accepts the dimensions exactly when neither is zero and the pixel
    /// count fits in 32 bits; otherwise names the first fault.
    pub fn new(width: u32, height: u32) -> (r: Result<Viewport, ViewportError>)
        ensures
            match r {
                Ok(v) => v.wf() && v.spec_width() == width && v.spec_height() == height,
                Err(e) => dimensions_fault(width, height) == Some(e),
            },
    {
        if width == 0 {
            return Err(ViewportError::ZeroWidth);
        }
        if height == 0 {
            return Err(ViewportError::ZeroHeight);
        }
        assert(width * height <= 0xffff_ffff * 0xffff_ffff) by (nonlinear_arith)
            requires
                width <= 0xffff_ffff,
                height <= 0xffff_ffff,
        ;
        let count: u64 = (width as u64) * (height as u64);
        if count > u32::MAX as u64 {
            return Err(ViewportError::TooLarge);
        }
        Ok(Viewport { width, height })
    }

    /// Number of pixel columns.
    pub fn width(&self) -> (width: u32)
        ensures
            width == self.spec_width(),
            width > 0,
            self.wf(),
    {
        proof {
            use_type_invariant(self);
        }
        self.width
    }

    /// Number of pixel rows.
    pub fn height(&self) -> (height: u32)
        ensures
            height == self.spec_height(),
            height > 0,
            self.wf(),
    {
        proof {
            use_type_invariant(self);
        }
        self.height
    }

    /// Number of pixels, which is the number of primary rays: one for each pixel.
    pub fn ray_count(&self) -> (count: usize)
        ensures
            count == self.spec_ray_count(),
            count > 0,
            self.wf(),
    {
        proof {
            use_type_invariant(self);
            assert(self.width * self.height >= 1) by (nonlinear_arith)
                requires
                    self.width >= 1,
                    self.height >= 1,
            ;
        }
        (self.width as usize) * (self.height as usize)
    }

    /// The index of the pixel in column `x` and row `y`, in row-major order.
    pub open spec fn spec_index_of(self, x: int, y: int) -> int {
        y * self.spec_width() + x
    }

    /// The column and the row of the pixel with index `i`.
    pub open spec fn spec_pixel_at(self, i: int) -> (int, int) {
        (i % (self.spec_width() as int), i / (self.spec_width() as int))
    }

    /// Whether column `x` and row `y` name a pixel of the viewport.
    pub open spec fn holds_pixel(self, x: int, y: int) -> bool {
        0 <= x < self.spec_width() && 0 <= y < self.spec_height()
    }

    /// Whether `i` is the index of a pixel of the viewport.
    pub open spec fn holds_index(self, i: int) -> bool {
        0 <= i < self.spec_ray_count()
    }

    /// The place of pixel `(x, y)` in the ray and pixel buffers: `y * width + x`.
    /// `None` exactly where the viewport has no such pixel.
    pub fn index_of(&self, x: u32, y: u32) -> (index: Option<usize>)
        ensures
            self.wf(),
            match index {
                Some(i) => self.holds_pixel(x as int, y as int) && i == self.spec_index_of(
                    x as int,
                    y as int,
                ) && self.holds_index(i as int),
                None => !self.holds_pixel(x as int, y as int),
            },
    {
        proof {
            use_type_invariant(self);
        }
        if x >= self.width || y >= self.height {
            return None;
        }
        proof {
            lemma_index_in_range(*self, x as int, y as int);
        }
        Some((y as usize) * (self.width as usize) + (x as usize))
    }

    /// The pixel whose ray and colour stand at index `i`: column `i % width`,
    /// row `i / width`. `None` exactly where `i` is no pixel's index.
    pub fn pixel_at(&self, i: usize) -> (pixel: Option<(u32, u32)>)
        ensures
            self.wf(),
            match pixel {
                Some((x, y)) => self.holds_index(i as int) && (x as int, y as int)
                    == self.spec_pixel_at(i as int) && self.holds_pixel(x as int, y as int),
                None => !self.holds_index(i as int),
            },
    {
        proof {
            use_type_invariant(self);
        }
        if i >= self.ray_count() {
            return None;
        }
        proof {
            lemma_pixel_in_range(*self, i as int);
        }
        let width = self.width as usize;
        Some(((i % width) as u32, (i / width) as u32))
    }
}

/// The index of a pixel of the viewport is the index of one of its rays.
pub proof fn lemma_index_in_range(v: Viewport, x: int, y: int)
    requires
        v.wf(),
        v.holds_pixel(x, y),
    ensures
        v.holds_index(v.spec_index_of(x, y)),
        0 <= y * v.spec_width() <= v.spec_index_of(x, y),
{
    let w = v.spec_width() as int;
    let h = v.spec_height() as int;
    assert(0 <= y * w && y * w + w <= h * w) by (nonlinear_arith)
        requires
            0 <= y < h,
            w > 0,
    ;
    assert(h * w == w * h) by (nonlinear_arith);
}

/// The column and row of a ray's index name a pixel of the viewport.
pub proof fn lemma_pixel_in_range(v: Viewport, i: int)
    requires
        v.wf(),
        v.holds_index(i),
    ensures
        v.holds_pixel(v.spec_pixel_at(i).0, v.spec_pixel_at(i).1),
{
    let w = v.spec_width() as int;
    let h = v.spec_height() as int;
    vstd::arithmetic::div_mod::lemma_fundamental_div_mod(i, w);
    vstd::arithmetic::div_mod::lemma_mod_bound(i, w);
    vstd::arithmetic::div_mod::lemma_div_pos_is_pos(i, w);
    assert(i / w < h) by (nonlinear_arith)
        requires
            0 <= i < w * h,
            w > 0,
            i == w * (i / w) + i % w,
            0 <= i % w < w,
    ;
}

/// Row-major addressing gives every pixel a place of its own: the pixel at
/// the index of pixel `(x, y)` is `(x, y)`.
pub proof fn lemma_pixel_at_index_of(v: Viewport, x: int, y: int)
    requires
        v.wf(),
        v.holds_pixel(x, y),
    ensures
        v.spec_pixel_at(v.spec_index_of(x, y)) == (x, y),
{
    let w = v.spec_width() as int;
    vstd::arithmetic::div_mod::lemma_fundamental_div_mod_converse(y * w + x, w, y, x);
}

/// Every index below the ray count is the place of a pixel: the index of the
/// pixel at index `i` is `i`.
pub proof fn lemma_index_of_pixel_at(v: Viewport, i: int)
    requires
        v.wf(),
        v.holds_index(i),
    ensures
        v.spec_index_of(v.spec_pixel_at(i).0, v.spec_pixel_at(i).1) == i,
{
    let w = v.spec_width() as int;
    vstd::arithmetic::div_mod::lemma_fundamental_div_mod(i, w);
    assert((i / w) * w == w * (i / w)) by (nonlinear_arith);
}

/// Two pixels of the viewport that share an index are the same pixel.
pub proof fn lemma_index_of_is_injective(v: Viewport, x1: int, y1: int, x2: int, y2: int)
    requires
        v.wf(),
        v.holds_pixel(x1, y1),
        v.holds_pixel(x2, y2),
        v.spec_index_of(x1, y1) == v.spec_index_of(x2, y2),
    ensures
        x1 == x2,
        y1 == y2,
{
    lemma_pixel_at_index_of(v, x1, y1);
    lemma_pixel_at_index_of(v, x2, y2);
}

} // verus!
