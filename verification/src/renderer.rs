//! The frame buffer that finished pixel colours are written to.

use crate::viewport::Viewport;
use vstd::prelude::*;

verus! {

broadcast use vstd::array::group_array_axioms;

/// The colour that a pixel has before anything is written to it.
pub open spec fn blank() -> [u8; 3] {
    [0u8, 0u8, 0u8]
}

/// A frame as a mathematical value.
pub struct Frame {
    /// The pixels in row-major order, each as red, green and blue.
    pub pixels: Seq<[u8; 3]>,
    /// Number of pixel columns.
    pub width: u32,
    /// Number of pixel rows.
    pub height: u32,
}

/// The pixels of the frame of `count` pixels that follows a frame with the
/// pixels `before`, after `colours` were written to it from the start: a
/// pixel for which there is a colour has that colour; one beyond the colours
/// keeps what it had, and is blank where the frame before was shorter.
pub open spec fn pixels_after(before: Seq<[u8; 3]>, count: nat, colours: Seq<[u8; 3]>) -> Seq<
    [u8; 3],
> {
    Seq::new(
        count,
        |i: int|
            if i < colours.len() {
                colours[i]
            } else if i < before.len() {
                before[i]
            } else {
                blank()
            },
    )
}

/// The latest frame, lent out for display.
pub struct RenderedData<'a> {
    /// The pixels in row-major order, each as red, green and blue.
    pub image_buffer: &'a Vec<[u8; 3]>,
    /// Number of pixel columns.
    pub image_width: u32,
    /// Number of pixel rows.
    pub image_height: u32,
}

/// Owns the frame buffer and keeps it across frames.
pub struct Renderer {
    image_buffer: Vec<[u8; 3]>,
    image_width: u32,
    image_height: u32,
}

impl View for Renderer {
    type V = Frame;

    closed spec fn view(&self) -> Frame {
        Frame {
            pixels: self.image_buffer@,
            width: self.image_width,
            height: self.image_height,
        }
    }
}

impl Renderer {
    /// A renderer that has drawn nothing yet: no pixels, and the dimensions
    /// 600 by 400 until the first frame sets them.
    pub fn new() -> (renderer: Renderer)
        ensures
            renderer@.pixels.len() == 0,
            renderer@.width == 600,
            renderer@.height == 400,
    {
        Renderer { image_buffer: Vec::new(), image_width: 600, image_height: 400 }
    }

    /// Takes the frame's dimensions from `viewport`, gives the buffer one
    /// pixel for each of the viewport's, and writes `colours` to it from the
    /// first pixel on.
    pub fn render(&mut self, viewport: &Viewport, colours: &[[u8; 3]]) -> (data: RenderedData<'_>)
        ensures
            data.image_buffer@ == final(self)@.pixels,
            data.image_width == final(self)@.width,
            data.image_height == final(self)@.height,
            final(self)@.width == viewport.spec_width(),
            final(self)@.height == viewport.spec_height(),
            final(self)@.pixels == pixels_after(
                old(self)@.pixels,
                viewport.spec_ray_count(),
                colours@,
            ),
    {
        let ghost before = self@.pixels;
        let count = viewport.ray_count();
        self.image_width = viewport.width();
        self.image_height = viewport.height();
        if self.image_buffer.len() != count {
            self.image_buffer.resize(count, [0u8, 0u8, 0u8]);
        }
        let ghost resized = self.image_buffer@;
        assert(resized == pixels_after(before, count as nat, Seq::empty())) by {
            assert forall|j: int| 0 <= j < count implies resized[j] == if j < before.len() {
                before[j]
            } else {
                blank()
            } by {
                if j >= before.len() {
                    lemma_clone_of_pixel_is_equal(blank(), resized[j]);
                } else if before.len() < count {
                    assert(resized.subrange(0, before.len() as int)[j] == resized[j]);
                }
            }
        }
        let written: usize = if colours.len() < count {
            colours.len()
        } else {
            count
        };
        let mut i: usize = 0;
        while i < written
            invariant
                i <= written,
                written == if colours.len() < count {
                    colours.len()
                } else {
                    count
                },
                self.image_buffer.len() == count,
                resized == pixels_after(before, count as nat, Seq::empty()),
                self.image_width == viewport.spec_width(),
                self.image_height == viewport.spec_height(),
                forall|j: int| 0 <= j < i ==> self.image_buffer@[j] == colours@[j],
                forall|j: int| i <= j < count ==> self.image_buffer@[j] == resized[j],
            decreases written - i,
        {
            self.image_buffer[i] = colours[i];
            i += 1;
        }
        assert(self.image_buffer@ =~= pixels_after(before, count as nat, colours@)) by {
            assert forall|j: int| 0 <= j < count implies self.image_buffer@[j] == pixels_after(
                before,
                count as nat,
                colours@,
            )[j] by {
                if j >= i {
                    assert(self.image_buffer@[j] == resized[j]);
                }
            }
        }
        RenderedData {
            image_buffer: &self.image_buffer,
            image_width: self.image_width,
            image_height: self.image_height,
        }
    }

    /// The latest frame with its dimensions.
    pub fn data(&self) -> (data: RenderedData<'_>)
        ensures
            data.image_buffer@ == self@.pixels,
            data.image_width == self@.width,
            data.image_height == self@.height,
    {
        RenderedData {
            image_buffer: &self.image_buffer,
            image_width: self.image_width,
            image_height: self.image_height,
        }
    }
}

/// A pixel and its clone are the same pixel.
proof fn lemma_clone_of_pixel_is_equal(pixel: [u8; 3], copy: [u8; 3])
    requires
        cloned(pixel, copy),
    ensures
        copy == pixel,
{
    assert(forall|i: int|
        0 <= i < 3 ==> cloned::<u8>(pixel@[i], copy@[i]) ==> pixel@[i] == copy@[i]);
    assert(pixel@ =~= copy@);
}

/// A frame has one pixel for each ray, whatever was written to it.
pub proof fn lemma_frame_has_a_pixel_for_each_ray(
    before: Seq<[u8; 3]>,
    count: nat,
    colours: Seq<[u8; 3]>,
)
    ensures
        pixels_after(before, count, colours).len() == count,
{
}

/// Where there is a colour for every ray, the frame holds the colours in
/// the order of the rays and nothing of the frame before.
pub proof fn lemma_full_frame_is_the_colours(
    before: Seq<[u8; 3]>,
    count: nat,
    colours: Seq<[u8; 3]>,
)
    requires
        colours.len() >= count,
    ensures
        pixels_after(before, count, colours) == colours.take(count as int),
{
}

} // verus!
