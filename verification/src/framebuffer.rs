//! The picture that the pixel processor fills and the host shows.

use vstd::prelude::*;

verus! {

#[derive(Clone, Copy, Debug, PartialEq, Eq, Structural)]
pub struct RgbColor {
    pub r: u8,
    pub g: u8,
    pub b: u8,
}

impl RgbColor {
    pub fn new(r: u8, g: u8, b: u8) -> (c: Self)
        ensures
            c == (RgbColor { r, g, b }),
    {
        Self { r, g, b }
    }

    pub fn new_gray(shade: u8) -> (c: Self)
        ensures
            c == (RgbColor { r: shade, g: shade, b: shade }),
    {
        RgbColor::new(shade, shade, shade)
    }

    pub fn white() -> (c: Self)
        ensures
            c == (RgbColor { r: 0xFF, g: 0xFF, b: 0xFF }),
    {
        RgbColor::new(0xFF, 0xFF, 0xFF)
    }
}

/// What a frame buffer holds: its pixels row after row.
pub struct FrameModel {
    pub width: nat,
    pub height: nat,
    pub pixels: Seq<RgbColor>,
}

impl FrameModel {
    pub open spec fn inv(self) -> bool {
        self.pixels.len() == self.width * self.height
    }

    pub open spec fn pixel(self, x: int, y: int) -> RgbColor {
        self.pixels[y * self.width + x]
    }

    pub open spec fn with_pixel(self, x: int, y: int, color: RgbColor) -> FrameModel {
        FrameModel { pixels: self.pixels.update(y * self.width + x, color), ..self }
    }
}

pub struct FrameBuffer {
    data: Vec<RgbColor>,
    pub width: usize,
    pub height: usize,
}

impl View for FrameBuffer {
    type V = FrameModel;

    closed spec fn view(&self) -> FrameModel {
        FrameModel { width: self.width as nat, height: self.height as nat, pixels: self.data@ }
    }
}

proof fn lemma_index_in_range(x: int, y: int, width: int, height: int)
    by (nonlinear_arith)
    requires
        0 <= x < width,
        0 <= y < height,
    ensures
        0 <= y * width + x < width * height,
        y * width <= (height - 1) * width,
{
}

impl FrameBuffer {
    pub open spec fn wf(&self) -> bool {
        self@.inv()
    }

    /// A buffer of `width` by `height` white pixels.
    pub fn new(width: usize, height: usize) -> (r: Self)
        requires
            width * height <= usize::MAX,
        ensures
            r.wf(),
            r@.width == width,
            r@.height == height,
            r@.pixels == Seq::new((width * height) as nat, |i: int| RgbColor { r: 0xFF, g: 0xFF, b: 0xFF }),
    {
        let pixel_count = width * height;
        let data = vec![RgbColor::white(); pixel_count];
        assert(data@ =~= Seq::new(
            (width * height) as nat,
            |i: int| RgbColor { r: 0xFF, g: 0xFF, b: 0xFF },
        ));
        Self { data, width, height }
    }

    pub fn get_pixel(&self, x: usize, y: usize) -> (c: RgbColor)
        requires
            self.wf(),
            x < self@.width,
            y < self@.height,
        ensures
            c == self@.pixel(x as int, y as int),
    {
        proof {
            lemma_index_in_range(x as int, y as int, self.width as int, self.height as int);
            assert(self.data@.len() == self.width * self.height);
            assert(self.data.len() <= usize::MAX);
        }
        let index = y * self.width + x;
        self.data[index]
    }

    pub fn set_pixel(&mut self, x: u8, y: u8, color: RgbColor)
        requires
            old(self).wf(),
            x < old(self)@.width,
            y < old(self)@.height,
        ensures
            final(self).wf(),
            final(self)@ == old(self)@.with_pixel(x as int, y as int, color),
    {
        proof {
            lemma_index_in_range(x as int, y as int, self.width as int, self.height as int);
            assert(self.data@.len() == self.width * self.height);
            assert(self.data.len() <= usize::MAX);
        }
        let index = y as usize * self.width + x as usize;
        self.data.set(index, color);
    }
}

} // verus!
