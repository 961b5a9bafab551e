//! One-bit-per-pixel images stored row by row, most significant bit first.
use vstd::prelude::*;
use crate::display::geometry::{Point, Size, spec_point, spec_size};

verus! {

/// A monochrome image over borrowed bytes: each row starts on a byte
/// boundary, and within a byte the leftmost pixel is the high bit.
pub struct Bitmap<'a> {
    data: &'a [u8],
    width: u32,
    height: u32,
}

/// Bytes per row of an image `width` pixels wide.
pub open spec fn row_stride(width: u32) -> int {
    (width + 7) / 8
}

/// Whether pixel (`x`, `y`) of an image `width` pixels wide is on.
pub open spec fn pixel_on(data: Seq<u8>, width: u32, x: u32, y: u32) -> bool {
    let byte = data[y * row_stride(width) + x / 8];
    (byte >> ((7 - x % 8) as u32)) & 1u8 == 1u8
}

impl<'a> Bitmap<'a> {
    pub closed spec fn spec_data(&self) -> Seq<u8> {
        self.data@
    }

    pub closed spec fn spec_width(&self) -> u32 {
        self.width
    }

    pub closed spec fn spec_height(&self) -> u32 {
        self.height
    }

    /// Whether the bytes cover every row and the row arithmetic stays in `u32`.
    pub open spec fn well_sized(&self) -> bool {
        &&& self.spec_width() + 7 <= u32::MAX
        &&& self.spec_height() * row_stride(self.spec_width()) <= self.spec_data().len()
        &&& self.spec_height() * row_stride(self.spec_width()) <= u32::MAX
    }

    /// Whether the bytes cover every row (see `well_sized`): callers test
    /// this before reading pixels.
    pub fn is_well_sized(&self) -> (r: bool)
        ensures
            r == self.well_sized(),
    {
        if self.width > u32::MAX - 7 {
            return false;
        }
        let stride = ((self.width + 7) / 8) as u64;
        let height = self.height as u64;
        proof {
            assert(height * stride <= 0xFFFF_FFFFu64 * 0xFFFF_FFFFu64) by (nonlinear_arith)
                requires
                    stride <= 0xFFFF_FFFFu64,
                    height <= 0xFFFF_FFFFu64,
            ;
        }
        let total = (height as u128) * (stride as u128);
        total <= self.data.len() as u128 && total <= u32::MAX as u128
    }

    pub fn new(data: &'a [u8], width: u32, height: u32) -> (r: Self)
        ensures
            r.spec_data() == data@,
            r.spec_width() == width,
            r.spec_height() == height,
    {
        Self { data, width, height }
    }

    pub fn size(&self) -> (r: Size)
        ensures
            r == spec_size(self.spec_width(), self.spec_height()),
    {
        Size::new(self.width, self.height)
    }

    pub fn bytes_per_row(&self) -> (r: u32)
        requires
            self.spec_width() + 7 <= u32::MAX,
        ensures
            r == row_stride(self.spec_width()),
    {
        (self.width + 7) / 8
    }

    /// true = "on" bit, false = "off" bit.
    pub fn get(&self, x: u32, y: u32) -> (r: bool)
        requires
            self.well_sized(),
            x < self.spec_width(),
            y < self.spec_height(),
        ensures
            r == pixel_on(self.spec_data(), self.spec_width(), x, y),
    {
        let stride = self.bytes_per_row();
        proof {
            let s = row_stride(self.width);
            assert(x / 8 < s);
            assert(y * s + x / 8 < self.height * s) by (nonlinear_arith)
                requires
                    y < self.height,
                    x / 8 < s,
            ;
        }
        let byte_index = (y * stride + x / 8) as usize;
        let bit_index = 7 - (x % 8);
        (self.data[byte_index] >> bit_index) & 1 == 1
    }

    /// Every pixel with its on/off value, row by row from the top, left to
    /// right within a row.
    pub fn pixels(&self) -> (r: Vec<(Point, bool)>)
        requires
            self.well_sized(),
            self.spec_width() <= i32::MAX,
            self.spec_height() <= i32::MAX,
        ensures
            r@.len() == self.spec_width() * self.spec_height(),
            forall|x: u32, y: u32|
                x < self.spec_width() && y < self.spec_height() ==> #[trigger] r@[y * self.spec_width() + x] == (
                spec_point(x as i32, y as i32),
                pixel_on(self.spec_data(), self.spec_width(), x, y),
            ),
    {
        let (w, h) = (self.width, self.height);
        let mut out: Vec<(Point, bool)> = Vec::new();
        let mut y: u32 = 0;
        while y < h
            invariant
                self.well_sized(),
                w == self.spec_width(),
                h == self.spec_height(),
                w <= i32::MAX,
                h <= i32::MAX,
                y <= h,
                out@.len() == y * w,
                forall|xx: u32, yy: u32|
                    xx < w && yy < y ==> #[trigger] out@[yy * w + xx] == (
                    spec_point(xx as i32, yy as i32),
                    pixel_on(self.spec_data(), w, xx, yy),
                ),
            decreases h - y,
        {
            let mut x: u32 = 0;
            while x < w
                invariant
                    self.well_sized(),
                    w == self.spec_width(),
                    h == self.spec_height(),
                    w <= i32::MAX,
                    h <= i32::MAX,
                    y < h,
                    x <= w,
                    out@.len() == y * w + x,
                    forall|xx: u32, yy: u32|
                        (xx < w && yy < y) || (yy == y && xx < x) ==> #[trigger] out@[yy * w + xx] == (
                        spec_point(xx as i32, yy as i32),
                        pixel_on(self.spec_data(), w, xx, yy),
                    ),
                decreases w - x,
            {
                let point = Point::new(x as i32, y as i32);
                let is_on = self.get(x, y);
                let ghost before = out@;
                out.push((point, is_on));
                proof {
                    assert forall|xx: u32, yy: u32| (xx < w && yy < y) || (yy == y && xx <= x) implies #[trigger] out@[yy * w + xx] == (
                        spec_point(xx as i32, yy as i32),
                        pixel_on(self.spec_data(), w, xx, yy),
                    ) by {
                        if yy == y && xx == x {
                        } else {
                            if yy < y {
                                assert(yy * w + xx < y * w) by (nonlinear_arith)
                                    requires
                                        yy < y,
                                        xx < w,
                                ;
                            }
                            assert(out@[yy * w + xx] == before[yy * w + xx]);
                        }
                    }
                }
                x = x + 1;
            }
            proof {
                assert((y + 1) * w == y * w + w) by (nonlinear_arith);
            }
            y = y + 1;
        }
        assert(h * w == w * h) by (nonlinear_arith);
        out
    }
}

} // verus!
