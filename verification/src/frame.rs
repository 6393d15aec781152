//! Pixel buffers and the pixel-level operations of the compositor: solid
//! fills, rectangle fills, cropping, per-channel mean colour, and the
//! double-width diagnostic composition.
//!
//! A `Frame` is an RGB image: `3 * width * height` bytes in row-major order,
//! three channels per pixel.

use vstd::prelude::*;

verus! {

/// An RGB colour.
#[derive(Clone, Copy, PartialEq, Eq, Structural, Debug)]
pub struct Color {
    pub red: u8,
    pub green: u8,
    pub blue: u8,
}

impl Color {
    /// Channel `c` of the colour: red, green, blue for `c = 0, 1, 2`.
    pub open spec fn spec_channel(self, c: int) -> u8 {
        if c == 0 {
            self.red
        } else if c == 1 {
            self.green
        } else {
            self.blue
        }
    }

    /// Reads channel `c`.
    pub fn channel(&self, c: u32) -> (v: u8)
        requires
            c < 3,
        ensures
            v == self.spec_channel(c as int),
    {
        if c == 0 {
            self.red
        } else if c == 1 {
            self.green
        } else {
            self.blue
        }
    }
}

/// Largest supported pixel count per frame. Keeps byte lengths inside
/// `usize` on any target and channel sums inside `u64`.
pub const MAX_PIXELS: u64 = 0x0800_0000;

/// An RGB pixel buffer with its dimensions.
#[derive(Debug)]
pub struct Frame {
    pub width: u32,
    pub height: u32,
    pub data: Vec<u8>,
}

impl Frame {
    /// Number of pixels.
    pub open spec fn pixel_count(self) -> int {
        self.width * self.height
    }

    /// Well-formedness: the buffer holds exactly three bytes per pixel and
    /// the frame is no larger than the supported maximum.
    pub open spec fn wf(self) -> bool {
        &&& self.data@.len() == 3 * self.pixel_count()
        &&& self.pixel_count() <= MAX_PIXELS
    }

    /// Channel `c` of the pixel at flat index `p` in row-major order.
    pub open spec fn chan_at(self, p: int, c: int) -> u8 {
        self.data@[3 * p + c]
    }

    /// Channel `c` of the pixel at column `x`, row `y`.
    pub open spec fn chan(self, x: int, y: int, c: int) -> u8 {
        self.chan_at(y * self.width + x, c)
    }
}

/// Row-major indexing stays inside the buffer.
proof fn lemma_index_bound(w: int, h: int, x: int, y: int, c: int)
    requires
        0 <= x < w,
        0 <= y < h,
        0 <= c < 3,
    ensures
        0 <= y * w + x < w * h,
        0 <= 3 * (y * w + x) + c < 3 * (w * h),
{
    assert(y * w + x < w * h && 0 <= y * w + x) by (nonlinear_arith)
        requires
            0 <= x < w,
            0 <= y < h,
    ;
}

/// Row-major indexing is injective over coordinates and channels.
proof fn lemma_index_injective(w: int, x1: int, y1: int, c1: int, x2: int, y2: int, c2: int)
    requires
        0 <= x1 < w,
        0 <= x2 < w,
        0 <= y1,
        0 <= y2,
        0 <= c1 < 3,
        0 <= c2 < 3,
        3 * (y1 * w + x1) + c1 == 3 * (y2 * w + x2) + c2,
    ensures
        x1 == x2,
        y1 == y2,
        c1 == c2,
{
    assert(x1 == x2 && y1 == y2 && c1 == c2) by (nonlinear_arith)
        requires
            0 <= x1 < w,
            0 <= x2 < w,
            0 <= y1,
            0 <= y2,
            0 <= c1 < 3,
            0 <= c2 < 3,
            3 * (y1 * w + x1) + c1 == 3 * (y2 * w + x2) + c2,
    ;
}

impl Frame {
    /// Reads channel `c` of the pixel at `(x, y)`.
    pub fn get_chan(&self, x: u32, y: u32, c: u32) -> (v: u8)
        requires
            self.wf(),
            x < self.width,
            y < self.height,
            c < 3,
        ensures
            v == self.chan(x as int, y as int, c as int),
    {
        proof {
            lemma_index_bound(
                self.width as int,
                self.height as int,
                x as int,
                y as int,
                c as int,
            );
        }
        let idx: usize = 3 * ((y as usize) * (self.width as usize) + (x as usize)) + (c as usize);
        self.data[idx]
    }

    /// Writes channel `c` of the pixel at `(x, y)`, leaving every other byte
    /// of the buffer as it was.
    pub fn set_chan(&mut self, x: u32, y: u32, c: u32, v: u8)
        requires
            old(self).wf(),
            x < old(self).width,
            y < old(self).height,
            c < 3,
        ensures
            final(self).wf(),
            final(self).width == old(self).width,
            final(self).height == old(self).height,
            final(self).chan(x as int, y as int, c as int) == v,
            forall|x2: int, y2: int, c2: int|
                0 <= x2 < old(self).width && 0 <= y2 < old(self).height && 0 <= c2 < 3 && !(x2
                    == x as int && y2 == y as int && c2 == c as int)
                    ==> #[trigger] final(self).chan(x2, y2, c2) == old(self).chan(x2, y2, c2),
    {
        proof {
            lemma_index_bound(
                self.width as int,
                self.height as int,
                x as int,
                y as int,
                c as int,
            );
        }
        let idx: usize = 3 * ((y as usize) * (self.width as usize) + (x as usize)) + (c as usize);
        self.data[idx] = v;
        proof {
            assert forall|x2: int, y2: int, c2: int|
                0 <= x2 < old(self).width && 0 <= y2 < old(self).height && 0 <= c2 < 3 && !(x2
                    == x as int && y2 == y as int && c2 == c as int) implies #[trigger] self.chan(
                x2,
                y2,
                c2,
            ) == old(self).chan(x2, y2, c2) by {
                lemma_index_bound(
                    self.width as int,
                    self.height as int,
                    x2,
                    y2,
                    c2,
                );
                if 3 * (y2 * self.width + x2) + c2 == idx {
                    lemma_index_injective(
                        self.width as int,
                        x2,
                        y2,
                        c2,
                        x as int,
                        y as int,
                        c as int,
                    );
                }
            }
        }
    }

    /// Writes the pixel at `(x, y)`, leaving every other pixel as it was.
    pub fn set_pixel(&mut self, x: u32, y: u32, color: Color)
        requires
            old(self).wf(),
            x < old(self).width,
            y < old(self).height,
        ensures
            final(self).wf(),
            final(self).width == old(self).width,
            final(self).height == old(self).height,
            forall|c: int|
                0 <= c < 3 ==> #[trigger] final(self).chan(x as int, y as int, c)
                    == color.spec_channel(c),
            forall|x2: int, y2: int, c2: int|
                0 <= x2 < old(self).width && 0 <= y2 < old(self).height && 0 <= c2 < 3 && !(x2
                    == x as int && y2 == y as int)
                    ==> #[trigger] final(self).chan(x2, y2, c2) == old(self).chan(x2, y2, c2),
    {
        self.set_chan(x, y, 0, color.red);
        self.set_chan(x, y, 1, color.green);
        self.set_chan(x, y, 2, color.blue);
    }

    /// A frame of the given dimensions with every pixel set to `color`.
    pub fn filled(width: u32, height: u32, color: Color) -> (r: Frame)
        requires
            width * height <= MAX_PIXELS,
        ensures
            r.wf(),
            r.width == width,
            r.height == height,
            forall|x: int, y: int, c: int|
                0 <= x < width && 0 <= y < height && 0 <= c < 3 ==> #[trigger] r.chan(x, y, c)
                    == color.spec_channel(c),
    {
        let total: usize = (width as usize) * (height as usize);
        let mut data: Vec<u8> = Vec::new();
        let mut p: usize = 0;
        while p < total
            invariant
                total == width * height,
                width * height <= MAX_PIXELS,
                p <= total,
                data@.len() == 3 * p,
                forall|q: int, c: int|
                    0 <= q < p && 0 <= c < 3 ==> #[trigger] data@[3 * q + c]
                        == color.spec_channel(c),
            decreases total - p,
        {
            data.push(color.red);
            data.push(color.green);
            data.push(color.blue);
            p = p + 1;
        }
        let r = Frame { width, height, data };
        proof {
            assert forall|x: int, y: int, c: int|
                0 <= x < width && 0 <= y < height && 0 <= c < 3 implies #[trigger] r.chan(
                x,
                y,
                c,
            ) == color.spec_channel(c) by {
                lemma_index_bound(width as int, height as int, x, y, c);
            }
        }
        r
    }

    /// The sub-image of the given rectangle, pixel for pixel.
    pub fn crop(&self, x0: u32, y0: u32, w: u32, h: u32) -> (r: Frame)
        requires
            self.wf(),
            x0 + w <= self.width,
            y0 + h <= self.height,
        ensures
            r.wf(),
            r.width == w,
            r.height == h,
            forall|x: int, y: int, c: int|
                0 <= x < w && 0 <= y < h && 0 <= c < 3 ==> #[trigger] r.chan(x, y, c)
                    == self.chan(x0 + x, y0 + y, c),
    {
        proof {
            assert(w * h <= self.width * self.height) by (nonlinear_arith)
                requires
                    w <= self.width,
                    h <= self.height,
            ;
        }
        let mut data: Vec<u8> = Vec::new();
        let mut y: u32 = 0;
        while y < h
            invariant
                self.wf(),
                x0 + w <= self.width,
                y0 + h <= self.height,
                y <= h,
                data@.len() == 3 * (w * y),
                forall|xx: int, yy: int, c: int|
                    0 <= xx < w && 0 <= yy < y && 0 <= c < 3 ==> #[trigger] data@[3 * (yy * w
                        + xx) + c] == self.chan(x0 + xx, y0 + yy, c),
            decreases h - y,
        {
            let mut x: u32 = 0;
            while x < w
                invariant
                    self.wf(),
                    x0 + w <= self.width,
                    y0 + h <= self.height,
                    y < h,
                    x <= w,
                    data@.len() == 3 * (w * y + x),
                    forall|xx: int, yy: int, c: int|
                        0 <= xx < w && 0 <= yy < y && 0 <= c < 3 ==> #[trigger] data@[3 * (yy * w
                            + xx) + c] == self.chan(x0 + xx, y0 + yy, c),
                    forall|xx: int, c: int|
                        0 <= xx < x && 0 <= c < 3 ==> #[trigger] data@[3 * (y * w + xx) + c]
                            == self.chan(x0 + xx, y0 + y, c),
                decreases w - x,
            {
                proof {
                    assert(w * y + x < w * h && (w * y + x) * 3 == 3 * (w * y) + 3 * x
                        && 3 * ((y * w) + x) == 3 * (w * y + x)) by (nonlinear_arith)
                        requires
                            x < w,
                            y < h,
                    ;
                }
                data.push(self.get_chan(x0 + x, y0 + y, 0));
                data.push(self.get_chan(x0 + x, y0 + y, 1));
                data.push(self.get_chan(x0 + x, y0 + y, 2));
                proof {
                    assert forall|xx: int, yy: int, c: int|
                        0 <= xx < w && 0 <= yy < y && 0 <= c < 3 implies #[trigger] data@[3 * (yy
                        * w + xx) + c] == data@[3 * (yy * w + xx) + c] && 3 * (yy * w + xx) + c < 3
                        * (w * y + x) by {
                        lemma_index_bound(w as int, y as int, xx, yy, c);
                    }
                }
                x = x + 1;
            }
            proof {
                assert(w * (y + 1) == w * y + w) by (nonlinear_arith);
            }
            y = y + 1;
        }
        let r = Frame { width: w, height: h, data };
        proof {
            assert(w * h <= MAX_PIXELS);
            assert forall|x: int, y: int, c: int|
                0 <= x < w && 0 <= y < h && 0 <= c < 3 implies #[trigger] r.chan(x, y, c)
                == self.chan(x0 + x, y0 + y, c) by {
                lemma_index_bound(w as int, h as int, x, y, c);
            }
        }
        r
    }

    /// Sum of channel `c` over the first `n` pixels of the buffer.
    pub open spec fn channel_sum(self, c: int, n: int) -> int
        decreases n,
    {
        if n <= 0 {
            0
        } else {
            self.channel_sum(c, n - 1) + self.chan_at(n - 1, c)
        }
    }

    /// Per-channel arithmetic mean over all pixels, truncated to integers.
    pub fn mean_color(&self) -> (r: Color)
        requires
            self.wf(),
            self.pixel_count() > 0,
        ensures
            r.red == self.channel_sum(0, self.pixel_count()) / self.pixel_count(),
            r.green == self.channel_sum(1, self.pixel_count()) / self.pixel_count(),
            r.blue == self.channel_sum(2, self.pixel_count()) / self.pixel_count(),
    {
        let total: usize = (self.width as usize) * (self.height as usize);
        let mut sum_red: u64 = 0;
        let mut sum_green: u64 = 0;
        let mut sum_blue: u64 = 0;
        let mut p: usize = 0;
        while p < total
            invariant
                self.wf(),
                total == self.pixel_count(),
                p <= total,
                sum_red == self.channel_sum(0, p as int),
                sum_green == self.channel_sum(1, p as int),
                sum_blue == self.channel_sum(2, p as int),
                sum_red <= 255 * p,
                sum_green <= 255 * p,
                sum_blue <= 255 * p,
            decreases total - p,
        {
            sum_red = sum_red + (self.data[3 * p] as u64);
            sum_green = sum_green + (self.data[3 * p + 1] as u64);
            sum_blue = sum_blue + (self.data[3 * p + 2] as u64);
            p = p + 1;
        }
        let count: u64 = total as u64;
        let red = sum_red / count;
        let green = sum_green / count;
        let blue = sum_blue / count;
        proof {
            lemma_mean_bound(sum_red as int, count as int);
            lemma_mean_bound(sum_green as int, count as int);
            lemma_mean_bound(sum_blue as int, count as int);
        }
        Color { red: red as u8, green: green as u8, blue: blue as u8 }
    }

    /// The diagnostic composition: a frame of double width whose left half
    /// is filled with `fill` and whose right half is a copy of `self`.
    pub fn compose_diag(&self, fill: Color) -> (r: Frame)
        requires
            self.wf(),
            2 * self.pixel_count() <= MAX_PIXELS,
            2 * self.width <= u32::MAX,
        ensures
            r.wf(),
            r.width == 2 * self.width,
            r.height == self.height,
            forall|x: int, y: int, c: int|
                0 <= x < self.width && 0 <= y < self.height && 0 <= c < 3 ==> #[trigger] r.chan(
                    x,
                    y,
                    c,
                ) == fill.spec_channel(c),
            forall|x: int, y: int, c: int|
                self.width <= x < 2 * self.width && 0 <= y < self.height && 0 <= c < 3
                    ==> #[trigger] r.chan(x, y, c) == self.chan(x - self.width, y, c),
    {
        let w2: u32 = 2 * self.width;
        let h: u32 = self.height;
        let mut data: Vec<u8> = Vec::new();
        let mut y: u32 = 0;
        proof {
            assert(w2 * h == 2 * self.pixel_count()) by (nonlinear_arith)
                requires
                    w2 == 2 * self.width,
                    h == self.height,
            ;
        }
        while y < h
            invariant
                self.wf(),
                w2 == 2 * self.width,
                h == self.height,
                w2 * h <= MAX_PIXELS,
                y <= h,
                data@.len() == 3 * (w2 * y),
                forall|xx: int, yy: int, c: int|
                    0 <= xx < w2 && 0 <= yy < y && 0 <= c < 3 ==> #[trigger] data@[3 * (yy * w2
                        + xx) + c] == (if xx < self.width {
                        fill.spec_channel(c)
                    } else {
                        self.chan(xx - self.width, yy, c)
                    }),
            decreases h - y,
        {
            let mut x: u32 = 0;
            while x < w2
                invariant
                    self.wf(),
                    w2 == 2 * self.width,
                    h == self.height,
                    w2 * h <= MAX_PIXELS,
                    y < h,
                    x <= w2,
                    data@.len() == 3 * (w2 * y + x),
                    forall|xx: int, yy: int, c: int|
                        0 <= xx < w2 && 0 <= yy < y && 0 <= c < 3 ==> #[trigger] data@[3 * (yy * w2
                            + xx) + c] == (if xx < self.width {
                            fill.spec_channel(c)
                        } else {
                            self.chan(xx - self.width, yy, c)
                        }),
                    forall|xx: int, c: int|
                        0 <= xx < x && 0 <= c < 3 ==> #[trigger] data@[3 * (y * w2 + xx) + c] == (
                        if xx < self.width {
                            fill.spec_channel(c)
                        } else {
                            self.chan(xx - self.width, y as int, c)
                        }),
                decreases w2 - x,
            {
                proof {
                    assert(w2 * y + x < w2 * h && 3 * ((y * w2) + x) == 3 * (w2 * y + x))
                        by (nonlinear_arith)
                        requires
                            x < w2,
                            y < h,
                    ;
                }
                if x < self.width {
                    data.push(fill.red);
                    data.push(fill.green);
                    data.push(fill.blue);
                } else {
                    data.push(self.get_chan(x - self.width, y, 0));
                    data.push(self.get_chan(x - self.width, y, 1));
                    data.push(self.get_chan(x - self.width, y, 2));
                }
                proof {
                    assert forall|xx: int, yy: int, c: int|
                        0 <= xx < w2 && 0 <= yy < y && 0 <= c < 3 implies #[trigger] data@[3 * (yy
                        * w2 + xx) + c] == data@[3 * (yy * w2 + xx) + c] && 3 * (yy * w2 + xx) + c
                        < 3 * (w2 * y + x) by {
                        lemma_index_bound(w2 as int, y as int, xx, yy, c);
                    }
                }
                x = x + 1;
            }
            proof {
                assert(w2 * (y + 1) == w2 * y + w2) by (nonlinear_arith);
            }
            y = y + 1;
        }
        let r = Frame { width: w2, height: h, data };
        proof {
            assert forall|x: int, y: int, c: int|
                0 <= x < w2 && 0 <= y < h && 0 <= c < 3 implies #[trigger] r.chan(x, y, c) == (
            if x < self.width {
                fill.spec_channel(c)
            } else {
                self.chan(x - self.width, y, c)
            }) by {
                lemma_index_bound(w2 as int, h as int, x, y, c);
            }
        }
        r
    }

    /// Fills the part of the given rectangle that lies inside the frame
    /// with `color`, leaving every pixel outside the rectangle as it was.
    /// The rectangle is anchored at `(pos_x, pos_y)`, which may lie outside
    /// the frame.
    pub fn fill_rect(&mut self, pos_x: i32, pos_y: i32, rect_w: u32, rect_h: u32, color: Color)
        requires
            old(self).wf(),
        ensures
            final(self).wf(),
            final(self).width == old(self).width,
            final(self).height == old(self).height,
            forall|x: int, y: int, c: int|
                0 <= x < old(self).width && 0 <= y < old(self).height && 0 <= c < 3
                    ==> #[trigger] final(self).chan(x, y, c) == (if in_rect(
                    pos_x as int,
                    pos_y as int,
                    rect_w as int,
                    rect_h as int,
                    x,
                    y,
                ) {
                    color.spec_channel(c)
                } else {
                    old(self).chan(x, y, c)
                }),
    {
        let width = self.width;
        let height = self.height;
        let x_end: i64 = pos_x as i64 + rect_w as i64;
        let y_end: i64 = pos_y as i64 + rect_h as i64;
        let x_lo: u32 = if pos_x < 0 {
            0
        } else if pos_x as u32 > width {
            width
        } else {
            pos_x as u32
        };
        let y_lo: u32 = if pos_y < 0 {
            0
        } else if pos_y as u32 > height {
            height
        } else {
            pos_y as u32
        };
        let x_hi: u32 = if x_end < x_lo as i64 {
            x_lo
        } else if x_end > width as i64 {
            width
        } else {
            x_end as u32
        };
        let y_hi: u32 = if y_end < y_lo as i64 {
            y_lo
        } else if y_end > height as i64 {
            height
        } else {
            y_end as u32
        };
        let ghost covered = |x: int, y: int|
            in_rect(pos_x as int, pos_y as int, rect_w as int, rect_h as int, x, y);
        let mut y: u32 = y_lo;
        while y < y_hi
            invariant
                self.wf(),
                self.width == width,
                self.height == height,
                x_lo <= x_hi <= width,
                y_lo <= y <= y_hi <= height,
                forall|xx: int, yy: int|
                    0 <= xx < width && 0 <= yy < height ==> (#[trigger] covered(xx, yy) <==> (x_lo
                        <= xx < x_hi && y_lo <= yy < y_hi)),
                forall|xx: int, yy: int, c: int|
                    0 <= xx < width && 0 <= yy < height && 0 <= c < 3 ==> #[trigger] self.chan(
                        xx,
                        yy,
                        c,
                    ) == (if covered(xx, yy) && yy < y {
                        color.spec_channel(c)
                    } else {
                        old(self).chan(xx, yy, c)
                    }),
            decreases y_hi - y,
        {
            let mut x: u32 = x_lo;
            while x < x_hi
                invariant
                    self.wf(),
                    self.width == width,
                    self.height == height,
                    x_lo <= x <= x_hi <= width,
                    y_lo <= y < y_hi <= height,
                    forall|xx: int, yy: int|
                        0 <= xx < width && 0 <= yy < height ==> (#[trigger] covered(xx, yy) <==> (
                        x_lo <= xx < x_hi && y_lo <= yy < y_hi)),
                    forall|xx: int, yy: int, c: int|
                        0 <= xx < width && 0 <= yy < height && 0 <= c < 3 ==> #[trigger] self.chan(
                            xx,
                            yy,
                            c,
                        ) == (if covered(xx, yy) && (yy < y || (yy == y && xx < x)) {
                            color.spec_channel(c)
                        } else {
                            old(self).chan(xx, yy, c)
                        }),
                decreases x_hi - x,
            {
                self.set_pixel(x, y, color);
                x = x + 1;
            }
            y = y + 1;
        }
    }
}

/// Whether `(x, y)` lies inside the rectangle anchored at `(px, py)` with
/// size `(rw, rh)`.
pub open spec fn in_rect(px: int, py: int, rw: int, rh: int, x: int, y: int) -> bool {
    px <= x < px + rw && py <= y < py + rh
}

/// Truncated means of byte sums stay inside a byte.
proof fn lemma_mean_bound(sum: int, count: int)
    requires
        0 < count,
        0 <= sum <= 255 * count,
    ensures
        0 <= sum / count <= 255,
{
    assert(0 <= sum / count <= 255) by (nonlinear_arith)
        requires
            0 < count,
            0 <= sum <= 255 * count,
    ;
}

} // verus!
