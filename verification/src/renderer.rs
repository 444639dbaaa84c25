use vstd::prelude::*;

use crate::color::Rgb;
use crate::color::blend_channel;
use crate::color::default_bg;
use crate::color::default_bg_color;
use crate::color::rgb_to_u32;
use vstd::arithmetic::div_mod::lemma_fundamental_div_mod_converse;

verus! {

/// A CPU pixel buffer in row-major 0x00RRGGBB format; the software
/// renderer draws cells and glyphs into it.
pub struct PixelCanvas {
    pub width: usize,
    pub height: usize,
    pub pixels: Vec<u32>,
}

/// The channels of a packed 0x00RRGGBB value.
pub open spec fn u32_to_rgb(v: u32) -> Rgb {
    Rgb { r: ((v >> 16) & 0xff) as u8, g: ((v >> 8) & 0xff) as u8, b: (v & 0xff) as u8 }
}

/// `fg` blended over `bg` with opacity `alpha`, channel by channel.
pub open spec fn blend_rgb(fg: Rgb, bg: Rgb, alpha: u8) -> Rgb {
    Rgb {
        r: blend_channel(fg.r, bg.r, alpha) as u8,
        g: blend_channel(fg.g, bg.g, alpha) as u8,
        b: blend_channel(fg.b, bg.b, alpha) as u8,
    }
}

/// Whether pixel index `idx` lies inside the rectangle
/// `[x, x2) x [y, y2)` of a row-major buffer `width` pixels wide.
pub open spec fn idx_in_rect(idx: int, width: int, x: int, x2: int, y: int, y2: int) -> bool {
    let yy = idx / width;
    let xx = idx % width;
    y <= yy < y2 && x <= xx < x2
}

impl PixelCanvas {
    /// The buffer holds exactly one pixel per position.
    pub open spec fn wf(self) -> bool {
        self.pixels@.len() == self.width * self.height
    }

    /// An empty canvas.
    pub fn new() -> (c: PixelCanvas)
        ensures
            c.wf(),
            c.width == 0,
            c.height == 0,
            c.pixels@.len() == 0,
    {
        PixelCanvas { width: 0, height: 0, pixels: Vec::new() }
    }

    /// Reallocates the buffer for new dimensions, filled with the
    /// default background; equal dimensions change nothing.
    pub fn resize(&mut self, width: usize, height: usize)
        requires
            old(self).wf(),
            width * height <= usize::MAX,
        ensures
            final(self).wf(),
            width == old(self).width && height == old(self).height ==> *final(self) == *old(self),
            !(width == old(self).width && height == old(self).height) ==> {
                &&& final(self).width == width
                &&& final(self).height == height
                &&& final(self).pixels@ == Seq::new((width * height) as nat,
                    |i: int| rgb_to_u32(default_bg()))
            },
    {
        if width == self.width && height == self.height {
            return;
        }
        self.width = width;
        self.height = height;
        let n = width * height;
        let bg = default_bg_color().to_u32();
        let mut px: Vec<u32> = Vec::new();
        let mut i: usize = 0;
        while i < n
            invariant
                i <= n,
                bg == rgb_to_u32(default_bg()),
                px@.len() == i,
                forall|k: int| 0 <= k < i ==> px@[k] == rgb_to_u32(default_bg()),
            decreases n - i,
        {
            px.push(bg);
            i = i + 1;
        }
        self.pixels = px;
        proof {
            assert(self.pixels@ =~= Seq::new((width * height) as nat, |i: int| rgb_to_u32(default_bg())));
        }
    }

    /// Fills the whole buffer with one color.
    pub fn clear(&mut self, color: Rgb)
        requires
            old(self).wf(),
        ensures
            final(self).wf(),
            *final(self) == (PixelCanvas { pixels: final(self).pixels, ..*old(self) }),
            final(self).pixels@ == Seq::new(old(self).pixels@.len(), |i: int| rgb_to_u32(color)),
    {
        let c = color.to_u32();
        let n = self.pixels.len();
        let mut i: usize = 0;
        while i < n
            invariant
                i <= n,
                n == self.pixels@.len(),
                c == rgb_to_u32(color),
                *self == (PixelCanvas { pixels: self.pixels, ..*old(self) }),
                self.pixels@.len() == old(self).pixels@.len(),
                forall|k: int| 0 <= k < i ==> self.pixels@[k] == rgb_to_u32(color),
            decreases n - i,
        {
            self.pixels.set(i, c);
            i = i + 1;
        }
        proof {
            assert(self.pixels@ =~= Seq::new(old(self).pixels@.len(), |i: int| rgb_to_u32(color)));
        }
    }

    /// Fills the rectangle at `(x, y)` of size `w` by `h`, clipped to the
    /// buffer, with one color; every other pixel keeps its value.
    pub fn fill_rect(&mut self, x: usize, y: usize, w: usize, h: usize, color: Rgb)
        requires
            old(self).wf(),
        ensures
            final(self).wf(),
            *final(self) == (PixelCanvas { pixels: final(self).pixels, ..*old(self) }),
            final(self).pixels@.len() == old(self).pixels@.len(),
            forall|idx: int| 0 <= idx < old(self).pixels@.len() ==>
                final(self).pixels@[idx] == (
                    if idx_in_rect(idx, old(self).width as int,
                        x as int, spec_min_u(x, w, old(self).width),
                        y as int, spec_min_u(y, h, old(self).height)) {
                        rgb_to_u32(color)
                    } else {
                        old(self).pixels@[idx]
                    }),
    {
        let width = self.width;
        let height = self.height;
        let total = self.pixels.len();
        let x2 = if x <= width && w <= width - x { x + w } else { width };
        let y2 = if y <= height && h <= height - y { y + h } else { height };
        let c = color.to_u32();
        let ghost sx2 = spec_min_u(x, w, old(self).width);
        let ghost sy2 = spec_min_u(y, h, old(self).height);
        proof {
            assert(x2 == sx2 && y2 == sy2);
        }
        let mut yy = y;
        while yy < y2
            invariant
                y <= yy <= y2 || yy == y,
                yy >= y,
                x2 == sx2,
                y2 == sy2,
                x2 <= width,
                y2 <= height,
                width == old(self).width,
                height == old(self).height,
                total == self.pixels@.len(),
                c == rgb_to_u32(color),
                self.wf(),
                *self == (PixelCanvas { pixels: self.pixels, ..*old(self) }),
                self.pixels@.len() == old(self).pixels@.len(),
                forall|idx: int| 0 <= idx < old(self).pixels@.len() ==>
                    self.pixels@[idx] == (
                        if idx_in_rect(idx, width as int, x as int, x2 as int, y as int, yy as int) {
                            rgb_to_u32(color)
                        } else {
                            old(self).pixels@[idx]
                        }),
            decreases y2 - yy,
        {
            let mut xx = x;
            while xx < x2
                invariant
                    x <= xx <= x2 || xx == x,
                    xx >= x,
                    x2 <= width,
                    y <= yy < y2 <= height,
                    width == old(self).width,
                    height == old(self).height,
                    total == self.pixels@.len(),
                    c == rgb_to_u32(color),
                    self.wf(),
                    *self == (PixelCanvas { pixels: self.pixels, ..*old(self) }),
                    self.pixels@.len() == old(self).pixels@.len(),
                    forall|idx: int| 0 <= idx < old(self).pixels@.len() ==>
                        self.pixels@[idx] == (
                            if idx_in_rect(idx, width as int, x as int, x2 as int, y as int, yy as int)
                                || (idx / (width as int) == yy && x <= idx % (width as int) < xx) {
                                rgb_to_u32(color)
                            } else {
                                old(self).pixels@[idx]
                            }),
                decreases x2 - xx,
            {
                proof {
                    assert((yy * width + xx) < width * height) by (nonlinear_arith)
                        requires
                            0 <= yy < height as int,
                            0 <= xx < width as int,
                    ;
                }
                let idx = yy * width + xx;
                self.pixels.set(idx, c);
                proof {
                    lemma_fundamental_div_mod_converse(idx as int, width as int, yy as int, xx as int);
                    assert forall|j: int| 0 <= j < old(self).pixels@.len() && j != idx
                        implies !(#[trigger] (j / (width as int)) == yy && j % (width as int) == xx) by {
                        vstd::arithmetic::div_mod::lemma_fundamental_div_mod(j, width as int);
                        if j / (width as int) == yy && j % (width as int) == xx {
                            assert(j == (width as int) * ((j / (width as int))) + (j % (width as int)));
                            assert(j == (width as int) * (yy as int) + (xx as int));
                            assert((width as int) * (yy as int) == (yy as int) * (width as int))
                                by (nonlinear_arith);
                            assert(j == idx);
                        }
                    }
                }
                xx = xx + 1;
            }
            yy = yy + 1;
            proof {
                assert forall|idx: int| 0 <= idx < old(self).pixels@.len() implies
                    self.pixels@[idx] == (
                        if idx_in_rect(idx, width as int, x as int, x2 as int, y as int, yy as int) {
                            rgb_to_u32(color)
                        } else {
                            old(self).pixels@[idx]
                        }) by {
                }
            }
        }
    }

    /// Blends one foreground pixel over the buffer at `(x, y)` with the
    /// given coverage; positions outside the buffer are ignored.
    pub fn blend_pixel(&mut self, x: usize, y: usize, fg: Rgb, alpha: u8)
        requires
            old(self).wf(),
        ensures
            final(self).wf(),
            *final(self) == (PixelCanvas { pixels: final(self).pixels, ..*old(self) }),
            x >= old(self).width || y >= old(self).height ==> *final(self) == *old(self),
            x < old(self).width && y < old(self).height ==> {
                let at = y * old(self).width + x;
                forall|idx: int| 0 <= idx < old(self).pixels@.len() ==>
                    final(self).pixels@[idx] == (
                        if idx == at {
                            rgb_to_u32(blend_rgb(fg, u32_to_rgb(old(self).pixels@[at as int]), alpha))
                        } else {
                            old(self).pixels@[idx]
                        })
            },
    {
        if x >= self.width || y >= self.height {
            return;
        }
        let total = self.pixels.len();
        proof {
            assert((y * self.width + x) < self.width * self.height) by (nonlinear_arith)
                requires
                    0 <= y < self.height as int,
                    0 <= x < self.width as int,
            ;
        }
        let idx = y * self.width + x;
        let bg_u = self.pixels[idx];
        proof {
            assert(((bg_u >> 16) & 0xff) < 256 && ((bg_u >> 8) & 0xff) < 256 && (bg_u & 0xff) < 256)
                by (bit_vector);
        }
        let bg = Rgb {
            r: ((bg_u >> 16) & 0xff) as u8,
            g: ((bg_u >> 8) & 0xff) as u8,
            b: (bg_u & 0xff) as u8,
        };
        let blended = fg.blend_over(bg, alpha);
        proof {
            lemma_blend_channel_in_range(fg.r, bg.r, alpha);
            lemma_blend_channel_in_range(fg.g, bg.g, alpha);
            lemma_blend_channel_in_range(fg.b, bg.b, alpha);
        }
        let v = blended.to_u32();
        self.pixels.set(idx, v);
    }
}

/// The smaller of `a + b` and `limit`.
pub open spec fn spec_min_u(a: usize, b: usize, limit: usize) -> int {
    if a + b <= limit { a + b } else { limit as int }
}

/// A blended channel always fits a byte.
proof fn lemma_blend_channel_in_range(fg: u8, bg: u8, alpha: u8)
    ensures
        0 <= blend_channel(fg, bg, alpha) <= 255,
{
    assert(fg * alpha + bg * (255 - alpha) <= 255 * 255) by (nonlinear_arith)
        requires
            fg <= 255 && alpha <= 255 && bg <= 255,
    ;
}

} // verus!
