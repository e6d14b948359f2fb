use vstd::prelude::*;

verus! {

/// Why a sub-rectangle upload into the atlas was refused.
#[derive(Clone, Copy, Debug, PartialEq, Eq, Structural)]
pub enum UpdateError {
    /// `offset + size` reaches past the atlas on some axis.
    OutOfBounds,
    /// The bitmap does not hold exactly `width * height` bytes.
    DataLength,
}

/// What an atlas holds: its size and its alpha bytes, row by row.
pub struct AtlasView {
    pub width: nat,
    pub height: nat,
    pub pixels: Seq<u8>,
}

/// The alpha byte at column `x` and row `y` of a row-major image `width` wide.
pub open spec fn pixel_at(pixels: Seq<u8>, width: int, x: int, y: int) -> u8 {
    pixels[y * width + x]
}

impl AtlasView {
    pub open spec fn pixel(self, x: int, y: int) -> u8 {
        pixel_at(self.pixels, self.width as int, x, y)
    }

    /// Every byte is zero: the atlas holds no glyph.
    pub open spec fn is_clear(self) -> bool {
        forall|i: int| 0 <= i < self.pixels.len() ==> #[trigger] self.pixels[i] == 0
    }

    /// A freshly allocated, empty atlas of the given size.
    pub open spec fn blank(self, width: nat, height: nat) -> bool {
        &&& self.width == width
        &&& self.height == height
        &&& self.pixels.len() == width * height
        &&& self.is_clear()
    }

    /// A rectangle at `offset` of the given `size` lies inside the atlas.
    pub open spec fn fits(self, offset: [u16; 2], size: [u16; 2]) -> bool {
        offset[0] + size[0] <= self.width && offset[1] + size[1] <= self.height
    }

    /// `self` is `before` with the rectangle at `offset` of `size` overwritten,
    /// row by row, by `data`.
    pub open spec fn blitted(self, before: AtlasView, offset: [u16; 2], size: [u16; 2], data: Seq<u8>) -> bool {
        &&& self.width == before.width
        &&& self.height == before.height
        &&& self.pixels.len() == before.pixels.len()
        &&& forall|x: int, y: int|
            0 <= x < self.width && 0 <= y < self.height ==> #[trigger] self.pixel(x, y) == if in_rect(
                x,
                y,
                offset[0] as int,
                offset[1] as int,
                size[0] as int,
                size[1] as int,
            ) {
                pixel_at(data, size[0] as int, x - offset[0], y - offset[1])
            } else {
                before.pixel(x, y)
            }
    }
}

/// `(x, y)` lies in the rectangle at `(ox, oy)` that is `w` wide and `h` high.
pub open spec fn in_rect(x: int, y: int, ox: int, oy: int, w: int, h: int) -> bool {
    ox <= x < ox + w && oy <= y < oy + h
}

/// A CPU-side image of the single-channel glyph atlas: its size and what each
/// texel holds. The texture on the GPU is kept equal to it.
pub struct Cache {
    width: u32,
    height: u32,
    pixels: Vec<u8>,
}

impl View for Cache {
    type V = AtlasView;

    closed spec fn view(&self) -> AtlasView {
        AtlasView { width: self.width as nat, height: self.height as nat, pixels: self.pixels@ }
    }
}

/// Positions within a row-major image map to distinct in-range indices.
proof fn lemma_index(width: int, height: int, x: int, y: int, x2: int, y2: int)
    requires
        0 <= x < width,
        0 <= y < height,
        0 <= x2 < width,
        0 <= y2 < height,
    ensures
        0 <= y * width + x < width * height,
        (y * width + x == y2 * width + x2) ==> (x == x2 && y == y2),
{
    assert(0 <= y * width + x < width * height) by (nonlinear_arith)
        requires
            0 <= x < width,
            0 <= y < height,
    ;
    assert((y * width + x == y2 * width + x2) ==> (x == x2 && y == y2)) by (nonlinear_arith)
        requires
            0 <= x < width,
            0 <= x2 < width,
            0 <= y,
            0 <= y2,
    ;
}

impl Cache {
    pub closed spec fn wf(&self) -> bool {
        &&& self.pixels@.len() == self.width * self.height
        &&& self.width * self.height <= usize::MAX
    }

    pub fn width(&self) -> (r: u32)
        ensures
            r == self@.width,
    {
        self.width
    }

    pub fn height(&self) -> (r: u32)
        ensures
            r == self@.height,
    {
        self.height
    }

    /// The atlas's bytes, row by row.
    pub fn pixels(&self) -> (r: &Vec<u8>)
        ensures
            r@ == self@.pixels,
    {
        &self.pixels
    }

    /// An empty atlas of the given size: every texel is zero.
    pub fn new(width: u32, height: u32) -> (r: Cache)
        requires
            width * height <= usize::MAX,
        ensures
            r.wf(),
            r@.blank(width as nat, height as nat),
    {
        let n: usize = width as usize * height as usize;
        let mut pixels: Vec<u8> = Vec::with_capacity(n);
        let mut i: usize = 0;
        while i < n
            invariant
                i <= n,
                pixels@.len() == i,
                forall|j: int| 0 <= j < i ==> #[trigger] pixels@[j] == 0,
            decreases n - i,
        {
            pixels.push(0);
            i += 1;
        }
        Cache { width, height, pixels }
    }

    /// Throws away every cached glyph and makes the atlas an empty one of the
    /// new size.
    pub fn resize(&mut self, width: u32, height: u32)
        requires
            width * height <= usize::MAX,
        ensures
            final(self).wf(),
            final(self)@.blank(width as nat, height as nat),
    {
        *self = Cache::new(width, height);
    }

    /// Writes the `size[0]` by `size[1]` alpha bitmap `data` (row by row) into
    /// the atlas at `offset`. A rectangle that does not fit, or a bitmap of the
    /// wrong length, is refused and the atlas is left as it was.
    pub fn update(&mut self, offset: [u16; 2], size: [u16; 2], data: &[u8]) -> (r: Result<(), UpdateError>)
        requires
            old(self).wf(),
        ensures
            final(self).wf(),
            match r {
                Err(UpdateError::OutOfBounds) => !old(self)@.fits(offset, size) && final(self)@ == old(self)@,
                Err(UpdateError::DataLength) => old(self)@.fits(offset, size) && data@.len() != size[0] * size[1]
                    && final(self)@ == old(self)@,
                Ok(()) => old(self)@.fits(offset, size) && data@.len() == size[0] * size[1]
                    && final(self)@.blitted(old(self)@, offset, size, data@),
            },
    {
        let ox = offset[0] as usize;
        let oy = offset[1] as usize;
        let w = size[0] as usize;
        let h = size[1] as usize;
        let aw = self.width as usize;
        if ox + w > aw || oy + h > self.height as usize {
            return Err(UpdateError::OutOfBounds);
        }
        assert(w * h <= 0xffff * 0xffff) by (nonlinear_arith)
            requires
                w <= 0xffff,
                h <= 0xffff,
        ;
        if data.len() != w * h {
            return Err(UpdateError::DataLength);
        }
        let ghost before = self@;
        let mut row: usize = 0;
        while row < h
            invariant
                self.wf(),
                before == old(self)@,
                self.width == before.width,
                self.height == before.height,
                row <= h,
                ox + w <= aw,
                oy + h <= self.height,
                aw == self.width,
                ox == offset[0],
                oy == offset[1],
                w == size[0],
                h == size[1],
                data@.len() == w * h,
                w * h <= 0xffff * 0xffff,
                forall|x: int, y: int|
                    0 <= x < aw && 0 <= y < self.height ==> #[trigger] pixel_at(self.pixels@, aw as int, x, y)
                        == if in_rect(x, y, ox as int, oy as int, w as int, row as int) {
                        pixel_at(data@, w as int, x - ox, y - oy)
                    } else {
                        before.pixel(x, y)
                    },
            decreases h - row,
        {
            let mut col: usize = 0;
            while col < w
                invariant
                    self.wf(),
                    self.width == before.width,
                    self.height == before.height,
                    row < h,
                    col <= w,
                    ox + w <= aw,
                    oy + h <= self.height,
                    aw == self.width,
                    data@.len() == w * h,
                w * h <= 0xffff * 0xffff,
                    forall|x: int, y: int|
                        0 <= x < aw && 0 <= y < self.height ==> #[trigger] pixel_at(self.pixels@, aw as int, x, y)
                            == if in_rect(x, y, ox as int, oy as int, w as int, row as int) || (y == oy + row
                            && ox <= x < ox + col) {
                            pixel_at(data@, w as int, x - ox, y - oy)
                        } else {
                            before.pixel(x, y)
                        },
                decreases w - col,
            {
                proof {
                    lemma_index(aw as int, self.height as int, (ox + col) as int, (oy + row) as int, 0, 0);
                    lemma_index(w as int, h as int, col as int, row as int, 0, 0);
                }
                let idx = (oy + row) * aw + ox + col;
                let v = data[row * w + col];
                let ghost prev = self.pixels@;
                self.pixels.set(idx, v);
                assert forall|x: int, y: int|
                    0 <= x < aw && 0 <= y < self.height implies #[trigger] pixel_at(self.pixels@, aw as int, x, y)
                        == if in_rect(x, y, ox as int, oy as int, w as int, row as int) || (y == oy + row
                        && ox <= x < ox + col + 1) {
                        pixel_at(data@, w as int, x - ox, y - oy)
                    } else {
                        before.pixel(x, y)
                    } by {
                    lemma_index(aw as int, self.height as int, x, y, (ox + col) as int, (oy + row) as int);
                    assert(pixel_at(prev, aw as int, x, y) == prev[y * aw + x]);
                };
                col += 1;
            }
            row += 1;
        }
        proof {
            assert(self@.pixels.len() == before.pixels.len());
            assert forall|x: int, y: int| 0 <= x < self@.width && 0 <= y < self@.height implies #[trigger] self@.pixel(x, y)
                == if in_rect(x, y, offset[0] as int, offset[1] as int, size[0] as int, size[1] as int) {
                pixel_at(data@, size[0] as int, x - offset[0], y - offset[1])
            } else {
                before.pixel(x, y)
            } by {
                assert(pixel_at(self.pixels@, aw as int, x, y) == self@.pixel(x, y));
            };
        }
        Ok(())
    }
}

/// A freshly resized atlas reads as all zero, and after one upload into it
/// every texel outside the uploaded rectangle still reads zero: nothing of
/// what the atlas held before the resize survives.
pub proof fn lemma_resize_clears(fresh: AtlasView, updated: AtlasView, width: nat, height: nat, offset: [u16; 2], size: [u16; 2], data: Seq<u8>)
    requires
        fresh.blank(width, height),
        updated.blitted(fresh, offset, size, data),
    ensures
        forall|x: int, y: int| 0 <= x < width && 0 <= y < height ==> #[trigger] fresh.pixel(x, y) == 0,
        forall|x: int, y: int|
            0 <= x < width && 0 <= y < height && !in_rect(x, y, offset[0] as int, offset[1] as int, size[0] as int, size[1] as int)
                ==> #[trigger] updated.pixel(x, y) == 0,
{
    assert forall|x: int, y: int| 0 <= x < width && 0 <= y < height implies #[trigger] fresh.pixel(x, y) == 0 by {
        lemma_index(width as int, height as int, x, y, 0, 0);
    };
    assert forall|x: int, y: int|
        0 <= x < width && 0 <= y < height && !in_rect(x, y, offset[0] as int, offset[1] as int, size[0] as int, size[1] as int)
            implies #[trigger] updated.pixel(x, y) == 0 by {
        assert(fresh.pixel(x, y) == 0);
    };
}

} // verus!
