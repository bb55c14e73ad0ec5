use vstd::prelude::*;

verus! {

/// Bytes per pixel of a bitmap: red, green and blue.
pub const BYTES_PER_PIXEL: usize = 3;

/// `x` clamped to `[low, high - 1]`, as pixel fetch uses it.
pub open spec fn clamp_spec(x: int, low: int, high: int) -> int {
    if x < low {
        low
    } else if x < high {
        x
    } else {
        high - 1
    }
}

/// An 8-bit RGB bitmap in row-major order, or the absence of one when no
/// image could be loaded.
pub struct RtwImage {
    image_width: i32,
    image_height: i32,
    bdata: Option<Vec<u8>>,
}

impl RtwImage {
    /// Whether pixel data is present.
    pub closed spec fn is_loaded(&self) -> bool {
        self.bdata.is_some()
    }

    /// Width in pixels of the loaded bitmap.
    pub closed spec fn width_spec(&self) -> int {
        self.image_width as int
    }

    /// Height in pixels of the loaded bitmap.
    pub closed spec fn height_spec(&self) -> int {
        self.image_height as int
    }

    /// The bytes of the loaded bitmap, row after row, three per pixel.
    pub closed spec fn bytes(&self) -> Seq<u8> {
        match self.bdata {
            Some(b) => b@,
            None => Seq::empty(),
        }
    }

    /// A loaded bitmap has positive dimensions and exactly three bytes per pixel.
    pub open spec fn wf(&self) -> bool {
        self.is_loaded() ==> {
            &&& self.width_spec() > 0
            &&& self.height_spec() > 0
            &&& self.bytes().len() == self.width_spec() * self.height_spec() * 3
        }
    }

    /// The three bytes that `pixel_data(x, y)` returns.
    pub open spec fn pixel_spec(&self, x: int, y: int) -> Seq<u8> {
        if !self.is_loaded() {
            seq![255u8, 0u8, 255u8]
        } else {
            let cx = clamp_spec(x, 0, self.width_spec());
            let cy = clamp_spec(y, 0, self.height_spec());
            let off = (cy * self.width_spec() + cx) * 3;
            self.bytes().subrange(off, off + 3)
        }
    }

    /// An image with no pixel data.
    pub fn empty() -> (r: Self)
        ensures
            r.wf(),
            !r.is_loaded(),
    {
        RtwImage { image_width: 0, image_height: 0, bdata: None }
    }

    /// A loaded image from its dimensions and row-major RGB bytes; `None`
    /// unless both dimensions are positive and there are exactly three bytes
    /// per pixel.
    pub fn from_bytes(width: i32, height: i32, bytes: Vec<u8>) -> (r: Option<Self>)
        ensures
            r.is_some() <==> (width > 0 && height > 0 && bytes@.len() == width * height * 3),
            r.is_some() ==> {
                let img = r.unwrap();
                &&& img.wf()
                &&& img.is_loaded()
                &&& img.width_spec() == width
                &&& img.height_spec() == height
                &&& img.bytes() == bytes@
            },
    {
        if width <= 0 || height <= 0 {
            return None;
        }
        let w = width as u64;
        let h = height as u64;
        assert(w * h * 3 < 0x1_0000_0000_0000_0000) by (nonlinear_arith)
            requires
                w < 0x8000_0000, h < 0x8000_0000,
        ;
        if bytes.len() as u64 != w * h * 3 {
            return None;
        }
        Some(RtwImage { image_width: width, image_height: height, bdata: Some(bytes) })
    }

    /// Width in pixels, or 0 when nothing is loaded.
    pub fn width(&self) -> (r: i32)
        ensures
            r == if self.is_loaded() { self.width_spec() } else { 0 },
    {
        if self.bdata.is_none() {
            0
        } else {
            self.image_width
        }
    }

    /// Height in pixels, or 0 when nothing is loaded.
    pub fn height(&self) -> (r: i32)
        ensures
            r == if self.is_loaded() { self.height_spec() } else { 0 },
    {
        if self.bdata.is_none() {
            0
        } else {
            self.image_height
        }
    }

    /// The RGB bytes of pixel `(x, y)`, with the coordinates clamped to the
    /// image; magenta when nothing is loaded.
    pub fn pixel_data(&self, x: i32, y: i32) -> (r: [u8; 3])
        requires
            self.wf(),
        ensures
            r@ == self.pixel_spec(x as int, y as int),
    {
        match &self.bdata {
            None => [255u8, 0u8, 255u8],
            Some(b) => {
                let cx = self.clamp(x, 0, self.image_width) as usize;
                let cy = self.clamp(y, 0, self.image_height) as usize;
                let w = self.image_width as usize;
                let h = self.image_height as usize;
                proof {
                    assert(b@.len() == self.bytes().len());
                    assert(cy * w + cx < w * h) by (nonlinear_arith)
                        requires
                            cx < w, cy < h,
                        ;
                    assert((cy * w + cx) * 3 + 3 <= w * h * 3) by (nonlinear_arith)
                        requires
                            cy * w + cx < w * h,
                        ;
                    assert(cy * w <= cy * w + cx);
                    assert(b@.len() == w * h * 3);
                }
                let len = b.len();
                let off = (cy * w + cx) * BYTES_PER_PIXEL;
                assert(off + 2 < len);
                let r = [b[off], b[off + 1], b[off + 2]];
                assert(r@ =~= self.pixel_spec(x as int, y as int));
                r
            },
        }
    }

    /// `x` clamped to `[low, high - 1]`: `low` below the range, `high - 1` above it.
    pub fn clamp(&self, x: i32, low: i32, high: i32) -> (r: i32)
        requires
            high > i32::MIN,
        ensures
            r == clamp_spec(x as int, low as int, high as int),
            low < high ==> low <= r < high,
    {
        if x < low {
            low
        } else if x < high {
            x
        } else {
            high - 1
        }
    }
}

} // verus!
