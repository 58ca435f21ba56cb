use crate::image_buf::{rgb8_from_raw, rgb8_get, rgb8_samples, rgb8_size, sample_base, Rgb8Buffer};
use vstd::prelude::*;

verus! {

/// The pixels of an image texture, or the mark of one that could not be
/// loaded.
pub struct ImageTexture {
    width: i32,
    height: i32,
    data: Option<Rgb8Buffer>,
}

/// Clamps a texel coordinate from above to the last one of an extent.
pub open spec fn clamp_texel(c: int, extent: int) -> int {
    if c >= extent {
        extent - 1
    } else {
        c
    }
}

impl ImageTexture {
    /// The image holds at least one pixel, and its buffer matches its size.
    pub closed spec fn wf(&self) -> bool {
        match self.data {
            Some(b) => {
                &&& 0 < self.width
                &&& 0 < self.height
                &&& rgb8_size(b) == (self.width as nat, self.height as nat)
                &&& rgb8_samples(b).len() >= 3 * self.width * self.height
            },
            None => self.width == -1 && self.height == -1,
        }
    }

    pub closed spec fn spec_width(&self) -> int {
        self.width as int
    }

    pub closed spec fn spec_height(&self) -> int {
        self.height as int
    }

    pub closed spec fn is_loaded(&self) -> bool {
        self.data is Some
    }

    /// Sample `k` (0, 1 or 2) of texel `(i, j)`.
    pub closed spec fn sample(&self, i: int, j: int, k: int) -> u8 {
        rgb8_samples(self.data->Some_0)[sample_base(self.width as nat, i as nat, j as nat) + k]
    }

    /// A texture whose image could not be read: it has no texels, and its
    /// size reads as `-1` by `-1`.
    pub fn missing() -> (r: ImageTexture)
        ensures
            r.wf(),
            !r.is_loaded(),
            r.spec_width() == -1,
            r.spec_height() == -1,
    {
        ImageTexture { width: -1, height: -1, data: None }
    }

    /// A texture over `width` by `height` RGB pixels stored row-major, three
    /// samples each, in `data`. `None` unless the image has at least one
    /// pixel, its size fits in `i32`, and `data` holds every sample.
    pub fn from_rgb8(width: u32, height: u32, data: Vec<u8>) -> (r: Option<ImageTexture>)
        ensures
            r is Some <==> (0 < width <= i32::MAX && 0 < height <= i32::MAX && 3 * width * height
                <= data@.len()),
            r matches Some(t) ==> t.wf() && t.is_loaded() && t.spec_width() == width
                && t.spec_height() == height && forall|i: int, j: int, k: int|
                0 <= i < width && 0 <= j < height && 0 <= k < 3 ==> #[trigger] t.sample(i, j, k)
                    == data@[sample_base(width as nat, i as nat, j as nat) + k],
    {
        if width == 0 || height == 0 || width > i32::MAX as u32 || height > i32::MAX as u32 {
            return None;
        }
        let len = data.len();
        match rgb8_from_raw(width, height, data) {
            Some(buf) => Some(ImageTexture { width: width as i32, height: height as i32, data: Some(buf) }),
            None => {
                assert(3 * width <= 3 * width * height) by (nonlinear_arith)
                    requires
                        height >= 1,
                ;
                assert(3 * width * height > len) by {
                    assert(len <= usize::MAX);
                }
                None
            },
        }
    }

    pub fn width(&self) -> (r: i32)
        ensures
            r == self.spec_width(),
    {
        self.width
    }

    pub fn height(&self) -> (r: i32)
        ensures
            r == self.spec_height(),
    {
        self.height
    }

    /// The RGB samples of texel `(i, j)`, each coordinate first clamped to
    /// the last texel; `None` when the image could not be loaded.
    pub fn texel(&self, i: i32, j: i32) -> (r: Option<(u8, u8, u8)>)
        requires
            self.wf(),
            0 <= i,
            0 <= j,
        ensures
            r is None <==> !self.is_loaded(),
            r matches Some(p) ==> ({
                let ci = clamp_texel(i as int, self.spec_width());
                let cj = clamp_texel(j as int, self.spec_height());
                p == (self.sample(ci, cj, 0), self.sample(ci, cj, 1), self.sample(ci, cj, 2))
            }),
    {
        match &self.data {
            None => None,
            Some(buf) => {
                let mut ii = i;
                let mut jj = j;
                if ii >= self.width {
                    ii = self.width - 1;
                }
                if jj >= self.height {
                    jj = self.height - 1;
                }
                let p = rgb8_get(buf, ii as u32, jj as u32);
                Some(p)
            },
        }
    }
}

} // verus!
