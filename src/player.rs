use vstd::prelude::*;

verus! {

/// The buffers of the y4m player.
#[derive(Clone, Copy, Debug, PartialEq, Eq, Hash, Structural)]
pub enum BufferType {
    YUVBuffer,
    DecodedRGBABuffer,
}

impl BufferType {
    /// The buffer key.
    pub open spec fn key_spec(self) -> u64 {
        match self {
            BufferType::YUVBuffer => 0,
            BufferType::DecodedRGBABuffer => 1,
        }
    }

    /// The buffer key; distinct buffers have distinct keys.
    pub fn key(self) -> (r: u64)
        ensures
            r == self.key_spec(),
    {
        match self {
            BufferType::YUVBuffer => 0,
            BufferType::DecodedRGBABuffer => 1,
        }
    }
}

/// The pipelines of the y4m player.
#[derive(Clone, Copy, Debug, PartialEq, Eq, Hash, Structural)]
pub enum Pipelines {
    Main,
}

/// Where pixel `i` of a `width` by `height` picture lies in the luma plane;
/// pixels are taken column by column.
pub open spec fn luma_index(width: int, height: int, i: int) -> int {
    (i % height) * width + i / height
}

/// Where pixel `i` lies in each quarter-size chroma plane.
pub open spec fn chroma_index(width: int, height: int, i: int) -> int {
    ((i % height) / 2) * width + (i / height) / 2
}

/// Whether pixel `i` lies inside the planes of a YUV buffer of `len` bytes:
/// luma in the first half, then two chroma planes of a quarter each.
pub open spec fn sample_in_bounds(width: int, height: int, len: int, i: int) -> bool {
    luma_index(width, height, i) < len / 2 && chroma_index(width, height, i) < len / 4
}

/// The (Y, U, V) sample of pixel `i`.
pub open spec fn sample_at(yuv: Seq<u8>, width: int, height: int, i: int) -> (u8, u8, u8) {
    let half = yuv.len() / 2;
    let quarter = yuv.len() / 4;
    let c = chroma_index(width, height, i);
    (yuv[luma_index(width, height, i)], yuv[half + c], yuv[half + quarter + c])
}

/// Turns planar YUV pictures of a fixed size into per-pixel samples.
pub struct ColorCaster {
    width: usize,
    height: usize,
}

impl ColorCaster {
    /// The picture width in pixels.
    pub closed spec fn width(&self) -> nat {
        self.width as nat
    }

    /// The picture height in pixels.
    pub closed spec fn height(&self) -> nat {
        self.height as nat
    }

    /// A caster for pictures of `width` by `height` pixels.
    pub fn new(width: u32, height: u32) -> (r: ColorCaster)
        ensures
            r.width() == width,
            r.height() == height,
    {
        ColorCaster { width: width as usize, height: height as usize }
    }

    /// The (Y, U, V) samples of every pixel of `yuv`, column by column; `None`
    /// when the picture does not fit in the buffer's planes.
    pub fn samples(&self, yuv: &Vec<u8>) -> (r: Option<Vec<(u8, u8, u8)>>)
        ensures
            match r {
                Some(s) => {
                    &&& s@.len() == self.width() * self.height()
                    &&& forall|i: int|
                        0 <= i < s@.len() ==> #[trigger] sample_in_bounds(
                            self.width() as int,
                            self.height() as int,
                            yuv@.len() as int,
                            i,
                        )
                    &&& forall|i: int|
                        0 <= i < s@.len() ==> #[trigger] s@[i] == sample_at(
                            yuv@,
                            self.width() as int,
                            self.height() as int,
                            i,
                        )
                },
                None => self.width() * self.height() > usize::MAX || exists|i: int|
                    0 <= i < self.width() * self.height() && !sample_in_bounds(
                        self.width() as int,
                        self.height() as int,
                        yuv@.len() as int,
                        i,
                    ),
            },
    {
        let width = self.width;
        let height = self.height;
        let n = match width.checked_mul(height) {
            Some(n) => n,
            None => return None,
        };
        let len = yuv.len();
        let half = len / 2;
        let quarter = len / 4;
        assert(half + quarter + quarter <= yuv@.len()) by (nonlinear_arith)
            requires
                half == yuv@.len() / 2,
                quarter == yuv@.len() / 4,
        ;
        let mut out: Vec<(u8, u8, u8)> = Vec::new();
        let mut i: usize = 0;
        while i < n
            invariant
                n == width * height,
                width == self.width,
                height == self.height,
                half == yuv@.len() / 2,
                quarter == yuv@.len() / 4,
                half + quarter + quarter <= yuv@.len(),
                len == yuv@.len(),
                i <= n,
                out@.len() == i,
                forall|j: int|
                    0 <= j < i ==> #[trigger] sample_in_bounds(
                        width as int,
                        height as int,
                        yuv@.len() as int,
                        j,
                    ),
                forall|j: int|
                    0 <= j < i ==> #[trigger] out@[j] == sample_at(
                        yuv@,
                        width as int,
                        height as int,
                        j,
                    ),
            decreases n - i,
        {
            assert(height > 0) by (nonlinear_arith)
                requires
                    i < width * height,
            ;
            let w = i / height;
            let h = i % height;
            assert(w < width) by (nonlinear_arith)
                requires
                    i < width * height,
                    w == i / height,
                    height > 0,
            ;
            assert(h * width + w < n) by (nonlinear_arith)
                requires
                    h < height,
                    w < width,
                    n == width * height,
            ;
            assert((h / 2) * width + w / 2 <= h * width + w) by (nonlinear_arith)
                requires
                    h < height,
                    w < width,
            ;
            let luma = h * width + w;
            let chroma = (h / 2) * width + w / 2;
            assert(luma == luma_index(width as int, height as int, i as int));
            assert(chroma == chroma_index(width as int, height as int, i as int));
            if luma >= half || chroma >= quarter {
                assert(!sample_in_bounds(width as int, height as int, yuv@.len() as int, i as int));
                return None;
            }
            let ghost before = out@;
            let u_at = half + chroma;
            let v_at = u_at + quarter;
            out.push((yuv[luma], yuv[u_at], yuv[v_at]));
            assert(sample_in_bounds(width as int, height as int, yuv@.len() as int, i as int));
            assert forall|j: int| 0 <= j < i + 1 implies #[trigger] out@[j] == sample_at(
                yuv@,
                width as int,
                height as int,
                j,
            ) by {
                if j < i {
                    assert(out@[j] == before[j]);
                }
            }
            i = i + 1;
        }
        Some(out)
    }
}

} // verus!
