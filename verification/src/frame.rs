//! BGRA8 tightly-packed pixel buffer.
//!
//! Layout: `data` is `width * height * 4` bytes, row-major, BGRA8 per pixel
//! (no padding: the stride is always `width * 4`). Pixel (x, y) starts at byte
//! offset `(y * width + x) * 4`.
use vstd::arithmetic::div_mod::{lemma_fundamental_div_mod, lemma_fundamental_div_mod_converse};
use crate::text::{append, append_u64, decimal};
use vstd::prelude::*;

verus! {

/// Mathematical model of a frame: its dimensions and its bytes.
pub struct FrameView {
    pub width: nat,
    pub height: nat,
    pub data: Seq<u8>,
}

impl FrameView {
    /// Non-zero dimensions and exactly `width * height * 4` bytes.
    pub open spec fn wf(self) -> bool {
        &&& self.width > 0
        &&& self.height > 0
        &&& self.data.len() == self.width * self.height * 4
    }

    /// Offset of channel `c` of pixel `(x, y)`.
    pub open spec fn offset(self, x: int, y: int, c: int) -> int {
        (y * self.width + x) * 4 + c
    }

    /// Channel `c` (0 = B, 1 = G, 2 = R, 3 = A) of pixel `(x, y)`.
    pub open spec fn byte(self, x: int, y: int, c: int) -> u8 {
        self.data[self.offset(x, y, c)]
    }

    /// Whether `(x, y)` lies inside the frame.
    pub open spec fn contains(self, x: int, y: int) -> bool {
        0 <= x < self.width && 0 <= y < self.height
    }
}

/// The frame of size `width x height` whose pixel `(x, y)` is the pixel
/// `(sx(x, y), sy(x, y))` of `src`.
pub open spec fn remap(
    src: FrameView,
    width: nat,
    height: nat,
    sx: spec_fn(int, int) -> int,
    sy: spec_fn(int, int) -> int,
) -> FrameView {
    FrameView {
        width,
        height,
        data: Seq::new(
            width * height * 4,
            |i: int|
                src.byte(
                    sx((i / 4) % (width as int), (i / 4) / (width as int)),
                    sy((i / 4) % (width as int), (i / 4) / (width as int)),
                    i % 4,
                ),
        ),
    }
}

/// Offset `(y * w + x) * 4 + c` of an in-range position lies in `[0, w * h * 4)`
/// and decomposes back into `x`, `y` and `c`.
pub proof fn lemma_offset_compose(x: int, y: int, c: int, w: int, h: int)
    requires
        0 <= x < w,
        0 <= y < h,
        0 <= c < 4,
    ensures
        0 <= (y * w + x) * 4 + c < w * h * 4,
        ((y * w + x) * 4 + c) / 4 == y * w + x,
        ((y * w + x) * 4 + c) % 4 == c,
        (((y * w + x) * 4 + c) / 4) % w == x,
        (((y * w + x) * 4 + c) / 4) / w == y,
{
    assert(0 <= y * w + x < w * h) by (nonlinear_arith)
        requires
            0 <= x < w,
            0 <= y < h,
    ;
    lemma_fundamental_div_mod_converse((y * w + x) * 4 + c, 4, y * w + x, c);
    lemma_fundamental_div_mod_converse(y * w + x, w, y, x);
}

/// Every offset below `w * h * 4` is the offset of an in-range position.
pub proof fn lemma_offset_decompose(i: int, w: int, h: int)
    requires
        w > 0,
        h > 0,
        0 <= i < w * h * 4,
    ensures
        0 <= (i / 4) % w < w,
        0 <= (i / 4) / w < h,
        0 <= i % 4 < 4,
        i == (((i / 4) / w) * w + (i / 4) % w) * 4 + i % 4,
{
    lemma_fundamental_div_mod(i, 4);
    let p = i / 4;
    lemma_fundamental_div_mod(p, w);
    let k = w * h;
    assert(p < k);
    let y = p / w;
    let x = p % w;
    assert(0 <= y < h) by (nonlinear_arith)
        requires
            p == w * y + x,
            0 <= x < w,
            0 <= p < w * h,
            w > 0,
    ;
    assert(w * y == y * w) by (nonlinear_arith);
}

/// Byte `c` of pixel `(x, y)` of a remapped frame is byte `c` of the source
/// pixel it was taken from.
pub proof fn lemma_remap_byte(
    src: FrameView,
    width: nat,
    height: nat,
    sx: spec_fn(int, int) -> int,
    sy: spec_fn(int, int) -> int,
    x: int,
    y: int,
    c: int,
)
    requires
        0 <= x < width,
        0 <= y < height,
        0 <= c < 4,
    ensures
        remap(src, width, height, sx, sy).wf() || width == 0 || height == 0,
        remap(src, width, height, sx, sy).data.len() == width * height * 4,
        remap(src, width, height, sx, sy).byte(x, y, c) == src.byte(sx(x, y), sy(x, y), c),
{
    lemma_offset_compose(x, y, c, width as int, height as int);
}

/// A frame that satisfies `wf` is equal to any other well-formed frame of the
/// same size whose bytes agree position by position.
pub proof fn lemma_view_ext(a: FrameView, b: FrameView)
    requires
        a.wf(),
        b.wf(),
        a.width == b.width,
        a.height == b.height,
        forall|x: int, y: int, c: int|
            0 <= x < a.width && 0 <= y < a.height && 0 <= c < 4 ==> #[trigger] a.byte(x, y, c)
                == b.byte(x, y, c),
    ensures
        a == b,
{
    assert forall|i: int| 0 <= i < a.data.len() implies a.data[i] == b.data[i] by {
        lemma_offset_decompose(i, a.width as int, a.height as int);
        let x = (i / 4) % (a.width as int);
        let y = (i / 4) / (a.width as int);
        assert(a.byte(x, y, i % 4) == b.byte(x, y, i % 4));
    }
    assert(a.data =~= b.data);
}

#[derive(Debug, PartialEq, Eq)]
pub struct Frame {
    width: u32,
    height: u32,
    data: Vec<u8>,
}

#[derive(Debug, PartialEq, Eq)]
pub enum FrameError {
    DataLengthMismatch { width: u32, height: u32, expected: usize, actual: usize },
    ZeroDimension { width: u32, height: u32 },
}

impl View for Frame {
    type V = FrameView;

    closed spec fn view(&self) -> FrameView {
        FrameView { width: self.width as nat, height: self.height as nat, data: self.data@ }
    }
}

/// `w * h * 4` when it fits in a `usize`, else `usize::MAX`.
pub open spec fn expected_len(w: u32, h: u32) -> usize {
    if w * h * 4 <= usize::MAX {
        (w * h * 4) as usize
    } else {
        usize::MAX
    }
}

impl Frame {
    #[verifier::type_invariant]
    spec fn inv(self) -> bool {
        &&& self.width > 0
        &&& self.height > 0
        &&& self.data@.len() == self.width * self.height * 4
    }

    /// Validates and wraps a BGRA8 buffer.
    pub fn new(width: u32, height: u32, data: Vec<u8>) -> (result: Result<Self, FrameError>)
        ensures
            width == 0 || height == 0 ==> result == Err::<Frame, FrameError>(
                FrameError::ZeroDimension { width, height },
            ),
            width > 0 && height > 0 && data@.len() != width * height * 4 ==> result == Err::<
                Frame,
                FrameError,
            >(
                FrameError::DataLengthMismatch {
                    width,
                    height,
                    expected: expected_len(width, height),
                    actual: data@.len() as usize,
                },
            ),
            width > 0 && height > 0 && data@.len() == width * height * 4 ==> (result matches Ok(
                frame,
            ) && frame@ == (FrameView { width: width as nat, height: height as nat, data: data@ })),
    {
        if width == 0 || height == 0 {
            return Err(FrameError::ZeroDimension { width, height });
        }
        let width_len = width as usize;
        let height_len = height as usize;
        let (expected, fits) = match width_len.checked_mul(height_len) {
            Some(pixels) => match pixels.checked_mul(4) {
                Some(bytes) => (bytes, true),
                None => (usize::MAX, false),
            },
            None => {
                assert(width_len * height_len * 4 > usize::MAX) by (nonlinear_arith)
                    requires
                        width_len * height_len > usize::MAX,
                ;
                (usize::MAX, false)
            },
        };
        let actual = data.len();
        if !fits || actual != expected {
            return Err(FrameError::DataLengthMismatch { width, height, expected, actual });
        }
        Ok(Frame { width, height, data })
    }

    /// Builds a frame whose size and length the caller has already established.
    pub fn from_validated(width: u32, height: u32, data: Vec<u8>) -> (frame: Self)
        requires
            width > 0,
            height > 0,
            data@.len() == width * height * 4,
        ensures
            frame@ == (FrameView { width: width as nat, height: height as nat, data: data@ }),
    {
        Frame { width, height, data }
    }

    pub fn width(&self) -> (width: u32)
        ensures
            width == self@.width,
            self@.wf(),
    {
        proof {
            use_type_invariant(self);
        }
        self.width
    }

    pub fn height(&self) -> (height: u32)
        ensures
            height == self@.height,
            self@.wf(),
    {
        proof {
            use_type_invariant(self);
        }
        self.height
    }

    pub fn data(&self) -> (data: &[u8])
        ensures
            data@ == self@.data,
            self@.wf(),
    {
        proof {
            use_type_invariant(self);
        }
        self.data.as_slice()
    }

    /// The BGRA bytes of pixel `(x, y)`, or `None` outside the frame.
    pub fn pixel(&self, x: u32, y: u32) -> (pixel: Option<[u8; 4]>)
        ensures
            pixel is Some <==> self@.contains(x as int, y as int),
            pixel matches Some(p) ==> forall|c: int|
                0 <= c < 4 ==> #[trigger] p@[c] == self@.byte(x as int, y as int, c),
    {
        proof {
            use_type_invariant(self);
        }
        if x >= self.width || y >= self.height {
            return None;
        }
        let width_len = self.width as usize;
        let x_len = x as usize;
        let y_len = y as usize;
        let len = self.data.len();
        proof {
            lemma_offset_compose(x as int, y as int, 3, self.width as int, self.height as int);
            assert(y_len * width_len <= y_len * width_len + x_len < self.width * self.height)
                by (nonlinear_arith)
                requires
                    x_len < self.width,
                    y_len < self.height,
                    width_len == self.width,
            ;
        }
        let idx = (y_len * width_len + x_len) * 4;
        let p = [self.data[idx], self.data[idx + 1], self.data[idx + 2], self.data[idx + 3]];
        proof {
            assert(self@.offset(x as int, y as int, 0) == idx);
        }
        Some(p)
    }

}

/// The message of a frame error.
pub open spec fn frame_error_text(e: FrameError) -> Seq<char> {
    match e {
        FrameError::DataLengthMismatch { width, height, expected, actual } => "frame data length "@
            + decimal(actual as nat) + " does not match "@ + decimal(width as nat) + "x"@
            + decimal(height as nat) + "x4 = "@ + decimal(expected as nat),
        FrameError::ZeroDimension { width, height } => "frame dimensions must be non-zero (got "@
            + decimal(width as nat) + "x"@ + decimal(height as nat) + ")"@,
    }
}

impl FrameError {
    pub fn message(&self) -> (text: String)
        ensures
            text@ == frame_error_text(*self),
    {
        let mut text = String::new();
        match *self {
            FrameError::DataLengthMismatch { width, height, expected, actual } => {
                append(&mut text, "frame data length ");
                append_u64(&mut text, actual as u64);
                append(&mut text, " does not match ");
                append_u64(&mut text, width as u64);
                append(&mut text, "x");
                append_u64(&mut text, height as u64);
                append(&mut text, "x4 = ");
                append_u64(&mut text, expected as u64);
            },
            FrameError::ZeroDimension { width, height } => {
                append(&mut text, "frame dimensions must be non-zero (got ");
                append_u64(&mut text, width as u64);
                append(&mut text, "x");
                append_u64(&mut text, height as u64);
                append(&mut text, ")");
            },
        }
        proof {
            assert(text@ =~= frame_error_text(*self));
        }
        text
    }
}

impl Clone for Frame {
    fn clone(&self) -> (copy: Self)
        ensures
            copy@ == self@,
    {
        proof {
            use_type_invariant(self);
        }
        let data = self.data.clone();
        proof {
            assert(data@ =~= self.data@);
        }
        Frame { width: self.width, height: self.height, data }
    }
}

} // verus!
