use vstd::prelude::*;

use crate::frame::FrameData;

verus! {

/// The RGB bytes of RGBA pixels: each whole pixel with its alpha byte left
/// out.
pub open spec fn rgb_of(rgba: Seq<u8>) -> Seq<u8> {
    Seq::new(((rgba.len() / 4) * 3) as nat, |i: int| rgba[(i / 3) * 4 + i % 3])
}

/// Appends the RGB bytes of the RGBA pixels `rgba` to `out`.
pub fn append_rgb(out: &mut Vec<u8>, rgba: &Vec<u8>)
    ensures
        final(out)@ == old(out)@ + rgb_of(rgba@),
{
    let ghost start = out@;
    let len = rgba.len();
    let n = len / 4;
    let mut p: usize = 0;
    while p < n
        invariant
            len == rgba@.len(),
            n == len / 4,
            p <= n,
            out@.len() == start.len() + 3 * p,
            forall|i: int| 0 <= i < start.len() ==> #[trigger] out@[i] == start[i],
            forall|i: int|
                0 <= i < 3 * p ==> #[trigger] out@[start.len() + i] == rgba@[(i / 3) * 4 + i % 3],
        decreases n - p,
    {
        assert(4 * p + 3 < len) by (nonlinear_arith)
            requires
                p < n,
                n == len / 4,
        ;
        let ghost before = out@;
        out.push(rgba[4 * p]);
        out.push(rgba[4 * p + 1]);
        out.push(rgba[4 * p + 2]);
        assert forall|i: int| 0 <= i < 3 * (p + 1) implies #[trigger] out@[start.len() + i]
            == rgba@[(i / 3) * 4 + i % 3] by {
            if i < 3 * p {
                assert(out@[start.len() + i] == before[start.len() + i]);
            } else {
                assert(i / 3 == p && i % 3 == i - 3 * p);
            }
        }
        p = p + 1;
    }
    assert forall|j: int| 0 <= j < out@.len() implies #[trigger] out@[j] == (start + rgb_of(
        rgba@,
    ))[j] by {
        if j >= start.len() {
            let i = j - start.len();
            assert(out@[start.len() + i] == rgba@[(i / 3) * 4 + i % 3]);
        }
    }
    assert(out@ =~= start + rgb_of(rgba@));
}

/// Why a capture could not be stored.
#[derive(Clone, Copy, Debug, PartialEq, Eq, Structural)]
pub enum CaptureError {
    /// The frame holds no buffer under the capturer's key.
    NoBuffer,
}

/// What storing a capture under `key` does: the buffer there now holds the
/// capture's RGB bytes, and nothing else of the frame changed.
pub open spec fn stored(f0: FrameData, f1: FrameData, key: u64, rgba: Seq<u8>) -> bool {
    &&& f1.wf()
    &&& f1.holds(key)
    &&& f1.buffers()[key]@ == rgb_of(rgba)
    &&& f1.buffers().remove(key) == f0.buffers().remove(key)
    &&& f1.statistics() == f0.statistics()
    &&& f1.error() == f0.error()
}

/// Overwrites the frame's buffer under `key` with the RGB bytes of the
/// captured RGBA pixels, reusing the buffer.
pub fn store_capture(frame: &mut FrameData, key: u64, rgba: &Vec<u8>) -> (r: Result<(), CaptureError>)
    requires
        old(frame).wf(),
    ensures
        r is Ok <==> old(frame).holds(key),
        r is Ok ==> stored(*old(frame), *final(frame), key, rgba@),
        r is Err ==> *final(frame) == *old(frame),
{
    let ghost f0 = *frame;
    if frame.get_ref(key).is_none() {
        return Err(CaptureError::NoBuffer);
    }
    match frame.pull(key) {
        Some(buffer) => {
            let mut buffer = buffer;
            buffer.clear();
            append_rgb(&mut buffer, rgba);
            assert(buffer@ =~= rgb_of(rgba@));
            let _ = frame.push(key, buffer);
            assert(frame.buffers().remove(key) =~= f0.buffers().remove(key));
            Ok(())
        },
        None => Err(CaptureError::NoBuffer),
    }
}

/// Stores screenshots of the whole Wayland output in a frame's buffer.
pub struct WayshotCapturer {
    buffer_key: u64,
}

impl WayshotCapturer {
    /// The buffer key it writes to.
    pub closed spec fn key(&self) -> u64 {
        self.buffer_key
    }

    /// A capturer that writes to the buffer under `buffer_key`.
    pub fn new(buffer_key: u64) -> (r: WayshotCapturer)
        ensures
            r.key() == buffer_key,
    {
        WayshotCapturer { buffer_key }
    }

    /// Stores the captured RGBA pixels in the frame, as RGB.
    pub fn store(&self, frame: &mut FrameData, rgba: &Vec<u8>) -> (r: Result<(), CaptureError>)
        requires
            old(frame).wf(),
        ensures
            r is Ok <==> old(frame).holds(self.key()),
            r is Ok ==> stored(*old(frame), *final(frame), self.key(), rgba@),
            r is Err ==> *final(frame) == *old(frame),
    {
        store_capture(frame, self.buffer_key, rgba)
    }
}

/// Stores screenshots of one monitor in a frame's buffer.
pub struct XCapCapturer {
    buffer_key: u64,
    monitor_id: usize,
}

impl XCapCapturer {
    /// The buffer key it writes to.
    pub closed spec fn key(&self) -> u64 {
        self.buffer_key
    }

    /// The monitor it captures, by position among all monitors.
    pub closed spec fn monitor_spec(&self) -> usize {
        self.monitor_id
    }

    /// A capturer of monitor `monitor_id` that writes to the buffer under
    /// `buffer_key`.
    pub fn new(buffer_key: u64, monitor_id: usize) -> (r: XCapCapturer)
        ensures
            r.key() == buffer_key,
            r.monitor_spec() == monitor_id,
    {
        XCapCapturer { buffer_key, monitor_id }
    }

    /// The monitor it captures.
    pub fn monitor_id(&self) -> (r: usize)
        ensures
            r == self.monitor_spec(),
    {
        self.monitor_id
    }

    /// Stores the captured RGBA pixels in the frame, as RGB.
    pub fn store(&self, frame: &mut FrameData, rgba: &Vec<u8>) -> (r: Result<(), CaptureError>)
        requires
            old(frame).wf(),
        ensures
            r is Ok <==> old(frame).holds(self.key()),
            r is Ok ==> stored(*old(frame), *final(frame), self.key(), rgba@),
            r is Err ==> *final(frame) == *old(frame),
    {
        store_capture(frame, self.buffer_key, rgba)
    }
}

/// The size in bytes of an RGB picture of a display `(height, width)`.
pub fn expected_buffer_size_for_monitor(display_size: (u32, u32)) -> (r: usize)
    requires
        display_size.0 * display_size.1 * 3 <= usize::MAX,
    ensures
        r == display_size.0 * display_size.1 * 3,
{
    let (height, width) = display_size;
    assert(height * width <= height * width * 3) by (nonlinear_arith);
    height as usize * width as usize * 3
}

/// A copy of `src`.
fn copy_bytes(src: &Vec<u8>) -> (r: Vec<u8>)
    ensures
        r@ == src@,
{
    let mut r: Vec<u8> = Vec::new();
    let mut i: usize = 0;
    while i < src.len()
        invariant
            i <= src@.len(),
            r@ == src@.subrange(0, i as int),
        decreases src@.len() - i,
    {
        r.push(src[i]);
        i = i + 1;
        assert(r@ =~= src@.subrange(0, i as int));
    }
    assert(r@ =~= src@);
    r
}

/// Why a picture could not be saved.
#[derive(Clone, Copy, Debug, PartialEq, Eq, Structural)]
pub enum SaveError {
    /// The frame holds no buffer under the saver's key.
    NoBuffer,
    /// The buffer is shorter than a `width` by `height` RGB picture.
    TooShort,
}

/// Saves a frame's RGB buffer as numbered PNG pictures in a directory.
pub struct PNGBufferSaver {
    current_id: usize,
    height: u32,
    width: u32,
    buffer_key: u64,
    path: String,
}

impl PNGBufferSaver {
    /// How many pictures were taken so far.
    pub closed spec fn count(&self) -> usize {
        self.current_id
    }

    /// The picture height.
    pub closed spec fn height_spec(&self) -> u32 {
        self.height
    }

    /// The picture width.
    pub closed spec fn width_spec(&self) -> u32 {
        self.width
    }

    /// The buffer key it reads.
    pub closed spec fn key(&self) -> u64 {
        self.buffer_key
    }

    /// The directory the pictures go to.
    pub closed spec fn path_spec(&self) -> Seq<char> {
        self.path@
    }

    /// A saver of `width` by `height` pictures from the buffer under
    /// `buffer_key`, into the directory `path`; no picture taken yet.
    pub fn new(height: u32, width: u32, buffer_key: u64, path: String) -> (r: PNGBufferSaver)
        ensures
            r.count() == 0,
            r.height_spec() == height,
            r.width_spec() == width,
            r.key() == buffer_key,
            r.path_spec() == path@,
    {
        PNGBufferSaver { current_id: 0, height, width, buffer_key, path }
    }

    /// How many pictures were taken so far.
    pub fn saved_count(&self) -> (r: usize)
        ensures
            r == self.count(),
    {
        self.current_id
    }

    /// The directory the pictures go to.
    pub fn path(&self) -> (r: &String)
        ensures
            r@ == self.path_spec(),
    {
        &self.path
    }

    /// Takes the next picture from the frame, which it leaves as it is: its
    /// number, counting from 1, and a copy of its pixels.
    pub fn next_picture(&mut self, frame: &FrameData) -> (r: Result<(usize, Vec<u8>), SaveError>)
        requires
            frame.wf(),
            old(self).count() < usize::MAX,
        ensures
            final(self).height_spec() == old(self).height_spec(),
            final(self).width_spec() == old(self).width_spec(),
            final(self).key() == old(self).key(),
            final(self).path_spec() == old(self).path_spec(),
            r == Err::<(usize, Vec<u8>), SaveError>(SaveError::NoBuffer) <==> !frame.holds(
                old(self).key(),
            ),
            r == Err::<(usize, Vec<u8>), SaveError>(SaveError::TooShort) <==> frame.holds(
                old(self).key(),
            ) && frame.buffers()[old(self).key()]@.len() < old(self).width_spec()
                * old(self).height_spec() * 3,
            match r {
                Ok((id, pixels)) => {
                    &&& id == old(self).count() + 1
                    &&& final(self).count() == id
                    &&& pixels@ == frame.buffers()[old(self).key()]@
                },
                Err(_) => final(self).count() == old(self).count(),
            },
    {
        let buffer = match frame.get_ref(self.buffer_key) {
            Some(b) => b,
            None => return Err(SaveError::NoBuffer),
        };
        let w = self.width as u128;
        let h = self.height as u128;
        assert(w * h <= 0xffff_ffffu128 * 0xffff_ffffu128) by (nonlinear_arith)
            requires
                w <= 0xffff_ffffu128,
                h <= 0xffff_ffffu128,
        ;
        let needed = w * h * 3;
        if (buffer.len() as u128) < needed {
            return Err(SaveError::TooShort);
        }
        self.current_id = self.current_id + 1;
        Ok((self.current_id, copy_bytes(buffer)))
    }
}

} // verus!
