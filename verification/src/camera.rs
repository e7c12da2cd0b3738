//! Camera abstraction: one trait, one synthetic backend for tests and
//! offline pipelines.
//!
//! Cameras lend out their frame buffer: `next_frame(&mut self)` returns a
//! [`Frame`] borrowing the camera, so the caller releases a frame before
//! pulling the next one.

use vstd::prelude::*;
use crate::sample::Timestamp;
use core::convert::Infallible;

verus! {

/// Pixel format of a [`Frame`].
#[derive(Debug, Clone, Copy, PartialEq, Eq, Structural)]
pub enum FrameFormat {
    /// 8 bits per channel, RGBA.
    Rgba8,
    /// 8 bits per channel, BGRA.
    Bgra8,
    /// Single 8-bit luminance channel.
    Gray8,
}

/// Bytes per pixel of `format`.
pub open spec fn pixel_bytes(format: FrameFormat) -> nat {
    match format {
        FrameFormat::Rgba8 => 4,
        FrameFormat::Bgra8 => 4,
        FrameFormat::Gray8 => 1,
    }
}

impl FrameFormat {
    /// Bytes per pixel.
    pub fn bytes_per_pixel(&self) -> (n: usize)
        ensures
            n == pixel_bytes(*self),
    {
        match self {
            FrameFormat::Rgba8 | FrameFormat::Bgra8 => 4,
            FrameFormat::Gray8 => 1,
        }
    }
}

/// Size in bytes of a `width` x `height` buffer in `format`.
pub open spec fn buffer_len(width: u32, height: u32, format: FrameFormat) -> int {
    width as int * height as int * pixel_bytes(format)
}

/// A frame buffer holds `width * height` pixels of `bytes_per_pixel`
/// bytes each: four bytes per pixel for the RGBA and BGRA formats, one for
/// the luminance format, for every width and height.
pub proof fn lemma_buffer_len_is_pixel_product(width: u32, height: u32)
    ensures
        buffer_len(width, height, FrameFormat::Rgba8) == 4 * (width as int * height as int),
        buffer_len(width, height, FrameFormat::Bgra8) == 4 * (width as int * height as int),
        buffer_len(width, height, FrameFormat::Gray8) == width as int * height as int,
{
    assert(width as int * height as int * 4 == 4 * (width as int * height as int)) by (nonlinear_arith);
    assert(width as int * height as int * 1 == width as int * height as int) by (nonlinear_arith);
}

/// One captured frame. Borrows its pixel buffer from the producing camera.
#[derive(Debug)]
pub struct Frame<'a> {
    /// Host-monotonic time of capture.
    pub t: Timestamp,
    /// Frame width in pixels.
    pub width: u32,
    /// Frame height in pixels.
    pub height: u32,
    /// Pixel format.
    pub format: FrameFormat,
    /// Pixel buffer of `width * height * format.bytes_per_pixel()` bytes.
    pub data: &'a [u8],
}

/// A frame source.
pub trait Camera {
    /// Error type produced by `next_frame`.
    type Error;

    /// Whether the camera is able to hand out one more frame.
    spec fn can_capture(&self) -> bool;

    /// Pull the next frame. Backends decide the blocking semantics.
    fn next_frame(&mut self) -> (r: Result<Frame<'_>, Self::Error>)
        requires
            old(self).can_capture(),
    ;
}

/// Timestamp, in nanoseconds, of frame number `index` of a camera that
/// starts at zero and advances by `period` per frame, saturating at the
/// largest representable timestamp.
pub open spec fn frame_timestamp_nanos(index: nat, period: u64) -> u64 {
    if index * period > u64::MAX {
        u64::MAX
    } else {
        (index * period) as u64
    }
}

/// The state of a [`SyntheticCamera`] as contracts see it.
pub struct SyntheticCameraView {
    /// Frame width in pixels.
    pub width: u32,
    /// Frame height in pixels.
    pub height: u32,
    /// Pixel format.
    pub format: FrameFormat,
    /// Per-frame timestamp increment in nanoseconds.
    pub frame_period_ns: u64,
    /// Timestamp of the next frame to be emitted.
    pub next_t_ns: u64,
    /// Frames emitted since construction.
    pub frames_emitted: u64,
    /// Contents of the pixel buffer.
    pub pixels: Seq<u8>,
}

/// Test camera that emits a sequence of synthetic frames at a fixed cadence.
///
/// Each frame's pixel buffer is filled with the low byte of the frame index,
/// so a consumer can tell frames apart by inspecting any single byte.
pub struct SyntheticCamera {
    width: u32,
    height: u32,
    format: FrameFormat,
    buffer: Vec<u8>,
    frame_period_ns: u64,
    next_t_ns: u64,
    frames_emitted: u64,
}

impl View for SyntheticCamera {
    type V = SyntheticCameraView;

    closed spec fn view(&self) -> SyntheticCameraView {
        SyntheticCameraView {
            width: self.width,
            height: self.height,
            format: self.format,
            frame_period_ns: self.frame_period_ns,
            next_t_ns: self.next_t_ns,
            frames_emitted: self.frames_emitted,
            pixels: self.buffer@,
        }
    }
}

impl SyntheticCamera {
    /// The buffer always holds one frame's worth of pixels, and the next
    /// timestamp is the saturated product of the frame count and the period.
    pub closed spec fn well_formed(&self) -> bool {
        &&& self.buffer@.len() == buffer_len(self.width, self.height, self.format)
        &&& self.next_t_ns == frame_timestamp_nanos(self.frames_emitted as nat, self.frame_period_ns)
    }

    /// New synthetic camera. `frame_period_ns` is the per-frame timestamp
    /// increment; pass e.g. `33_333_333` for 30 Hz.
    pub fn new(width: u32, height: u32, format: FrameFormat, frame_period_ns: u64) -> (cam: Self)
        requires
            buffer_len(width, height, format) <= usize::MAX,
        ensures
            cam.well_formed(),
            cam@.width == width,
            cam@.height == height,
            cam@.format == format,
            cam@.frame_period_ns == frame_period_ns,
            cam@.next_t_ns == 0,
            cam@.frames_emitted == 0,
            cam@.pixels == Seq::new(buffer_len(width, height, format) as nat, |i: int| 0u8),
            cam@.pixels.len() == width as int * height as int * pixel_bytes(format),
    {
        let bpp = format.bytes_per_pixel();
        assert((width as usize) as int * (height as usize) as int <= buffer_len(width, height, format))
            by (nonlinear_arith)
            requires
                bpp >= 1,
                buffer_len(width, height, format) == width as int * height as int * bpp as int,
        ;
        let len = (width as usize) * (height as usize) * bpp;
        let buffer: Vec<u8> = vec![0u8; len];
        assert(buffer@ == Seq::new(len as nat, |i: int| 0u8));
        SyntheticCamera {
            width,
            height,
            format,
            buffer,
            frame_period_ns,
            next_t_ns: 0,
            frames_emitted: 0,
        }
    }

    /// Total frames emitted since construction.
    pub fn frames_emitted(&self) -> (n: u64)
        ensures
            n == self@.frames_emitted,
    {
        self.frames_emitted
    }
}

/// Advancing the frame count by one advances the saturated timestamp by
/// one period, saturating again.
proof fn lemma_frame_timestamp_step(index: nat, period: u64)
    ensures
        frame_timestamp_nanos(index + 1, period) == if frame_timestamp_nanos(index, period) + period > u64::MAX {
            u64::MAX
        } else {
            (frame_timestamp_nanos(index, period) + period) as u64
        },
{
    assert((index + 1) * period == index * period + period) by (nonlinear_arith);
    assert(index * period >= 0) by (nonlinear_arith);
}

/// Frame timestamps never go backwards: a later frame index never carries
/// an earlier timestamp, and while the product stays representable a later
/// frame of a camera with a positive period carries a strictly later one.
pub proof fn lemma_frame_timestamps_monotonic(i: nat, j: nat, period: u64)
    requires
        i <= j,
    ensures
        frame_timestamp_nanos(i, period) <= frame_timestamp_nanos(j, period),
        i < j && period > 0 && j * period <= u64::MAX ==> frame_timestamp_nanos(i, period)
            < frame_timestamp_nanos(j, period),
{
    assert(i * period <= j * period) by (nonlinear_arith)
        requires
            i <= j,
    ;
    if i < j && period > 0 {
        assert(i * period < j * period) by (nonlinear_arith)
            requires
                i < j,
                period > 0,
        ;
    }
}

/// Two consecutive frames are filled with different bytes, so a consumer
/// can tell them apart from any single pixel byte.
pub proof fn lemma_consecutive_frames_distinguishable(index: nat)
    ensures
        (index % 256) as u8 != ((index + 1) % 256) as u8,
{
}

impl Camera for SyntheticCamera {
    type Error = Infallible;

    open spec fn can_capture(&self) -> bool {
        self.well_formed() && self@.frames_emitted < u64::MAX
    }

    /// Fill the buffer with the low byte of the frame index, stamp the frame
    /// with the current timestamp, and advance the timestamp by one period
    /// (saturating) and the frame count by one.
    fn next_frame(&mut self) -> (r: Result<Frame<'_>, Infallible>)
        ensures
            r matches Ok(frame) && {
                &&& frame.t == Timestamp(old(self)@.next_t_ns)
                &&& frame.t.0 == frame_timestamp_nanos(old(self)@.frames_emitted as nat, old(self)@.frame_period_ns)
                &&& frame.width == old(self)@.width
                &&& frame.height == old(self)@.height
                &&& frame.format == old(self)@.format
                &&& frame.data@ == Seq::new(
                    buffer_len(old(self)@.width, old(self)@.height, old(self)@.format) as nat,
                    |i: int| (old(self)@.frames_emitted % 256) as u8,
                )
                &&& frame.data@ == final(self)@.pixels
                &&& frame.data@.len() == old(self)@.width as int * old(self)@.height as int
                    * pixel_bytes(old(self)@.format)
            },
            final(self).well_formed(),
            final(self)@.width == old(self)@.width,
            final(self)@.height == old(self)@.height,
            final(self)@.format == old(self)@.format,
            final(self)@.frame_period_ns == old(self)@.frame_period_ns,
            final(self)@.frames_emitted == old(self)@.frames_emitted + 1,
            final(self)@.next_t_ns == frame_timestamp_nanos(final(self)@.frames_emitted as nat, final(self)@.frame_period_ns),
    {
        let idx_byte = (self.frames_emitted % 256) as u8;
        let n = self.buffer.len();
        let mut i: usize = 0;
        while i < n
            invariant
                self.buffer@.len() == n,
                0 <= i <= n,
                self.width == old(self).width,
                self.height == old(self).height,
                self.format == old(self).format,
                self.frame_period_ns == old(self).frame_period_ns,
                self.next_t_ns == old(self).next_t_ns,
                self.frames_emitted == old(self).frames_emitted,
                idx_byte == (self.frames_emitted % 256) as u8,
                forall|j: int| 0 <= j < i ==> self.buffer@[j] == idx_byte,
            decreases n - i,
        {
            self.buffer.set(i, idx_byte);
            i = i + 1;
        }
        assert(self.buffer@ =~= Seq::new(n as nat, |j: int| idx_byte));

        let t = Timestamp::from_nanos(self.next_t_ns);
        proof {
            lemma_frame_timestamp_step(self.frames_emitted as nat, self.frame_period_ns);
        }
        self.next_t_ns = self.next_t_ns.saturating_add(self.frame_period_ns);
        self.frames_emitted = self.frames_emitted + 1;

        Ok(Frame {
            t,
            width: self.width,
            height: self.height,
            format: self.format,
            data: self.buffer.as_slice(),
        })
    }
}

} // verus!
