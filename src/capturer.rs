//! The capturer: one probe of the bridge per call, orientation
//! normalisation, and the borrowed `PixelBuffer` view of the result.
//!
//! A call of `frame` takes what the bridge handed over: the newest raw frame
//! when it differs from the previous snapshot, and the `rotation` answer.
//! When the frame needs rotating, `frame` says how (`RotateCall`); the engine
//! writes into the buffer that `take_scratch` hands out, and
//! `finish_rotation` makes that buffer the output.

use vstd::prelude::*;

use crate::response::{get_rotation, opt_view, rotation_degrees_of};
use crate::rotation::{mode_of_degrees, rotated_dims, RotationMode};
use crate::screen::Display;

verus! {

/// Layout of the pixels of a `PixelBuffer`.
#[derive(Clone, Copy, Debug, PartialEq, Eq, Structural)]
pub enum Pixfmt {
    RGBA,
}

/// Read-only view of one frame: packed pixels in a single plane.
pub struct PixelBuffer<'a> {
    data: &'a [u8],
    width: usize,
    height: usize,
    stride: Vec<usize>,
}

impl<'a> PixelBuffer<'a> {
    pub closed spec fn spec_data(&self) -> Seq<u8> {
        self.data@
    }

    pub closed spec fn spec_width(&self) -> nat {
        self.width as nat
    }

    pub closed spec fn spec_height(&self) -> nat {
        self.height as nat
    }

    pub closed spec fn spec_stride(&self) -> Seq<usize> {
        self.stride@
    }

    /// A view of `data` as `width × height` pixels; the one stride is the
    /// length of the data over the height.
    pub fn new(data: &'a [u8], width: usize, height: usize) -> (r: PixelBuffer<'a>)
        requires
            height > 0,
        ensures
            r.spec_data() == data@,
            r.spec_width() == width,
            r.spec_height() == height,
            r.spec_stride() == seq![(data@.len() / height as nat) as usize],
    {
        let stride0 = data.len() / height;
        let mut stride: Vec<usize> = Vec::new();
        stride.push(stride0);
        PixelBuffer { data, width, height, stride }
    }

    pub fn data(&self) -> (r: &[u8])
        ensures
            r@ == self.spec_data(),
    {
        self.data
    }

    pub fn width(&self) -> (r: usize)
        ensures
            r == self.spec_width(),
    {
        self.width
    }

    pub fn height(&self) -> (r: usize)
        ensures
            r == self.spec_height(),
    {
        self.height
    }

    pub fn stride(&self) -> (r: Vec<usize>)
        ensures
            r@ == self.spec_stride(),
    {
        let r = self.stride.clone();
        assert(r@ =~= self.stride@);
        r
    }

    pub fn pixfmt(&self) -> (r: Pixfmt)
        ensures
            r == Pixfmt::RGBA,
    {
        Pixfmt::RGBA
    }
}

/// Why a call of the capturer produced no frame.
#[derive(Clone, Copy, Debug, PartialEq, Eq, Structural)]
pub enum FrameError {
    /// No new frame this call; the caller retries at its own pace.
    WouldBlock,
    /// A rotated buffer whose length is not that of a frame of the display.
    InvalidBufferSize,
}

/// Arguments for the rotation engine: it reads the output buffer as a
/// `src_width × src_height` frame and writes a frame of the display's
/// dimensions into the scratch buffer.
#[derive(Clone, Copy, Debug, PartialEq, Eq, Structural)]
pub struct RotateCall {
    pub src_width: usize,
    pub src_height: usize,
    pub src_stride: usize,
    pub dst_stride: usize,
    pub mode: RotationMode,
}

/// The engine call for a frame that is to come out `width × height` after
/// rotating by `mode`: the source has the axes swapped when the mode swaps
/// them, and four bytes a pixel.
pub open spec fn is_rotate_call_for(call: RotateCall, width: nat, height: nat, mode: RotationMode) -> bool {
    let (sw, sh) = rotated_dims(width, height, mode);
    &&& call.src_width == sw
    &&& call.src_height == sh
    &&& call.src_stride == sw * 4
    &&& call.dst_stride == width * 4
    &&& call.mode == mode
}

/// What a call of `frame` that found a new frame leaves to do.
#[derive(Clone, Copy, Debug, PartialEq, Eq, Structural)]
pub enum FrameStep {
    /// The output buffer holds the frame as it is to be shown.
    Ready,
    /// The output buffer is to be rotated into the scratch buffer.
    Rotate(RotateCall),
}

/// Rotating the source that a `RotateCall` describes by its mode gives a
/// frame of the display's own dimensions, whatever the mode.
pub proof fn lemma_rotate_call_restores_dims(call: RotateCall, width: nat, height: nat, mode: RotationMode)
    requires
        is_rotate_call_for(call, width, height, mode),
    ensures
        rotated_dims(call.src_width as nat, call.src_height as nat, call.mode) == (width, height),
        mode.swaps() ==> call.src_width == height && call.src_height == width,
        !mode.swaps() ==> call.src_width == width && call.src_height == height,
{
}

pub struct Capturer {
    display: Display,
    rgba: Vec<u8>,
    scratch: Vec<u8>,
    rotation: u16,
    saved_raw_data: Vec<u8>,
}

impl Capturer {
    pub closed spec fn spec_display(&self) -> Display {
        self.display
    }

    /// The buffer that the current frame is read from.
    pub closed spec fn output(&self) -> Seq<u8> {
        self.rgba@
    }

    /// The buffer the rotation engine writes into.
    pub closed spec fn scratch(&self) -> Seq<u8> {
        self.scratch@
    }

    /// The raw frame last taken from the bridge, against which it detects
    /// change.
    pub closed spec fn snapshot(&self) -> Seq<u8> {
        self.saved_raw_data@
    }

    /// The rotation angle, reduced modulo 360, of the last new frame.
    pub closed spec fn last_rotation(&self) -> u16 {
        self.rotation
    }

    pub open spec fn target_width(&self) -> nat {
        self.spec_display().spec_width()
    }

    pub open spec fn target_height(&self) -> nat {
        self.spec_display().spec_height()
    }

    /// Byte length of a packed four-byte-a-pixel frame of the display.
    pub open spec fn frame_len(&self) -> nat {
        self.target_width() * self.target_height() * 4
    }

    pub fn new(display: Display) -> (r: Capturer)
        ensures
            r.spec_display() == display,
            r.output() == Seq::<u8>::empty(),
            r.scratch() == Seq::<u8>::empty(),
            r.snapshot() == Seq::<u8>::empty(),
            r.last_rotation() == 360,
    {
        Capturer {
            display,
            rgba: Vec::new(),
            scratch: Vec::new(),
            rotation: 360,
            saved_raw_data: Vec::new(),
        }
    }

    pub fn width(&self) -> (r: usize)
        ensures
            r == self.target_width(),
            r <= u16::MAX,
    {
        self.display.width()
    }

    pub fn height(&self) -> (r: usize)
        ensures
            r == self.target_height(),
            r <= u16::MAX,
    {
        self.display.height()
    }

    /// The raw frame last taken from the bridge, for it to compare against.
    pub fn previous_snapshot(&self) -> (r: &[u8])
        ensures
            r@ == self.snapshot(),
    {
        self.saved_raw_data.as_slice()
    }

    /// The current output buffer, which the rotation engine reads.
    pub fn output_buffer(&self) -> (r: &[u8])
        ensures
            r@ == self.output(),
    {
        self.rgba.as_slice()
    }

    /// One probe. `pulled` is the bridge's newest raw frame when it differs
    /// from the previous snapshot, and `None` when there is nothing new;
    /// `rotation_response` is the bridge's `rotation` answer.
    ///
    /// Without a new frame this fails with `WouldBlock` and changes nothing.
    /// With one, the frame becomes both the output and the snapshot, and the
    /// rotation is resolved: with none the frame is `Ready`; otherwise the
    /// scratch buffer is sized to one frame and the engine call is returned.
    pub fn frame(&mut self, pulled: Option<Vec<u8>>, rotation_response: Option<&str>) -> (r: Result<FrameStep, FrameError>)
        requires
            old(self).frame_len() <= usize::MAX,
        ensures
            pulled is None ==> r == Err::<FrameStep, FrameError>(FrameError::WouldBlock) && *final(self) == *old(self),
            pulled matches Some(raw) ==> {
                let degrees = rotation_degrees_of(opt_view(rotation_response));
                let mode = mode_of_degrees(degrees);
                &&& final(self).spec_display() == old(self).spec_display()
                &&& final(self).output() == raw@
                &&& final(self).snapshot() == raw@
                &&& final(self).last_rotation() == degrees % 360
                &&& mode == RotationMode::Rotate0 ==> {
                    &&& r == Ok::<FrameStep, FrameError>(FrameStep::Ready)
                    &&& final(self).scratch() == old(self).scratch()
                }
                &&& mode != RotationMode::Rotate0 ==> {
                    &&& r matches Ok(FrameStep::Rotate(call))
                    &&& is_rotate_call_for(call, old(self).target_width(), old(self).target_height(), mode)
                    &&& final(self).scratch().len() == old(self).frame_len()
                }
            },
    {
        match pulled {
            None => Err(FrameError::WouldBlock),
            Some(raw) => {
                let snapshot = raw.clone();
                assert(snapshot@ =~= raw@);
                self.saved_raw_data = snapshot;
                self.rgba = raw;
                let target_w = self.width();
                let target_h = self.height();
                let rotation = get_rotation(rotation_response) % 360;
                self.rotation = rotation;
                let mode = RotationMode::from_degrees(rotation);
                if mode == RotationMode::Rotate0 {
                    return Ok(FrameStep::Ready);
                }
                let (src_w, src_h) = if mode.swaps_axes() {
                    (target_h, target_w)
                } else {
                    (target_w, target_h)
                };
                assert(target_w * target_h * 4 <= usize::MAX);
                let dst_len = target_w * target_h * 4;
                self.scratch.resize(dst_len, 0u8);
                Ok(
                    FrameStep::Rotate(
                        RotateCall {
                            src_width: src_w,
                            src_height: src_h,
                            src_stride: src_w * 4,
                            dst_stride: target_w * 4,
                            mode,
                        },
                    ),
                )
            },
        }
    }

    /// Hands the scratch buffer to the rotation engine, leaving an empty one.
    pub fn take_scratch(&mut self) -> (r: Vec<u8>)
        ensures
            r@ == old(self).scratch(),
            final(self).scratch() == Seq::<u8>::empty(),
            final(self).output() == old(self).output(),
            final(self).snapshot() == old(self).snapshot(),
            final(self).last_rotation() == old(self).last_rotation(),
            final(self).spec_display() == old(self).spec_display(),
    {
        let mut out: Vec<u8> = Vec::new();
        std::mem::swap(&mut out, &mut self.scratch);
        out
    }

    /// Takes the engine's result as the new output; the former output becomes
    /// the (emptied) scratch buffer, so no copy is made. A buffer whose length
    /// is not one frame of the display is refused and changes nothing.
    pub fn finish_rotation(&mut self, rotated: Vec<u8>) -> (r: Result<(), FrameError>)
        ensures
            rotated@.len() != old(self).frame_len() ==> {
                &&& r == Err::<(), FrameError>(FrameError::InvalidBufferSize)
                &&& *final(self) == *old(self)
            },
            rotated@.len() == old(self).frame_len() ==> {
                &&& r == Ok::<(), FrameError>(())
                &&& final(self).output() == rotated@
                &&& final(self).scratch() == Seq::<u8>::empty()
                &&& final(self).snapshot() == old(self).snapshot()
                &&& final(self).last_rotation() == old(self).last_rotation()
                &&& final(self).spec_display() == old(self).spec_display()
            },
    {
        let target_w = self.width() as u64;
        let target_h = self.height() as u64;
        assert(target_w * target_h * 4 <= 65535 * 65535 * 4) by (nonlinear_arith)
            requires
                target_w <= 65535,
                target_h <= 65535,
        ;
        if rotated.len() as u64 != target_w * target_h * 4 {
            return Err(FrameError::InvalidBufferSize);
        }
        let mut rotated = rotated;
        std::mem::swap(&mut self.rgba, &mut rotated);
        self.scratch = rotated;
        self.scratch.clear();
        Ok(())
    }

    /// The current frame, at the display's logical dimensions whatever the
    /// rotation it was taken at.
    pub fn pixel_buffer(&self) -> (r: PixelBuffer<'_>)
        requires
            self.target_height() > 0,
        ensures
            r.spec_data() == self.output(),
            r.spec_width() == self.target_width(),
            r.spec_height() == self.target_height(),
            r.spec_stride() == seq![(self.output().len() / self.target_height()) as usize],
    {
        PixelBuffer::new(self.rgba.as_slice(), self.width(), self.height())
    }
}

} // verus!
