use vstd::prelude::*;

use crate::error::DecoderError;

verus! {

/// Number of bytes in one pixel (RGBA, eight bits per channel).
pub const BYTES_PER_PIXEL: usize = 4;

/// Length in bytes of the pixel buffer of a `width` x `height` frame.
pub open spec fn frame_len(width: nat, height: nat) -> nat {
    width * height * 4
}

/// One decoded image: a pixel buffer with its presentation time and keyframe flag.
pub struct Frame {
    pub width: usize,
    pub height: usize,
    pub data: Vec<u8>,
    /// Presentation time; non-decreasing within a session.
    pub timestamp: u64,
    pub is_keyframe: bool,
}

/// What a frame holds, with its pixel buffer as a sequence of bytes.
pub struct FrameView {
    pub width: usize,
    pub height: usize,
    pub data: Seq<u8>,
    pub timestamp: u64,
    pub is_keyframe: bool,
}

impl View for Frame {
    type V = FrameView;

    open spec fn view(&self) -> FrameView {
        FrameView {
            width: self.width,
            height: self.height,
            data: self.data@,
            timestamp: self.timestamp,
            is_keyframe: self.is_keyframe,
        }
    }
}

impl Clone for Frame {
    /// A copy with the same dimensions, bytes, timestamp and keyframe flag.
    fn clone(&self) -> (r: Frame)
        ensures
            r@ == self@,
    {
        Frame {
            width: self.width,
            height: self.height,
            data: self.data.clone(),
            timestamp: self.timestamp,
            is_keyframe: self.is_keyframe,
        }
    }
}

impl Frame {
    /// The buffer length matches the dimensions.
    pub open spec fn wf(&self) -> bool {
        self.data@.len() == frame_len(self.width as nat, self.height as nat)
    }

    /// A black frame of the given size, at time zero, not a keyframe.
    pub fn new(width: usize, height: usize) -> (r: Frame)
        requires
            frame_len(width as nat, height as nat) <= usize::MAX,
        ensures
            r.wf(),
            r.width == width,
            r.height == height,
            r.data@ == Seq::new(frame_len(width as nat, height as nat), |i: int| 0u8),
            r.timestamp == 0,
            !r.is_keyframe,
    {
        proof {
            assert(width * height <= width * height * 4) by (nonlinear_arith);
        }
        let len: usize = width * height * BYTES_PER_PIXEL;
        let data: Vec<u8> = vec![0u8; len];
        Frame { width, height, data, timestamp: 0, is_keyframe: false }
    }

    /// Replaces the pixel buffer; the new buffer must fit the frame's dimensions.
    pub fn set_data(&mut self, data: Vec<u8>)
        requires
            data@.len() == frame_len(old(self).width as nat, old(self).height as nat),
        ensures
            final(self).wf(),
            final(self)@ == (FrameView { data: data@, ..old(self)@ }),
    {
        self.data = data;
    }

    /// A frame built from a pixel buffer, rejected when the buffer does not fit the dimensions.
    pub fn from_data(width: usize, height: usize, data: Vec<u8>, timestamp: u64, is_keyframe: bool)
        -> (r: Result<Frame, DecoderError>)
        ensures
            data@.len() == frame_len(width as nat, height as nat) <==> r.is_ok(),
            r matches Ok(f) ==> f@ == (FrameView { width, height, data: data@, timestamp, is_keyframe }),
            r matches Err(e) ==> e == (DecoderError::MalformedFrameInput {
                width,
                height,
                actual: data@.len() as usize,
            }),
    {
        let ok = match width.checked_mul(height) {
            Some(area) => match area.checked_mul(BYTES_PER_PIXEL) {
                Some(len) => len == data.len(),
                None => false,
            },
            None => false,
        };
        if ok {
            Ok(Frame { width, height, data, timestamp, is_keyframe })
        } else {
            Err(DecoderError::MalformedFrameInput { width, height, actual: data.len() })
        }
    }
}

} // verus!
