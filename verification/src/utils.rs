//! What an application says about the video that it feeds into the pipeline.

use vstd::prelude::*;

use crate::lists::{lemma_filter_map_add, lemma_filter_map_short, present};

verus! {

/// The pixel formats that an application can deliver.
#[derive(Clone, Copy, Debug, PartialEq, Eq, Structural)]
pub enum BsVideoFormat {
    RGBA8,
}

/// The video that an application delivers.
#[derive(Clone, Copy, Debug, PartialEq, Eq, Structural)]
pub struct BsVideoConfig {
    pub format: BsVideoFormat,
    pub width: u32,
    pub height: u32,
    pub framerate: u32,
}

/// The pixel formats of the media framework that the agent asks for.
#[derive(Clone, Copy, Debug, PartialEq, Eq, Structural)]
pub enum PixelFormat {
    Rgba,
}

/// The video as it is described to the media framework. The frame rate is the fraction
/// `fps_numerator / fps_denominator`.
#[derive(Clone, Copy, Debug, PartialEq, Eq, Structural)]
pub struct VideoParameters {
    pub format: PixelFormat,
    pub width: u32,
    pub height: u32,
    pub fps_numerator: i32,
    pub fps_denominator: i32,
}

/// The signed number with the same 32 bits as `n`.
pub open spec fn reinterpreted(n: u32) -> int {
    if n <= i32::MAX {
        n as int
    } else {
        n - 0x1_0000_0000
    }
}

impl BsVideoConfig {
    /// The video that is announced when no application is attached: 256 by 256 pixels, ten
    /// frames a second.
    pub fn standalone() -> (result: BsVideoConfig)
        ensures
            result == (BsVideoConfig {
                format: BsVideoFormat::RGBA8,
                width: 256,
                height: 256,
                framerate: 10,
            }),
    {
        BsVideoConfig { format: BsVideoFormat::RGBA8, width: 256, height: 256, framerate: 10 }
    }

    /// The description of this video for the media framework.
    pub fn parameters(&self) -> (result: VideoParameters)
        ensures
            result.format == PixelFormat::Rgba,
            result.width == self.width,
            result.height == self.height,
            result.fps_numerator == reinterpreted(self.framerate),
            result.fps_denominator == 1,
    {
        let framerate: u32 = self.framerate;
        assert(framerate <= 0x7fff_ffff ==> framerate as i32 == framerate) by (bit_vector);
        assert(framerate > 0x7fff_ffff ==> framerate as i32 == framerate - 0x1_0000_0000)
            by (bit_vector);
        let format = match self.format {
            BsVideoFormat::RGBA8 => PixelFormat::Rgba,
        };
        VideoParameters {
            format,
            width: self.width,
            height: self.height,
            fps_numerator: framerate as i32,
            fps_denominator: 1,
        }
    }
}

/// What happens each time the pipeline asks for a frame.
#[derive(Clone, Copy, Debug, PartialEq, Eq)]
pub struct FrameRequest {
    /// The size of the buffer that is allocated for the frame.
    pub buffer_size: usize,
    /// The application's object and the length that the application is told, if it asked to
    /// be called.
    pub call: Option<(usize, u32)>,
}

/// The request for a frame of `video_size` bytes. The application is told the length as 32
/// bits; the buffer is pushed into the pipeline whether or not there is one to fill it.
pub fn frame_request(obj: usize, video_size: usize, has_callback: bool) -> (result: FrameRequest)
    ensures
        result.buffer_size == video_size,
        has_callback ==> result.call == Some((obj, (video_size as int % 0x1_0000_0000) as u32)),
        !has_callback ==> result.call is None,
{
    let wide: u64 = video_size as u64;
    assert(wide as u32 == wide % 0x1_0000_0000) by (bit_vector);
    let call = if has_callback {
        Some((obj, wide as u32))
    } else {
        None
    };
    FrameRequest { buffer_size: video_size, call }
}

/// One step that serves a request for a frame.
#[derive(Clone, Copy, Debug, PartialEq, Eq, Structural)]
pub enum FrameStep {
    /// Allocate a buffer of this size.
    Allocate(usize),
    /// Give the buffer the running time of the source as its time stamp.
    Stamp,
    /// Let the application with this object fill the buffer, and tell it this length.
    Fill { obj: usize, length: u32 },
    /// Push the buffer into the pipeline. The source itself handles a failure: it is ignored
    /// here.
    Push,
}

/// The steps that serve one request, in order.
pub open spec fn frame_steps(request: FrameRequest) -> Seq<FrameStep> {
    seq![FrameStep::Allocate(request.buffer_size), FrameStep::Stamp] + (match request.call {
        Some((obj, length)) => seq![FrameStep::Fill { obj, length }, FrameStep::Push],
        None => seq![FrameStep::Push],
    })
}

impl FrameRequest {
    /// The steps that serve this request, in order.
    pub fn steps(&self) -> (result: Vec<FrameStep>)
        ensures
            result@ == frame_steps(*self),
    {
        let mut result: Vec<FrameStep> = vec![
            FrameStep::Allocate(self.buffer_size),
            FrameStep::Stamp,
        ];
        if let Some((obj, length)) = self.call {
            result.push(FrameStep::Fill { obj, length });
        }
        result.push(FrameStep::Push);
        assert(result@ =~= frame_steps(*self));
        result
    }
}

/// The steps that serve a request that is made `times` times.
pub open spec fn frames(request: FrameRequest, times: nat) -> Seq<FrameStep>
    decreases times,
{
    if times == 0 {
        Seq::empty()
    } else {
        frames(request, (times - 1) as nat) + frame_steps(request)
    }
}

/// The size of the buffer that a step allocates.
pub open spec fn allocated(step: FrameStep) -> Option<usize> {
    match step {
        FrameStep::Allocate(size) => Some(size),
        _ => None,
    }
}

/// What a step calls the application with.
pub open spec fn filled(step: FrameStep) -> Option<(usize, u32)> {
    match step {
        FrameStep::Fill { obj, length } => Some((obj, length)),
        _ => None,
    }
}

/// Whether a step pushes a buffer.
pub open spec fn pushed(step: FrameStep) -> Option<()> {
    match step {
        FrameStep::Push => Some(()),
        _ => None,
    }
}

/// What one request makes the steps do that `pick` picks.
proof fn lemma_picked<B>(request: FrameRequest, pick: spec_fn(FrameStep) -> Option<B>)
    ensures
        frame_steps(request).filter_map(pick) == present(
            pick(FrameStep::Allocate(request.buffer_size)),
        ) + present(pick(FrameStep::Stamp)) + (match request.call {
            Some((obj, length)) => present(pick(FrameStep::Fill { obj, length })),
            None => Seq::empty(),
        }) + present(pick(FrameStep::Push)),
{
    let steps = frame_steps(request);
    let front = steps.take(2);
    let back = steps.skip(2);
    assert(steps == front + back);
    lemma_filter_map_add(front, back, pick);
    lemma_filter_map_short(front, pick);
    lemma_filter_map_short(back, pick);
    assert(front[0] == FrameStep::Allocate(request.buffer_size));
    assert(front[1] == FrameStep::Stamp);
}

/// Each time a frame is asked for, one buffer of the size of a frame is allocated and pushed,
/// whether or not there is an application to fill it; an application that asked to be called is
/// called once, with its object and the length.
pub proof fn each_request_pushes_one_frame(request: FrameRequest, times: nat)
    ensures
        frames(request, times).filter_map(|s: FrameStep| allocated(s)) == Seq::new(
            times,
            |i: int| request.buffer_size,
        ),
        frames(request, times).filter_map(|s: FrameStep| pushed(s)) == Seq::new(times, |i: int| ()),
        request.call matches Some(call) ==> frames(request, times).filter_map(
            |s: FrameStep| filled(s),
        ) == Seq::new(times, |i: int| call),
        request.call is None ==> frames(request, times).filter_map(|s: FrameStep| filled(s))
            == Seq::<(usize, u32)>::empty(),
    decreases times,
{
    if times > 0 {
        let before = frames(request, (times - 1) as nat);
        let steps = frame_steps(request);
        each_request_pushes_one_frame(request, (times - 1) as nat);
        lemma_filter_map_add(before, steps, |s: FrameStep| allocated(s));
        lemma_filter_map_add(before, steps, |s: FrameStep| pushed(s));
        lemma_filter_map_add(before, steps, |s: FrameStep| filled(s));
        lemma_picked(request, |s: FrameStep| allocated(s));
        lemma_picked(request, |s: FrameStep| pushed(s));
        lemma_picked(request, |s: FrameStep| filled(s));
    }
}

/// A frame rate keeps its 32 bits when it is read as a signed number.
pub proof fn reinterpreting_keeps_the_bits(n: u32)
    ensures
        -0x8000_0000 <= reinterpreted(n) < 0x8000_0000,
        (reinterpreted(n) - n) % 0x1_0000_0000 == 0,
{
}

/// A frame is allocated first and pushed last; in between it is given its time and, by an
/// application that asked to be called and by no other, its content.
pub proof fn frame_is_filled_before_it_is_pushed(size: usize, call: Option<(usize, u32)>)
    ensures
        ({
            let steps = frame_steps(FrameRequest { buffer_size: size, call });
            &&& steps[0] == FrameStep::Allocate(size)
            &&& steps[1] == FrameStep::Stamp
            &&& steps.last() == FrameStep::Push
            &&& call matches Some((obj, length)) ==> steps.len() == 4 && steps[2]
                == (FrameStep::Fill { obj, length })
            &&& call is None ==> steps.len() == 3
        }),
{
}

} // verus!
