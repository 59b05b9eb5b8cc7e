//! Capturing frames from a camera.
//!
//! The camera itself is driven by the caller. A capture keeps track of whether
//! the camera streams, which format it has accepted, and which frames have
//! arrived and were not taken yet.

use vstd::prelude::*;
use std::collections::VecDeque;
use crate::usb::ids::UsbError;

verus! {

/// A frame, or the part of one that arrived.
#[derive(Debug)]
pub struct VideoFrame<F> {
    pub data: Vec<u8>,
    /// Ticks of a 90 kHz clock; 0 if the camera gives none.
    pub timestamp: u64,
    pub frame_number: u32,
    pub format: F,
    pub end_of_frame: bool,
    pub has_error: bool,
}

/// What the stream of a camera delivers.
#[derive(Debug)]
pub struct StreamEvent {
    pub data: Vec<u8>,
    pub pts_90khz: Option<u32>,
    pub frame_number: u32,
    pub eof: bool,
    pub has_error: bool,
}

/// A camera that frames are captured from.
#[derive(Debug)]
pub struct UvcVideoCapture<F> {
    pub streaming: bool,
    pub format: Option<F>,
    pub pending_frames: VecDeque<VideoFrame<F>>,
}

/// What a request for a frame comes to.
#[derive(Debug)]
pub enum Receive<F> {
    /// A frame.
    Frame(VideoFrame<F>),
    /// None has arrived; the stream is to be waited for.
    Wait,
    /// The camera does not stream.
    Refused(UsbError),
}

/// The frame that an event makes, in the format of the stream.
pub open spec fn frame_of<F>(event: StreamEvent, format: F) -> VideoFrame<F> {
    VideoFrame {
        data: event.data,
        timestamp: match event.pts_90khz {
            Some(pts) => pts as u64,
            None => 0,
        },
        frame_number: event.frame_number,
        format,
        end_of_frame: event.eof,
        has_error: event.has_error,
    }
}

impl<F: Copy> UvcVideoCapture<F> {
    /// A camera that was opened and does not stream.
    pub fn open() -> (capture: UvcVideoCapture<F>)
        ensures
            !capture.streaming,
            capture.format is None,
            capture.pending_frames@ == Seq::<VideoFrame<F>>::empty(),
    {
        UvcVideoCapture { streaming: false, format: None, pending_frames: VecDeque::new() }
    }

    /// Whether the format may be changed: not while the camera streams.
    pub fn may_set_format(&self) -> (result: Result<(), UsbError>)
        ensures
            result == (if self.streaming {
                Err::<(), UsbError>(UsbError::InvalidParameter)
            } else {
                Ok(())
            }),
    {
        if self.streaming {
            Err(UsbError::InvalidParameter)
        } else {
            Ok(())
        }
    }

    /// Takes the format that the camera has after a change; it must have one.
    pub fn set_format(&mut self, current: Option<F>) -> (result: Result<(), UsbError>)
        ensures
            match current {
                Some(format) => result is Ok && final(self).format == Some(format),
                None => {
                    &&& result == Err::<(), UsbError>(UsbError::InvalidParameter)
                    &&& final(self).format == old(self).format
                },
            },
            final(self).streaming == old(self).streaming,
            final(self).pending_frames == old(self).pending_frames,
    {
        match current {
            Some(format) => {
                self.format = Some(format);
                Ok(())
            },
            None => Err(UsbError::InvalidParameter),
        }
    }

    /// The camera streams from now on.
    pub fn start_streaming(&mut self)
        ensures
            final(self).streaming,
            final(self).format == old(self).format,
            final(self).pending_frames == old(self).pending_frames,
    {
        self.streaming = true;
    }

    /// The format to stream in if none is asked for: the first of those that
    /// the camera has.
    pub fn start_default_streaming(formats: &Vec<F>) -> (format: Result<F, UsbError>)
        ensures
            format == (if formats@.len() > 0 {
                Ok::<F, UsbError>(formats@[0])
            } else {
                Err(UsbError::NotSupported)
            }),
    {
        if formats.len() > 0 {
            Ok(formats[0])
        } else {
            Err(UsbError::NotSupported)
        }
    }

    /// Takes the oldest frame. If there is none, the stream is to be waited
    /// for, which takes a format and a stream.
    pub fn recv_frame(&mut self) -> (result: Receive<F>)
        ensures
            final(self).streaming == old(self).streaming,
            final(self).format == old(self).format,
            if old(self).pending_frames@.len() > 0 {
                &&& result == Receive::Frame(old(self).pending_frames@[0])
                &&& final(self).pending_frames@ == old(self).pending_frames@.drop_first()
            } else {
                &&& final(self).pending_frames@ == old(self).pending_frames@
                &&& result == (if old(self).format is None || !old(self).streaming {
                    Receive::<F>::Refused(UsbError::InvalidParameter)
                } else {
                    Receive::Wait
                })
            },
    {
        match self.pending_frames.pop_front() {
            Some(frame) => {
                assert(self.pending_frames@ =~= old(self).pending_frames@.drop_first());
                Receive::Frame(frame)
            },
            None => {
                if self.format.is_none() || !self.streaming {
                    Receive::Refused(UsbError::InvalidParameter)
                } else {
                    Receive::Wait
                }
            },
        }
    }

    /// Takes what the stream delivered.
    pub fn accept(&mut self, events: Vec<StreamEvent>)
        requires
            old(self).format is Some,
        ensures
            final(self).streaming == old(self).streaming,
            final(self).format == old(self).format,
            final(self).pending_frames@ == old(self).pending_frames@ + events@.map_values(
                |event: StreamEvent| frame_of(event, old(self).format.unwrap()),
            ),
    {
        let format: F = match self.format {
            Some(format) => format,
            None => return ,
        };
        let ghost all = events@;
        let ghost before = self.pending_frames@;
        let ghost frames = all.map_values(|event: StreamEvent| frame_of(event, format));
        assert(before + frames.take(0) =~= before);
        for event in it: events
            invariant
                it.seq() == all,
                frames == all.map_values(|event: StreamEvent| frame_of(event, format)),
                self.pending_frames@ == before + frames.take(it.index()),
                self.streaming == old(self).streaming,
                self.format == old(self).format,
        {
            let ghost done = it.index();
            let timestamp: u64 = match event.pts_90khz {
                Some(pts) => pts as u64,
                None => 0,
            };
            self.pending_frames.push_back(
                VideoFrame {
                    data: event.data,
                    timestamp,
                    frame_number: event.frame_number,
                    format,
                    end_of_frame: event.eof,
                    has_error: event.has_error,
                },
            );
            proof {
                assert(frames.take(done + 1) =~= frames.take(done).push(frames[done]));
                assert(self.pending_frames@ =~= before + frames.take(done + 1));
            }
        }
        assert(frames.take(all.len() as int) =~= frames);
    }

    /// The camera no longer streams, and frames that were not taken are gone.
    pub fn stop_streaming(&mut self)
        ensures
            !final(self).streaming,
            final(self).format == old(self).format,
            final(self).pending_frames@ == Seq::<VideoFrame<F>>::empty(),
    {
        self.streaming = false;
        self.pending_frames = VecDeque::new();
    }

    /// The format that the camera has accepted last.
    pub fn current_format(&self) -> (format: Option<F>)
        ensures
            format == self.format,
    {
        self.format
    }
}

/// The first device that is a camera, for what each device in turn is.
pub fn probe_first(is_camera: &Vec<bool>) -> (found: Option<usize>)
    ensures
        match found {
            Some(i) => i < is_camera@.len() && is_camera@[i as int] && forall|j: int|
                0 <= j < i ==> !is_camera@[j],
            None => forall|j: int| 0 <= j < is_camera@.len() ==> !is_camera@[j],
        },
{
    for i in 0..is_camera.len()
        invariant
            forall|j: int| 0 <= j < i ==> !is_camera@[j],
    {
        if is_camera[i] {
            return Some(i);
        }
    }
    None
}

/// Every device that is a camera, in order, for what each device in turn is.
pub fn probe(is_camera: &Vec<bool>) -> (found: Vec<usize>)
    ensures
        forall|k: int|
            0 <= k < found@.len() ==> found@[k] < is_camera@.len() && is_camera@[#[trigger] found@[k] as int],
        forall|k: int, l: int| 0 <= k < l < found@.len() ==> found@[k] < found@[l],
        forall|j: int|
            0 <= j < is_camera@.len() && is_camera@[j] ==> found@.contains(j as usize),
{
    let mut found: Vec<usize> = Vec::new();
    for i in 0..is_camera.len()
        invariant
            forall|k: int|
                0 <= k < found@.len() ==> found@[k] < i && is_camera@[#[trigger] found@[k] as int],
            forall|k: int, l: int| 0 <= k < l < found@.len() ==> found@[k] < found@[l],
            forall|j: int| 0 <= j < i && is_camera@[j] ==> found@.contains(j as usize),
    {
        let ghost before = found@;
        if is_camera[i] {
            found.push(i);
            assert(found@[before.len() as int] == i);
        }
        assert forall|j: int| 0 <= j < i + 1 && is_camera@[j] implies found@.contains(
            j as usize,
        ) by {
            if j < i {
                let k = before.index_of(j as usize);
                assert(found@[k] == j as usize);
            }
        }
    }
    found
}

} // verus!
