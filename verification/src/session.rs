//! The decode session as a state machine.
//!
//! A session neither reads bytes nor runs the codec engine. It decides what
//! is to be done next and says so in a [`Request`]; its host does it and
//! reports the outcome in an event. This module defines, over mathematical
//! values, which session and which step follow from a session and an event.
//! The executable decoder is proved to behave just so.

use crate::buffer::{BufferView, BUFFER_SIZE};
use crate::error::{clear_to_decode, recoverable, MadError, SimplemadError};
use crate::frame::{full_frame, header_frame, FrameView, Header, PcmView};
use crate::timing::{advanced, timer_ticks};
use vstd::prelude::*;

verus! {

/// What a session is waiting for.
#[derive(Clone, Copy, Debug, PartialEq, Eq, Structural)]
pub enum Phase {
    /// Nothing is outstanding: the session waits to be asked for a frame.
    Ready,
    /// A header decode, made to skip ahead to the start bound.
    Seeking,
    /// A header decode, made to produce a frame without samples.
    Header,
    /// A frame decode.
    Frame,
    /// The synthesis of the frame just decoded.
    Synthesis,
    /// The offset up to which the engine has consumed the window.
    Offset,
    /// Bytes from the source.
    Data,
    /// The registration of the refilled window with the engine.
    Registration,
}

/// What a session asks of its host.
#[derive(Clone, Copy, Debug, PartialEq, Eq, Structural)]
pub enum Request {
    /// Let the engine decode the next header.
    DecodeHeader,
    /// Let the engine decode the next frame.
    DecodeFrame,
    /// Let the engine synthesise the samples of the frame it has decoded.
    Synthesize,
    /// Report the offset of the first byte of the window that the engine has
    /// not consumed.
    BytesConsumed,
    /// Read once from the source, at most `len` bytes.
    Read { len: usize },
    /// Register the first `len` bytes of the window with the engine.
    RegisterBuffer { len: usize },
}

/// What the host reports to a session, over mathematical values.
pub enum EventView {
    /// The caller asks for the next frame.
    Pull,
    /// The engine has tried to decode a header.
    HeaderDecoded { error: Option<MadError>, header: Header },
    /// The engine has tried to decode a frame.
    FrameDecoded { error: Option<MadError> },
    /// The engine has synthesised the samples of its frame.
    Synthesized { error: Option<MadError>, header: Header, pcm: PcmView },
    /// The offset of the first byte that the engine has not consumed.
    BytesConsumed(usize),
    /// What one read of the source delivered; nothing at its end.
    Data(Seq<u8>),
    /// The read of the source failed.
    ReadFailed(std::io::Error),
    /// The window is registered with the engine.
    Registered,
}

/// What a session answers to an event, over mathematical values.
pub enum StepView {
    /// The host is to do this and to report the outcome.
    Ask(Request),
    /// The pull is over, with this result.
    Done(Result<FrameView, SimplemadError>),
    /// The session does not accept the event, and is as it was.
    Refused,
}

/// What a session answers to an event when it is iterated over.
pub enum PollView {
    /// The host is to do this and to report the outcome.
    Ask(Request),
    /// The next item of the iteration; `None` at its end.
    Item(Option<Result<FrameView, SimplemadError>>),
    /// The session does not accept the event, and is as it was.
    Refused,
}

/// The mathematical content of a decoder.
pub struct Session {
    /// The byte window.
    pub buffer: BufferView,
    /// The number of bytes read from the source since the last refill began.
    pub fresh: nat,
    /// Whether frames are produced from headers alone.
    pub headers_only: bool,
    /// The tick at which the frames to produce begin, if bounded.
    pub start: Option<u64>,
    /// The tick after which no frame is produced, if bounded.
    pub end: Option<u64>,
    /// The playing time of all frames decoded so far, in timer ticks.
    pub position: u64,
    /// What the engine's error register holds.
    pub error: Option<MadError>,
    /// Whether the stream is over for good: a read of the source has
    /// failed, or the source has come to its end.
    pub ended: bool,
    /// What the session is waiting for.
    pub phase: Phase,
}

impl Session {
    /// The session right after the first read of the source delivered
    /// `first`.
    pub open spec fn opened(
        first: Seq<u8>,
        start: Option<u64>,
        end: Option<u64>,
        headers_only: bool,
    ) -> Session {
        Session {
            buffer: BufferView::starting_with(first),
            fresh: 0,
            headers_only,
            start,
            end,
            position: 0,
            error: None,
            ended: false,
            phase: Phase::Ready,
        }
    }

    /// The session is sound: its window is well formed and holds the bytes
    /// counted as fresh, and its phase is coherent.
    pub open spec fn wf(self) -> bool {
        &&& self.buffer.wf()
        &&& self.fresh <= self.buffer.filled
        &&& self.coherent()
    }

    /// The position lies before the start bound.
    pub open spec fn before_start(self) -> bool {
        match self.start {
            Some(start) => self.position < start,
            None => false,
        }
    }

    /// The bounds are one and the same tick, so that no frame lies between
    /// them.
    pub open spec fn empty_interval(self) -> bool {
        self.start is Some && self.start == self.end
    }

    /// No frame is to start at the position any more: the position lies
    /// beyond the end bound, or the interval is empty and the position has
    /// reached its bound.
    pub open spec fn past_end(self) -> bool {
        match self.end {
            Some(end) => self.position > end || (self.empty_interval() && self.position >= end),
            None => false,
        }
    }

    /// The request that is outstanding, if any.
    pub open spec fn pending(self) -> Option<Request> {
        match self.phase {
            Phase::Ready => None,
            Phase::Seeking => Some(Request::DecodeHeader),
            Phase::Header => Some(Request::DecodeHeader),
            Phase::Frame => Some(Request::DecodeFrame),
            Phase::Synthesis => Some(Request::Synthesize),
            Phase::Offset => Some(Request::BytesConsumed),
            Phase::Data => Some(Request::Read { len: self.buffer.free() as usize }),
            Phase::Registration => Some(
                Request::RegisterBuffer { len: self.buffer.filled as usize },
            ),
        }
    }

    /// Whether `event` is one that the session can take: it answers the
    /// outstanding request, a block of samples that came without an error
    /// holds what it says it holds, and a read delivered no more than was
    /// asked for.
    pub open spec fn accepts(self, event: EventView) -> bool {
        match event {
            EventView::Pull => self.phase == Phase::Ready,
            EventView::HeaderDecoded { .. } => self.phase == Phase::Seeking || self.phase
                == Phase::Header,
            EventView::FrameDecoded { .. } => self.phase == Phase::Frame,
            EventView::Synthesized { error, pcm, .. } => {
                self.phase == Phase::Synthesis && (error is None ==> pcm.wf())
            },
            EventView::BytesConsumed(_) => self.phase == Phase::Offset,
            EventView::Data(data) => self.phase == Phase::Data && data.len() <= self.buffer.free(),
            EventView::ReadFailed(_) => self.phase == Phase::Data,
            EventView::Registered => self.phase == Phase::Registration,
        }
    }

    /// What is decided before every decode. Once the stream is over for
    /// good, every pull ends with the end of the stream and nothing is asked
    /// of the host. Before the start bound the session skips ahead by
    /// headers; beyond the end bound the stream is over as well, and the
    /// engine is not asked; otherwise the next unit is decoded, as a header
    /// or in full.
    pub open spec fn enter(self) -> (Session, StepView) {
        if self.ended {
            (Session { phase: Phase::Ready, ..self }, StepView::Done(Err(SimplemadError::EOF)))
        } else if self.before_start() {
            (Session { phase: Phase::Seeking, ..self }, StepView::Ask(Request::DecodeHeader))
        } else if self.past_end() {
            (Session { phase: Phase::Ready, ..self }, StepView::Done(Err(SimplemadError::EOF)))
        } else if self.headers_only {
            (Session { phase: Phase::Header, ..self }, StepView::Ask(Request::DecodeHeader))
        } else {
            (Session { phase: Phase::Frame, ..self }, StepView::Ask(Request::DecodeFrame))
        }
    }

    /// The session begins to refill its window.
    pub open spec fn refill(self) -> (Session, StepView) {
        (Session { phase: Phase::Offset, ..self }, StepView::Ask(Request::BytesConsumed))
    }

    /// A decode for the caller has failed with `err`. An exhausted window is
    /// no error for the caller: the register is cleared and the window
    /// refilled. Any other error ends the pull. A recoverable one is
    /// cleared from the register, so that the next pull goes on behind it; a
    /// fatal one stays.
    pub open spec fn fail(self, err: MadError) -> (Session, StepView) {
        if err == MadError::BufLen {
            Session { error: None, ..self }.refill()
        } else if recoverable(err) {
            (
                Session { error: None, phase: Phase::Ready, ..self },
                StepView::Done(Err(SimplemadError::Mad(err))),
            )
        } else {
            (
                Session { error: Some(err), phase: Phase::Ready, ..self },
                StepView::Done(Err(SimplemadError::Mad(err))),
            )
        }
    }

    /// A decode for the caller has given `frame`: the position moves on by
    /// its duration and the pull ends with it.
    pub open spec fn emit(self, frame: FrameView) -> (Session, StepView) {
        (
            Session {
                error: None,
                position: advanced(self.position as int, frame.duration as int) as u64,
                phase: Phase::Ready,
                ..self
            },
            StepView::Done(Ok(frame)),
        )
    }

    /// A header decode made to skip ahead has ended. A header moves the
    /// position on by its duration, and [`Session::enter`] decides what
    /// follows. An exhausted window is refilled, with the register left as
    /// it is. Any other error ends the pull; a recoverable one is cleared
    /// from the register.
    pub open spec fn seek(self, error: Option<MadError>, header: Header) -> (Session, StepView) {
        match error {
            None => Session {
                error: None,
                position: advanced(self.position as int, timer_ticks(header.duration)) as u64,
                ..self
            }.enter(),
            Some(err) => if recoverable(err) {
                (
                    Session { error: None, phase: Phase::Ready, ..self },
                    StepView::Done(Err(SimplemadError::Mad(err))),
                )
            } else if err == MadError::BufLen {
                Session { error: Some(err), ..self }.refill()
            } else {
                (
                    Session { error: Some(err), phase: Phase::Ready, ..self },
                    StepView::Done(Err(SimplemadError::Mad(err))),
                )
            },
        }
    }

    /// The session asks for bytes while the window has room, and for the
    /// registration of the window once it is full.
    pub open spec fn fill(self) -> (Session, StepView) {
        if self.buffer.filled != BUFFER_SIZE {
            (
                Session { phase: Phase::Data, ..self },
                StepView::Ask(Request::Read { len: self.buffer.free() as usize }),
            )
        } else {
            self.register()
        }
    }

    /// The session asks for the registration of the window up to its fill
    /// mark.
    pub open spec fn register(self) -> (Session, StepView) {
        (
            Session { phase: Phase::Registration, ..self },
            StepView::Ask(Request::RegisterBuffer { len: self.buffer.filled as usize }),
        )
    }

    /// The engine has consumed the window up to `consumed`: what is left
    /// moves to the front, and reading begins behind it.
    pub open spec fn compact(self, consumed: usize) -> (Session, StepView) {
        Session { buffer: self.buffer.compacted(consumed as nat), fresh: 0, ..self }.fill()
    }

    /// A read has delivered `data`. Bytes are written behind those in the
    /// window and reading goes on; no bytes mean that the source has ended,
    /// and the window is registered as it is.
    pub open spec fn supply(self, data: Seq<u8>) -> (Session, StepView) {
        if data.len() == 0 {
            self.register()
        } else {
            Session {
                buffer: self.buffer.extended(data),
                fresh: self.fresh + data.len(),
                ..self
            }.fill()
        }
    }

    /// The refilled window is registered. That settles an exhausted window,
    /// so that condition leaves the register. A refill that read nothing new
    /// shows the end of the source, and with it the stream is over for good;
    /// after any other [`Session::enter`] decides what follows.
    pub open spec fn resume(self) -> (Session, StepView) {
        if self.fresh == 0 {
            (
                Session { ended: true, phase: Phase::Ready, ..self.settled() },
                StepView::Done(Err(SimplemadError::EOF)),
            )
        } else {
            self.settled().enter()
        }
    }

    /// This session with an exhausted window gone from the error register.
    pub open spec fn settled(self) -> Session {
        Session {
            error: if self.error == Some(MadError::BufLen) {
                None
            } else {
                self.error
            },
            ..self
        }
    }

    /// The session and the step that follow from this session and `event`.
    /// An event that the session does not accept is refused and changes
    /// nothing.
    pub open spec fn step(self, event: EventView) -> (Session, StepView) {
        if !self.accepts(event) {
            (self, StepView::Refused)
        } else {
            match event {
                EventView::Pull => self.enter(),
                EventView::HeaderDecoded { error, header } => {
                    if self.phase == Phase::Seeking {
                        self.seek(error, header)
                    } else {
                        match error {
                            None => self.emit(header_frame(header, self.position)),
                            Some(err) => self.fail(err),
                        }
                    }
                },
                EventView::FrameDecoded { error } => match error {
                    None => (
                        Session { error: None, phase: Phase::Synthesis, ..self },
                        StepView::Ask(Request::Synthesize),
                    ),
                    Some(err) => self.fail(err),
                },
                EventView::Synthesized { error, header, pcm } => match error {
                    None => self.emit(full_frame(header, pcm, self.position)),
                    Some(err) => self.fail(err),
                },
                EventView::BytesConsumed(consumed) => self.compact(consumed),
                EventView::Data(data) => self.supply(data),
                EventView::ReadFailed(err) => (
                    Session { ended: true, phase: Phase::Ready, ..self },
                    StepView::Done(Err(SimplemadError::Read(err))),
                ),
                EventView::Registered => self.resume(),
            }
        }
    }

    /// The phase fits the bounds, the mode and the state of the source: the
    /// session skips ahead only before the start bound, and decodes for the
    /// caller only within the bounds, headers when frames come from headers
    /// alone and frames otherwise; and once the stream is over for good it
    /// waits for nothing any more.
    pub open spec fn coherent(self) -> bool {
        &&& self.ended ==> self.phase == Phase::Ready
        &&& match self.phase {
            Phase::Seeking => self.before_start(),
            Phase::Header => self.headers_only && !self.before_start() && !self.past_end(),
            Phase::Frame => !self.headers_only && !self.before_start() && !self.past_end(),
            Phase::Synthesis => !self.headers_only && !self.before_start() && !self.past_end(),
            _ => true,
        }
    }

    /// This session without its bounds.
    pub open spec fn unbounded(self) -> Session {
        Session { start: None, end: None, ..self }
    }

    /// This session with the end bound `end` in place of its own.
    pub open spec fn with_end(self, end: Option<u64>) -> Session {
        Session { end, ..self }
    }

    /// Whether `event` tells the session of a unit that the engine decoded
    /// without error: a header while the session waits for one, or the
    /// samples of a frame while it waits for those.
    pub open spec fn decodes(self, event: EventView) -> bool {
        self.accepts(event) && match event {
            EventView::HeaderDecoded { error, .. } => error is None,
            EventView::Synthesized { error, .. } => error is None,
            _ => false,
        }
    }

    /// The playing time of the unit that `event` reports as decoded, in
    /// timer ticks.
    pub open spec fn decoded_ticks(event: EventView) -> int {
        match event {
            EventView::HeaderDecoded { header, .. } => timer_ticks(header.duration),
            EventView::Synthesized { header, .. } => timer_ticks(header.duration),
            _ => 0,
        }
    }

    /// Whether an iteration over the session has come to its end: a pull
    /// would begin after the stream is over for good, or while the error
    /// register holds a fatal error.
    pub open spec fn exhausted(self) -> bool {
        self.phase == Phase::Ready && (self.ended || !clear_to_decode(self.error))
    }

    /// The session and the answer that follow from this session and `event`
    /// when the session is iterated over. The iteration takes the end of the
    /// stream for its own end, and does not begin a pull once it is
    /// exhausted.
    pub open spec fn poll(self, event: EventView) -> (Session, PollView) {
        if !self.accepts(event) {
            (self, PollView::Refused)
        } else if self.exhausted() {
            (self, PollView::Item(None))
        } else {
            let (next, step) = self.step(event);
            (
                next,
                match step {
                    StepView::Ask(request) => PollView::Ask(request),
                    StepView::Done(Ok(frame)) => PollView::Item(Some(Ok(frame))),
                    StepView::Done(Err(SimplemadError::EOF)) => PollView::Item(None),
                    StepView::Done(Err(err)) => PollView::Item(Some(Err(err))),
                    StepView::Refused => PollView::Refused,
                },
            )
        }
    }
}

} // verus!
