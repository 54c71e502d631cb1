//! The decoder: the executable decode session.
//!
//! A [`Decoder`] owns the byte window and all bookkeeping of a session. It is
//! driven by its host in turns: the host hands in an [`Event`], and the
//! decoder answers with the [`Request`] to carry out next or with the result
//! of the pull. Before every request to the engine the host writes
//! [`Decoder::engine_error`] into the engine's error register.

use crate::buffer::{Buffer, BUFFER_SIZE};
use crate::error::{error_is_recoverable, MadError, SimplemadError};
use crate::frame::{frame_duration, full_frame, header_frame, Frame, Header, Pcm};
use crate::session::{EventView, Phase, PollView, Request, Session, StepView};
use crate::timing::advance;
use vstd::prelude::*;

verus! {

/// What the host reports to a decoder.
#[derive(Debug)]
pub enum Event {
    /// The caller asks for the next frame.
    Pull,
    /// The engine has tried to decode a header: the error register after
    /// the attempt, and the header it holds.
    HeaderDecoded { error: Option<MadError>, header: Header },
    /// The engine has tried to decode a frame: the error register after the
    /// attempt.
    FrameDecoded { error: Option<MadError> },
    /// The engine has synthesised the samples of its frame: the error
    /// register, the header of the frame and the block of samples.
    Synthesized { error: Option<MadError>, header: Header, pcm: Pcm },
    /// The offset of the first byte of the window that the engine has not
    /// consumed.
    BytesConsumed(usize),
    /// What one read of the source delivered; nothing at its end.
    Data(Vec<u8>),
    /// The read of the source failed.
    ReadFailed(std::io::Error),
    /// The window is registered with the engine.
    Registered,
}

impl View for Event {
    type V = EventView;

    open spec fn view(&self) -> EventView {
        match *self {
            Event::Pull => EventView::Pull,
            Event::HeaderDecoded { error, header } => EventView::HeaderDecoded { error, header },
            Event::FrameDecoded { error } => EventView::FrameDecoded { error },
            Event::Synthesized { error, header, pcm } => EventView::Synthesized {
                error,
                header,
                pcm: pcm@,
            },
            Event::BytesConsumed(consumed) => EventView::BytesConsumed(consumed),
            Event::Data(data) => EventView::Data(data@),
            Event::ReadFailed(err) => EventView::ReadFailed(err),
            Event::Registered => EventView::Registered,
        }
    }
}

/// What a decoder answers to an event.
#[derive(Debug)]
pub enum Step {
    /// The host is to do this and to report the outcome.
    Ask(Request),
    /// The pull is over, with this result.
    Done(Result<Frame, SimplemadError>),
    /// The decoder does not accept the event, and is as it was.
    Refused,
}

impl View for Step {
    type V = StepView;

    open spec fn view(&self) -> StepView {
        match *self {
            Step::Ask(request) => StepView::Ask(request),
            Step::Done(Ok(frame)) => StepView::Done(Ok(frame@)),
            Step::Done(Err(err)) => StepView::Done(Err(err)),
            Step::Refused => StepView::Refused,
        }
    }
}

/// What a decoder answers to an event when it is iterated over.
#[derive(Debug)]
pub enum Poll {
    /// The host is to do this and to report the outcome.
    Ask(Request),
    /// The next item of the iteration; `None` at its end.
    Item(Option<Result<Frame, SimplemadError>>),
    /// The decoder does not accept the event, and is as it was.
    Refused,
}

impl View for Poll {
    type V = PollView;

    open spec fn view(&self) -> PollView {
        match *self {
            Poll::Ask(request) => PollView::Ask(request),
            Poll::Item(None) => PollView::Item(None),
            Poll::Item(Some(Ok(frame))) => PollView::Item(Some(Ok(frame@))),
            Poll::Item(Some(Err(err))) => PollView::Item(Some(Err(err))),
            Poll::Refused => PollView::Refused,
        }
    }
}

/// An interface for the decoding operation.
///
/// Create a decoder using `decode`, `decode_headers` or `decode_interval`.
/// Fetch results with `get_frame`, or with `next` to iterate.
#[derive(Debug)]
pub struct Decoder {
    buffer: Buffer,
    fresh: usize,
    headers_only: bool,
    start: Option<u64>,
    end: Option<u64>,
    position: u64,
    error: Option<MadError>,
    ended: bool,
    phase: Phase,
}

impl View for Decoder {
    type V = Session;

    closed spec fn view(&self) -> Session {
        Session {
            buffer: self.buffer@,
            fresh: self.fresh as nat,
            headers_only: self.headers_only,
            start: self.start,
            end: self.end,
            position: self.position,
            error: self.error,
            ended: self.ended,
            phase: self.phase,
        }
    }
}

/// Whether `result` is what opening a decoder gives when the first read of
/// the source ended as `first_read` says: the error of a failed read, and
/// else a decoder whose session begins with what the read delivered.
pub open spec fn opens(
    result: Result<Decoder, SimplemadError>,
    first_read: Result<Vec<u8>, std::io::Error>,
    start: Option<u64>,
    end: Option<u64>,
    headers_only: bool,
) -> bool {
    match first_read {
        Ok(first) => {
            &&& result matches Ok(decoder)
            &&& decoder@ == Session::opened(first@, start, end, headers_only)
            &&& decoder@.wf()
            &&& decoder@.buffer.window() == first@
        },
        Err(err) => result matches Err(SimplemadError::Read(e)) && e == err,
    }
}

impl Decoder {
    /// The session of every decoder is sound.
    #[verifier::type_invariant]
    spec fn well_formed(&self) -> bool {
        self@.wf()
    }

    /// A decoder for a source whose first read ended as `first_read` says.
    fn new(
        first_read: Result<Vec<u8>, std::io::Error>,
        start: Option<u64>,
        end: Option<u64>,
        headers_only: bool,
    ) -> (result: Result<Decoder, SimplemadError>)
        requires
            first_read matches Ok(first) ==> first.len() <= BUFFER_SIZE,
        ensures
            opens(result, first_read, start, end, headers_only),
    {
        match first_read {
            Err(err) => Err(SimplemadError::Read(err)),
            Ok(first) => Ok(
                Decoder {
                    buffer: Buffer::new(&first),
                    fresh: 0,
                    headers_only,
                    start,
                    end,
                    position: 0,
                    error: None,
                    ended: false,
                    phase: Phase::Ready,
                },
            ),
        }
    }

    /// Decode a stream in full. `first_read` is how the first read of the
    /// source ended; what it delivered is the first content of the window,
    /// which the host registers with the engine. A read into the window
    /// delivers no more than the window holds.
    pub fn decode(first_read: Result<Vec<u8>, std::io::Error>) -> (result: Result<
        Decoder,
        SimplemadError,
    >)
        requires
            first_read matches Ok(first) ==> first.len() <= BUFFER_SIZE,
        ensures
            opens(result, first_read, None, None, false),
    {
        Decoder::new(first_read, None, None, false)
    }

    /// Decode only the header information of each frame.
    pub fn decode_headers(first_read: Result<Vec<u8>, std::io::Error>) -> (result: Result<
        Decoder,
        SimplemadError,
    >)
        requires
            first_read matches Ok(first) ==> first.len() <= BUFFER_SIZE,
        ensures
            opens(result, first_read, None, None, true),
    {
        Decoder::new(first_read, None, None, true)
    }

    /// Decode part of a stream from `start_time` to `end_time`, measured in
    /// timer ticks. A frame is produced if it starts no earlier than
    /// `start_time` and no later than `end_time`; where both are the same
    /// tick, none is.
    pub fn decode_interval(
        first_read: Result<Vec<u8>, std::io::Error>,
        start_time: u64,
        end_time: u64,
    ) -> (result: Result<Decoder, SimplemadError>)
        requires
            first_read matches Ok(first) ==> first.len() <= BUFFER_SIZE,
        ensures
            opens(result, first_read, Some(start_time), Some(end_time), false),
    {
        Decoder::new(first_read, Some(start_time), Some(end_time), false)
    }

    /// The byte window. Its first [`Buffer::filled`] bytes are what the host
    /// registers with the engine.
    pub fn buffer(&self) -> (buffer: &Buffer)
        ensures
            buffer@ == self@.buffer,
            self@.wf(),
    {
        proof {
            use_type_invariant(self);
        }
        &self.buffer
    }

    /// What the engine's error register is to hold before the next request
    /// to the engine.
    pub fn engine_error(&self) -> (error: Option<MadError>)
        ensures
            error == self@.error,
    {
        self.error
    }

    /// The playing time of all frames decoded so far, in timer ticks.
    pub fn position(&self) -> (ticks: u64)
        ensures
            ticks == self@.position,
    {
        self.position
    }

    /// Whether the stream is over for good: a read of the source has failed,
    /// or the source has come to its end.
    pub fn has_ended(&self) -> (b: bool)
        ensures
            b == self@.ended,
    {
        self.ended
    }

    /// The request that is outstanding, if any.
    pub fn pending(&self) -> (request: Option<Request>)
        ensures
            request == self@.pending(),
    {
        proof {
            use_type_invariant(&*self);
        }
        match self.phase {
            Phase::Ready => None,
            Phase::Seeking => Some(Request::DecodeHeader),
            Phase::Header => Some(Request::DecodeHeader),
            Phase::Frame => Some(Request::DecodeFrame),
            Phase::Synthesis => Some(Request::Synthesize),
            Phase::Offset => Some(Request::BytesConsumed),
            Phase::Data => Some(Request::Read { len: self.buffer.free() }),
            Phase::Registration => Some(Request::RegisterBuffer { len: self.buffer.filled() }),
        }
    }

    /// Whether `event` is one that the decoder accepts: it answers the
    /// outstanding request, and brings no more than there is room for.
    pub fn accepts(&self, event: &Event) -> (b: bool)
        ensures
            b == self@.accepts(event@),
    {
        proof {
            use_type_invariant(&*self);
        }
        match event {
            Event::Pull => self.phase == Phase::Ready,
            Event::HeaderDecoded { .. } => self.phase == Phase::Seeking || self.phase
                == Phase::Header,
            Event::FrameDecoded { .. } => self.phase == Phase::Frame,
            Event::Synthesized { error, pcm, .. } => {
                self.phase == Phase::Synthesis && (error.is_some() || pcm.is_well_formed())
            },
            Event::BytesConsumed(_) => self.phase == Phase::Offset,
            Event::Data(data) => self.phase == Phase::Data && data.len() <= self.buffer.free(),
            Event::ReadFailed(_) => self.phase == Phase::Data,
            Event::Registered => self.phase == Phase::Registration,
        }
    }

    /// Decides what comes before every decode: skipping ahead, the end of the
    /// stream, or the decode of the next unit.
    fn enter(&mut self) -> (step: Step)
        ensures
            (final(self)@, step@) == old(self)@.enter(),
            final(self)@.wf(),
    {
        proof {
            use_type_invariant(&*self);
        }
        let before_start = match self.start {
            Some(start) => self.position < start,
            None => false,
        };
        let empty_interval = match (self.start, self.end) {
            (Some(start), Some(end)) => start == end,
            _ => false,
        };
        let past_end = match self.end {
            Some(end) => self.position > end || (empty_interval && self.position >= end),
            None => false,
        };
        if self.ended {
            self.phase = Phase::Ready;
            Step::Done(Err(SimplemadError::EOF))
        } else if before_start {
            self.phase = Phase::Seeking;
            Step::Ask(Request::DecodeHeader)
        } else if past_end {
            self.phase = Phase::Ready;
            Step::Done(Err(SimplemadError::EOF))
        } else if self.headers_only {
            self.phase = Phase::Header;
            Step::Ask(Request::DecodeHeader)
        } else {
            self.phase = Phase::Frame;
            Step::Ask(Request::DecodeFrame)
        }
    }

    /// Settles a decode made for the caller: a frame moves the position on
    /// and ends the pull, an exhausted window is refilled, and any other
    /// error ends the pull and is cleared from the register if it is
    /// recoverable.
    fn settle(&mut self, outcome: Result<Frame, MadError>) -> (step: Step)
        requires
            !old(self)@.ended,
        ensures
            (final(self)@, step@) == match outcome {
                Ok(frame) => old(self)@.emit(frame@),
                Err(err) => old(self)@.fail(err),
            },
            final(self)@.wf(),
    {
        proof {
            use_type_invariant(&*self);
        }
        match outcome {
            Ok(frame) => {
                self.phase = Phase::Ready;
                self.error = None;
                self.position = advance(self.position, frame.duration);
                Step::Done(Ok(frame))
            },
            Err(MadError::BufLen) => {
                self.error = None;
                self.phase = Phase::Offset;
                Step::Ask(Request::BytesConsumed)
            },
            Err(err) => {
                if error_is_recoverable(&err) {
                    self.error = None;
                } else {
                    self.error = Some(err);
                }
                self.phase = Phase::Ready;
                Step::Done(Err(SimplemadError::Mad(err)))
            },
        }
    }

    /// Takes the outcome of a header decode made to skip ahead to the start
    /// bound.
    fn seek_to_start(&mut self, error: Option<MadError>, header: &Header) -> (step: Step)
        requires
            !old(self)@.ended,
        ensures
            (final(self)@, step@) == old(self)@.seek(error, *header),
            final(self)@.wf(),
    {
        proof {
            use_type_invariant(&*self);
        }
        match error {
            None => {
                self.phase = Phase::Ready;
                self.error = None;
                self.position = advance(self.position, frame_duration(header));
                self.enter()
            },
            Some(MadError::BufLen) => {
                self.error = error;
                self.phase = Phase::Offset;
                Step::Ask(Request::BytesConsumed)
            },
            Some(err) => {
                if error_is_recoverable(&err) {
                    self.error = None;
                } else {
                    self.error = error;
                }
                self.phase = Phase::Ready;
                Step::Done(Err(SimplemadError::Mad(err)))
            },
        }
    }

    /// The frame for a decoded header, or the error of the decode.
    fn decode_header_only(&self, error: Option<MadError>, header: &Header) -> (outcome: Result<
        Frame,
        MadError,
    >)
        ensures
            match error {
                None => outcome matches Ok(frame) && frame@ == header_frame(
                    *header,
                    self@.position,
                ),
                Some(err) => outcome matches Err(e) && e == err,
            },
    {
        match error {
            None => Ok(Frame::from_header(header, self.position)),
            Some(err) => Err(err),
        }
    }

    /// The frame for a decoded header and its synthesised samples, or the
    /// error of the synthesis.
    fn decode_frame(&self, error: Option<MadError>, header: &Header, pcm: &Pcm) -> (outcome:
        Result<Frame, MadError>)
        requires
            error is None ==> pcm@.wf(),
        ensures
            match error {
                None => outcome matches Ok(frame) && frame@ == full_frame(
                    *header,
                    pcm@,
                    self@.position,
                ),
                Some(err) => outcome matches Err(e) && e == err,
            },
    {
        match error {
            None => Ok(Frame::from_pcm(header, pcm, self.position)),
            Some(err) => Err(err),
        }
    }

    /// Asks for bytes while the window has room, and for the registration
    /// of the window once it is full.
    fn fill(&mut self) -> (step: Step)
        requires
            !old(self)@.ended,
        ensures
            (final(self)@, step@) == old(self)@.fill(),
            final(self)@.wf(),
    {
        proof {
            use_type_invariant(&*self);
        }
        if self.buffer.filled() != BUFFER_SIZE {
            self.phase = Phase::Data;
            Step::Ask(Request::Read { len: self.buffer.free() })
        } else {
            self.phase = Phase::Registration;
            Step::Ask(Request::RegisterBuffer { len: self.buffer.filled() })
        }
    }

    /// Takes the events of a refill: moves the unconsumed bytes to the
    /// front of the window, reads into the room behind them until the window
    /// is full or the source ends, has the window registered, and goes on
    /// decoding if there was anything new to read.
    fn refill_buffer(&mut self, event: Event) -> (step: Step)
        requires
            old(self)@.accepts(event@),
            event is BytesConsumed || event is Data || event is ReadFailed || event is Registered,
        ensures
            (final(self)@, step@) == old(self)@.step(event@),
            final(self)@.wf(),
    {
        proof {
            use_type_invariant(&*self);
        }
        match event {
            Event::BytesConsumed(consumed) => {
                self.fresh = 0;
                self.buffer.compact(consumed);
                self.fill()
            },
            Event::Data(data) => {
                if data.len() == 0 {
                    self.phase = Phase::Registration;
                    Step::Ask(Request::RegisterBuffer { len: self.buffer.filled() })
                } else {
                    self.buffer.extend(&data);
                    self.fresh = self.fresh + data.len();
                    self.fill()
                }
            },
            Event::ReadFailed(err) => {
                self.phase = Phase::Ready;
                self.ended = true;
                Step::Done(Err(SimplemadError::Read(err)))
            },
            _ => {
                if self.error == Some(MadError::BufLen) {
                    self.error = None;
                }
                if self.fresh == 0 {
                    self.phase = Phase::Ready;
                    self.ended = true;
                    Step::Done(Err(SimplemadError::EOF))
                } else {
                    self.enter()
                }
            },
        }
    }

    /// Get the next decoding result, either a `Frame` or a `SimplemadError`,
    /// in turns with the host: the answer to `event` is the next request to
    /// carry out, or the result. An event that does not answer the
    /// outstanding request is refused.
    pub fn get_frame(&mut self, event: Event) -> (step: Step)
        ensures
            (final(self)@, step@) == old(self)@.step(event@),
            final(self)@.wf(),
    {
        proof {
            use_type_invariant(&*self);
        }
        if !self.accepts(&event) {
            return Step::Refused;
        }
        match event {
            Event::Pull => self.enter(),
            Event::HeaderDecoded { error, header } => {
                if self.phase == Phase::Seeking {
                    self.seek_to_start(error, &header)
                } else {
                    let outcome = self.decode_header_only(error, &header);
                    self.settle(outcome)
                }
            },
            Event::FrameDecoded { error } => match error {
                None => {
                    self.error = None;
                    self.phase = Phase::Synthesis;
                    Step::Ask(Request::Synthesize)
                },
                Some(err) => self.settle(Err(err)),
            },
            Event::Synthesized { error, header, pcm } => {
                let outcome = self.decode_frame(error, &header, &pcm);
                self.settle(outcome)
            },
            other => self.refill_buffer(other),
        }
    }

    /// The next item of the iteration over the decoder, in turns with the
    /// host. The iteration ends at the end of the stream, and for good once
    /// the error register holds a fatal error.
    pub fn next(&mut self, event: Event) -> (poll: Poll)
        ensures
            (final(self)@, poll@) == old(self)@.poll(event@),
            final(self)@.wf(),
    {
        proof {
            use_type_invariant(&*self);
        }
        if !self.accepts(&event) {
            return Poll::Refused;
        }
        let clear = match self.error {
            None => true,
            Some(err) => error_is_recoverable(&err),
        };
        if self.phase == Phase::Ready && (self.ended || !clear) {
            return Poll::Item(None);
        }
        match self.get_frame(event) {
            Step::Ask(request) => Poll::Ask(request),
            Step::Done(Ok(frame)) => Poll::Item(Some(Ok(frame))),
            Step::Done(Err(SimplemadError::EOF)) => Poll::Item(None),
            Step::Done(Err(err)) => Poll::Item(Some(Err(err))),
            Step::Refused => Poll::Refused,
        }
    }
}

} // verus!
