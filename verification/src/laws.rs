//! What holds of every step of a decode session.
//!
//! The laws speak of sessions as mathematical values. They hold of every
//! decoder, since a decoder moves exactly as its session does.

use crate::buffer::BUFFER_SIZE;
use crate::error::{recoverable, MadError, SimplemadError};
use crate::frame::{full_frame, header_frame, FrameView, Header, PcmView};
use crate::session::{EventView, Phase, PollView, Request, Session, StepView};
use crate::timing::advanced;
use vstd::prelude::*;

verus! {

/// A session is sound when it is opened, and its window holds what the
/// first read delivered.
pub proof fn opened_is_sound(
    first: Seq<u8>,
    start: Option<u64>,
    end: Option<u64>,
    headers_only: bool,
)
    requires
        first.len() <= BUFFER_SIZE,
    ensures
        Session::opened(first, start, end, headers_only).wf(),
        Session::opened(first, start, end, headers_only).buffer.window() == first,
{
}

/// Every step keeps a session sound.
pub proof fn step_is_sound(session: Session, event: EventView)
    requires
        session.wf(),
    ensures
        session.step(event).0.wf(),
{
}

/// Every step leaves the mode and the bounds of a session as they are.
pub proof fn step_keeps_settings(session: Session, event: EventView)
    ensures
        session.step(event).0.headers_only == session.headers_only,
        session.step(event).0.start == session.start,
        session.step(event).0.end == session.end,
        session.ended ==> session.step(event).0.ended,
{
}

/// An event is refused if and only if the session does not accept it, and a
/// refused event leaves the session as it is.
pub proof fn refused_events_change_nothing(session: Session, event: EventView)
    ensures
        session.accepts(event) <==> !(session.step(event).1 is Refused),
        session.accepts(event) <==> !(session.poll(event).1 is Refused),
        !session.accepts(event) ==> session.step(event).0 == session,
        !session.accepts(event) ==> session.poll(event).0 == session,
{
}

/// A step asks of the host what the session then waits for, and ends the
/// pull exactly when it leaves the session ready for the next.
pub proof fn step_asks_what_is_pending(session: Session, event: EventView)
    requires
        session.wf(),
    ensures
        match session.step(event).1 {
            StepView::Ask(request) => session.step(event).0.pending() == Some(request),
            StepView::Done(_) => session.step(event).0.phase == Phase::Ready,
            StepView::Refused => session.step(event).0.pending() == session.pending(),
        },
{
}

/// The position moves with the decoded units and with nothing else. A frame
/// that a step yields starts at the position before the step, has the
/// duration that the engine reports for the unit, and the step moves the
/// position on by that duration. A header that is skipped moves the position
/// on by its duration. Every other step, and so every step of a refill,
/// leaves the position where it is. The position never moves back.
pub proof fn position_follows_frames(session: Session, event: EventView)
    ensures
        match session.step(event).1 {
            StepView::Done(Ok(frame)) => {
                &&& session.decodes(event)
                &&& session.phase != Phase::Seeking
                &&& frame.position == session.position
                &&& frame.duration == Session::decoded_ticks(event)
                &&& session.step(event).0.position == advanced(
                    session.position as int,
                    frame.duration as int,
                )
            },
            _ => if session.decodes(event) {
                &&& session.phase == Phase::Seeking
                &&& session.step(event).0.position == advanced(
                    session.position as int,
                    Session::decoded_ticks(event),
                )
            } else {
                session.step(event).0.position == session.position
            },
        },
        session.step(event).0.position >= session.position,
{
}

/// A frame that a step yields lies within the bounds of the session: it
/// starts no earlier than the start bound and no later than the end bound.
pub proof fn frames_lie_within_bounds(session: Session, event: EventView, frame: FrameView)
    requires
        session.wf(),
        session.step(event).1 == StepView::Done(Ok::<FrameView, SimplemadError>(frame)),
    ensures
        session.start matches Some(start) ==> start <= frame.position,
        session.end matches Some(end) ==> frame.position <= end,
{
}

/// Where the start bound and the end bound are the same tick, no step
/// yields a frame. Once the position has reached the bound, a pull ends at
/// once with the end of the stream, and nothing is asked of the host.
pub proof fn no_step_of_an_empty_interval_yields(session: Session, event: EventView)
    requires
        session.wf(),
        session.empty_interval(),
    ensures
        !(session.step(event).1 matches StepView::Done(Ok(_))),
        !session.before_start() && session.phase == Phase::Ready ==> session.step(
            EventView::Pull,
        ) == (session, StepView::Done(Err::<FrameView, SimplemadError>(SimplemadError::EOF))),
{
}

/// Before the start bound a session yields no frame: what it decodes there
/// is skipped. When the source ends while the session is still before the
/// start bound, the pull ends with the end of the stream.
pub proof fn nothing_is_yielded_before_the_start(session: Session, event: EventView)
    requires
        session.wf(),
        session.before_start(),
    ensures
        !(session.step(event).1 matches StepView::Done(Ok(_))),
        session.phase == Phase::Registration && event is Registered && session.fresh == 0
            ==> session.step(event).1 == StepView::Done(
            Err::<FrameView, SimplemadError>(SimplemadError::EOF),
        ),
{
}

/// Beyond the end bound a pull ends at once with the end of the stream, and
/// nothing is asked of the engine or of the source.
pub proof fn nothing_is_decoded_beyond_the_end(session: Session)
    requires
        session.phase == Phase::Ready,
        !session.before_start(),
        session.past_end(),
    ensures
        session.step(EventView::Pull) == (
            session,
            StepView::Done(Err::<FrameView, SimplemadError>(SimplemadError::EOF)),
        ),
{
}

/// Within its bounds a session moves as a session without bounds does: it
/// yields the same frames and errors and asks the same of its host. So an
/// end bound that lies beyond the end of the stream changes nothing.
pub proof fn bounds_are_idle_within(session: Session, event: EventView)
    requires
        session.wf(),
        !session.before_start(),
        !session.past_end(),
    ensures
        session.step(event).1 == session.unbounded().step(event).1,
        session.step(event).0.unbounded() == session.unbounded().step(event).0,
{
}

/// An end bound makes no difference until it is passed. As long as a step
/// leaves a session within its end bound and within another one, the step
/// is the same under either bound: the same is yielded and asked, and the
/// same state reached. The other bound may be no bound at all.
pub proof fn end_bound_is_idle_until_passed(
    session: Session,
    event: EventView,
    other_end: Option<u64>,
)
    requires
        session.wf(),
        !session.step(event).0.past_end(),
        !session.step(event).0.with_end(other_end).past_end(),
    ensures
        session.with_end(other_end).wf(),
        session.with_end(other_end).step(event).1 == session.step(event).1,
        session.with_end(other_end).step(event).0 == session.step(event).0.with_end(other_end),
{
    position_follows_frames(session, event);
}

/// A unit that decodes with the same header gives, as a frame from the
/// header alone and as a frame in full, the same duration, position, layer,
/// mode and bit rate, and moves the position on alike. The frame from the
/// header alone has no samples.
pub proof fn modes_agree_on_timing(headers: Session, full: Session, header: Header, pcm: PcmView)
    requires
        headers.phase == Phase::Header,
        full.phase == Phase::Synthesis,
        headers.position == full.position,
        pcm.wf(),
    ensures
        ({
            let by_header = headers.step(EventView::HeaderDecoded { error: None, header });
            let in_full = full.step(EventView::Synthesized { error: None, header, pcm });
            &&& by_header.1 matches StepView::Done(Ok(a))
            &&& in_full.1 matches StepView::Done(Ok(b))
            &&& a == header_frame(header, headers.position)
            &&& b == full_frame(header, pcm, full.position)
            &&& a.duration == b.duration
            &&& a.position == b.position
            &&& a.layer == b.layer
            &&& a.mode == b.mode
            &&& a.bit_rate == b.bit_rate
            &&& a.samples.len() == 0
            &&& by_header.0.position == in_full.0.position
        }),
{
}

/// A frame in full has as many channels as the block of samples has in use,
/// and in each channel the samples that are in use, in their order.
pub proof fn full_frame_holds_the_samples_in_use(header: Header, pcm: PcmView, position: u64)
    requires
        pcm.wf(),
    ensures
        full_frame(header, pcm, position).samples.len() == pcm.channels,
        forall|c: int|
            0 <= c < pcm.channels ==> (#[trigger] full_frame(header, pcm, position).samples[c]).len()
                == pcm.length,
        forall|c: int, i: int|
            0 <= c < pcm.channels && 0 <= i < pcm.length ==> (#[trigger] full_frame(
                header,
                pcm,
                position,
            ).samples[c][i]) == pcm.samples[c][i],
{
}

/// What a refill does to the window. Its first step puts the bytes that the
/// engine has not consumed, those from the consumed offset to the fill mark,
/// at the front, in their order, and nothing else; every read adds what it
/// delivered right behind what the window holds; and every other step, such
/// as the registration or a failed read, leaves the window as it is.
pub proof fn refill_keeps_the_bytes(session: Session, event: EventView)
    requires
        session.wf(),
    ensures
        session.accepts(event) ==> match event {
            EventView::BytesConsumed(consumed) => {
                &&& session.step(event).0.buffer.window() == session.buffer.unconsumed(
                    consumed as nat,
                )
                &&& session.step(event).0.fresh == 0
            },
            EventView::Data(data) => {
                &&& session.step(event).0.buffer.window() == session.buffer.window() + data
                &&& session.step(event).0.fresh == session.fresh + data.len()
            },
            _ => session.step(event).0.buffer == session.buffer && session.step(event).0.fresh
                == session.fresh,
        },
        !session.accepts(event) ==> session.step(event).0.buffer == session.buffer
            && session.step(event).0.fresh == session.fresh,
{
    if session.accepts(event) {
        match event {
            EventView::BytesConsumed(consumed) => {
                assert(session.step(event).0.buffer.window() =~= session.buffer.unconsumed(
                    consumed as nat,
                ));
            },
            EventView::Data(data) => {
                assert(session.step(event).0.buffer.window() =~= session.buffer.window() + data);
            },
            _ => {},
        }
    }
}

/// What a session asks for fits its window. A read is asked for only while
/// the window has room, and for all the room there is, so that a read that
/// delivers nothing can only mean the end of the source. A registration is
/// asked for the bytes up to the fill mark.
pub proof fn requests_fit_the_window(session: Session, event: EventView)
    requires
        session.wf(),
    ensures
        session.step(event).1 matches StepView::Ask(Request::Read { len }) ==> 0 < len
            <= BUFFER_SIZE && len == session.step(event).0.buffer.free(),
        session.step(event).1 matches StepView::Ask(Request::RegisterBuffer { len }) ==> len
            <= BUFFER_SIZE && len == session.step(event).0.buffer.filled,
{
}

/// Every read that delivers something leaves less room in the window, by as
/// much as it delivered. So a refill is over after a bounded number of such
/// reads: as soon as the window is full the session asks for its
/// registration.
pub proof fn reads_use_up_the_room(session: Session, data: Seq<u8>)
    requires
        session.wf(),
        session.accepts(EventView::Data(data)),
    ensures
        session.step(EventView::Data(data)).0.buffer.free() == session.buffer.free() - data.len(),
        session.step(EventView::Data(data)).0.buffer.free() == 0 || data.len() == 0
            <==> session.step(EventView::Data(data)).0.phase == Phase::Registration,
{
}

/// How a refill ends. The registration of a window to which nothing new was
/// read ends the pull with the end of the stream, and the stream is over for
/// good; after any other the session goes on. Either way an exhausted window
/// has left the error register.
pub proof fn refill_ends_as_the_source_does(session: Session)
    requires
        session.phase == Phase::Registration,
    ensures
        session.fresh == 0 ==> session.step(EventView::Registered).1 == StepView::Done(
            Err::<FrameView, SimplemadError>(SimplemadError::EOF),
        ),
        session.fresh == 0 ==> session.step(EventView::Registered).0.ended,
        session.fresh != 0 ==> session.step(EventView::Registered) == session.settled().enter(),
        session.step(EventView::Registered).0.error == session.settled().error,
        session.settled().error != Some(MadError::BufLen),
        session.error != Some(MadError::BufLen) ==> session.settled() == session,
{
}

/// A read that fails ends the pull with that very error, and is put on
/// record; the window, the error register and the position stay as they
/// are.
pub proof fn failed_reads_reach_the_caller(session: Session, err: std::io::Error)
    requires
        session.phase == Phase::Data,
    ensures
        session.step(EventView::ReadFailed(err)).1 == StepView::Done(
            Err::<FrameView, SimplemadError>(SimplemadError::Read(err)),
        ),
        session.step(EventView::ReadFailed(err)).0.ended,
        session.step(EventView::ReadFailed(err)).0.buffer == session.buffer,
        session.step(EventView::ReadFailed(err)).0.error == session.error,
        session.step(EventView::ReadFailed(err)).0.position == session.position,
        session.step(EventView::ReadFailed(err)).0.phase == Phase::Ready,
{
}

/// A failed read ends a session for good, and so does the end of the
/// source. After either, every pull ends at once with the end of the stream,
/// and every pull of an iteration with the end of the iteration; no event
/// makes the session yield a frame or ask anything of its host, and the
/// session stays as it is.
pub proof fn an_ended_session_stays_ended(session: Session, event: EventView)
    requires
        session.wf(),
        session.ended,
    ensures
        session.step(EventView::Pull) == (
            session,
            StepView::Done(Err::<FrameView, SimplemadError>(SimplemadError::EOF)),
        ),
        session.poll(EventView::Pull) == (session, PollView::Item(None)),
        session.exhausted(),
        session.step(event).0 == session,
        session.poll(event).0 == session,
        !(session.step(event).1 is Ask),
        !(session.poll(event).1 is Ask),
        !(session.step(event).1 matches StepView::Done(Ok(_))),
        !(session.poll(event).1 matches PollView::Item(Some(_))),
{
}

/// How errors of the engine end a pull. An exhausted window never reaches
/// the caller: the session refills. Any other error reaches the caller as it
/// is. A recoverable one is then gone from the error register; a fatal one
/// stays there.
pub proof fn errors_are_classified(session: Session, event: EventView, err: MadError)
    requires
        session.accepts(event),
        match event {
            EventView::HeaderDecoded { error, .. } => error == Some(err),
            EventView::FrameDecoded { error } => error == Some(err),
            EventView::Synthesized { error, .. } => error == Some(err),
            _ => false,
        },
    ensures
        err == MadError::BufLen ==> session.step(event).1 == StepView::Ask(Request::BytesConsumed),
        err != MadError::BufLen ==> session.step(event).1 == StepView::Done(
            Err::<FrameView, SimplemadError>(SimplemadError::Mad(err)),
        ),
        err != MadError::BufLen && recoverable(err) ==> session.step(event).0.error is None,
        err != MadError::BufLen && !recoverable(err) ==> session.step(event).0.error == Some(err),
        session.step(event).0.position == session.position,
{
}

/// An exhausted window never reaches the caller, neither as the result of a
/// pull nor as an item of an iteration.
pub proof fn exhaustion_never_reaches_the_caller(session: Session, event: EventView)
    ensures
        session.step(event).1 != StepView::Done(
            Err::<FrameView, SimplemadError>(SimplemadError::Mad(MadError::BufLen)),
        ),
        session.poll(event).1 != PollView::Item(
            Some(Err::<FrameView, SimplemadError>(SimplemadError::Mad(MadError::BufLen))),
        ),
{
}

/// An iteration yields the frames that the pulls yield, one item for each
/// frame, and moves the session as the pulls do: as long as the iteration
/// is not exhausted, a frame is the item of a step exactly when it is the
/// result of the pull.
pub proof fn iteration_yields_the_frames(session: Session, event: EventView, frame: FrameView)
    requires
        !session.exhausted(),
    ensures
        session.poll(event).0 == session.step(event).0,
        session.poll(event).1 == PollView::Item(Some(Ok::<FrameView, SimplemadError>(frame)))
            <==> session.step(event).1 == StepView::Done(
            Ok::<FrameView, SimplemadError>(frame),
        ),
        session.poll(event).1 is Ask <==> session.step(event).1 is Ask,
{
}

/// A fatal error of the engine ends an iteration for good: once a pull has
/// ended with it, the iteration yields nothing more, asks nothing more of
/// the host, and stays as it is. The end of the stream is never an item of
/// an iteration, but its end.
pub proof fn fatal_errors_end_the_iteration(session: Session, event: EventView, err: MadError)
    requires
        session.step(event).1 == StepView::Done(
            Err::<FrameView, SimplemadError>(SimplemadError::Mad(err)),
        ),
        !recoverable(err),
    ensures
        session.step(event).0.exhausted(),
        session.step(event).0.poll(EventView::Pull) == (
            session.step(event).0,
            PollView::Item(None),
        ),
        !(session.poll(event).1 matches PollView::Item(Some(Err(SimplemadError::EOF)))),
{
}

} // verus!
