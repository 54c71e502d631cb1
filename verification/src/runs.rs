//! What holds of whole runs of a decode session.
//!
//! A run is a session together with the events that its host reports, one
//! after the other. The laws here follow a session from its first event to
//! its last, and speak of all the frames that it yields on the way. They hold
//! whatever the events are: an event that does not fit is refused and
//! changes nothing.

use crate::frame::FrameView;
use crate::laws::{
    an_ended_session_stays_ended, bounds_are_idle_within, end_bound_is_idle_until_passed,
    no_step_of_an_empty_interval_yields, position_follows_frames, refill_keeps_the_bytes,
    step_is_sound, step_keeps_settings,
};
use crate::session::{EventView, Phase, Session, StepView};
use crate::timing::advanced;
use vstd::prelude::*;

verus! {

/// The sum of the durations of `frames`, in timer ticks.
pub open spec fn total_duration(frames: Seq<FrameView>) -> int
    decreases frames.len(),
{
    if frames.len() == 0 {
        0
    } else {
        total_duration(frames.drop_last()) + frames.last().duration
    }
}

impl Session {
    /// The session after `events`, taken in their order.
    pub open spec fn run(self, events: Seq<EventView>) -> Session
        decreases events.len(),
    {
        if events.len() == 0 {
            self
        } else {
            self.run(events.drop_last()).step(events.last()).0
        }
    }

    /// The frames that the session yields while it takes `events`, in the
    /// order in which it yields them.
    pub open spec fn yielded(self, events: Seq<EventView>) -> Seq<FrameView>
        decreases events.len(),
    {
        if events.len() == 0 {
            Seq::empty()
        } else {
            let earlier = self.yielded(events.drop_last());
            match self.run(events.drop_last()).step(events.last()).1 {
                StepView::Done(Ok(frame)) => earlier.push(frame),
                _ => earlier,
            }
        }
    }

    /// The playing time of all units that the engine decodes while the
    /// session takes `events`, those that the session yields as frames and
    /// those that it skips, in timer ticks.
    pub open spec fn played(self, events: Seq<EventView>) -> int
        decreases events.len(),
    {
        if events.len() == 0 {
            0
        } else {
            self.played(events.drop_last()) + if self.run(events.drop_last()).decodes(
                events.last(),
            ) {
                Session::decoded_ticks(events.last())
            } else {
                0
            }
        }
    }

    /// The durations of the units that the engine decodes for the caller
    /// while the session takes `events`, in their order and in timer ticks.
    /// These are the headers decoded for frames without samples and the
    /// frames synthesised, each decoded without error; headers that are
    /// skipped do not count.
    pub open spec fn decoded_for_caller(self, events: Seq<EventView>) -> Seq<int>
        decreases events.len(),
    {
        if events.len() == 0 {
            Seq::empty()
        } else {
            let before = self.run(events.drop_last());
            let earlier = self.decoded_for_caller(events.drop_last());
            if before.decodes(events.last()) && before.phase != Phase::Seeking {
                earlier.push(Session::decoded_ticks(events.last()))
            } else {
                earlier
            }
        }
    }

    /// The bytes that the reads among `events` deliver to the session, one
    /// read after the other.
    pub open spec fn delivered(self, events: Seq<EventView>) -> Seq<u8>
        decreases events.len(),
    {
        if events.len() == 0 {
            Seq::empty()
        } else {
            self.delivered(events.drop_last()) + match events.last() {
                EventView::Data(data) => if self.run(events.drop_last()).accepts(events.last()) {
                    data
                } else {
                    Seq::empty()
                },
                _ => Seq::empty(),
            }
        }
    }
}

/// A run keeps a session sound, leaves its mode and its bounds as they
/// are, and never moves its position back.
pub proof fn run_is_sound(session: Session, events: Seq<EventView>)
    requires
        session.wf(),
    ensures
        session.run(events).wf(),
        session.run(events).headers_only == session.headers_only,
        session.run(events).start == session.start,
        session.run(events).end == session.end,
        session.run(events).position >= session.position,
    decreases events.len(),
{
    if events.len() > 0 {
        let before = session.run(events.drop_last());
        run_is_sound(session, events.drop_last());
        step_is_sound(before, events.last());
        step_keeps_settings(before, events.last());
        position_follows_frames(before, events.last());
    }
}

/// The position of a session is the playing time of all that it has
/// decoded: after a run it lies behind the position before the run by the
/// playing time of the units decoded in the run, the skipped ones included.
pub proof fn position_is_the_time_played(session: Session, events: Seq<EventView>)
    ensures
        session.played(events) >= 0,
        session.run(events).position == advanced(
            session.position as int,
            session.played(events),
        ),
    decreases events.len(),
{
    if events.len() > 0 {
        let before = session.run(events.drop_last());
        position_is_the_time_played(session, events.drop_last());
        position_follows_frames(before, events.last());
    }
}

/// Without a start bound nothing is skipped: the playing time of a run is
/// the sum of the durations of the frames that it yields. So the position
/// after a run from the start of a stream is the sum of the durations of all
/// frames yielded.
pub proof fn time_played_is_the_sum_of_durations(session: Session, events: Seq<EventView>)
    requires
        session.wf(),
        session.start is None,
    ensures
        session.played(events) == total_duration(session.yielded(events)),
        session.run(events).position == advanced(
            session.position as int,
            total_duration(session.yielded(events)),
        ),
    decreases events.len(),
{
    position_is_the_time_played(session, events);
    if events.len() > 0 {
        let before = session.run(events.drop_last());
        time_played_is_the_sum_of_durations(session, events.drop_last());
        run_is_sound(session, events.drop_last());
        position_follows_frames(before, events.last());
        let earlier = session.yielded(events.drop_last());
        match before.step(events.last()).1 {
            StepView::Done(Ok(frame)) => {
                assert(earlier.push(frame).drop_last() =~= earlier);
            },
            _ => {},
        }
    }
}

/// No frame is yielded twice and none is left out. Each frame starts where
/// the playing time before it ends: the first no earlier than the position
/// before the run, each later one no earlier than the end of the frame
/// before it, and the position after the run lies no earlier than the end of
/// the last. Without a start bound there are no gaps either: the first frame
/// starts at the position before the run, each later one exactly at the end
/// of the one before it, and the run ends at the end of the last.
pub proof fn frames_follow_one_another(session: Session, events: Seq<EventView>)
    requires
        session.wf(),
    ensures
        ({
            let frames = session.yielded(events);
            let end = session.run(events).position;
            &&& forall|i: int| 0 <= i < frames.len() ==> session.position <= (#[trigger] frames[i]).position
            &&& forall|i: int|
                0 <= i < frames.len() - 1 ==> advanced(
                    frames[i].position as int,
                    frames[i].duration as int,
                ) <= (#[trigger] frames[i + 1]).position
            &&& frames.len() > 0 ==> advanced(
                frames.last().position as int,
                frames.last().duration as int,
            ) <= end
            &&& session.start is None ==> {
                &&& frames.len() == 0 ==> end == session.position
                &&& frames.len() > 0 ==> frames[0].position == session.position
                &&& forall|i: int|
                    0 <= i < frames.len() - 1 ==> (#[trigger] frames[i + 1]).position == advanced(
                        frames[i].position as int,
                        frames[i].duration as int,
                    )
                &&& frames.len() > 0 ==> end == advanced(
                    frames.last().position as int,
                    frames.last().duration as int,
                )
            }
        }),
    decreases events.len(),
{
    if events.len() > 0 {
        let before = session.run(events.drop_last());
        frames_follow_one_another(session, events.drop_last());
        run_is_sound(session, events.drop_last());
        position_follows_frames(before, events.last());
    }
}

/// Every unit that the engine decodes for the caller is yielded as one
/// frame, of the duration that the engine reports for it, whether frames
/// come from headers alone or in full. So two runs in which the engine
/// decodes the same units yield equally many frames, of the same durations
/// in the same order.
pub proof fn each_decoded_unit_yields_a_frame(session: Session, events: Seq<EventView>)
    ensures
        session.yielded(events).len() == session.decoded_for_caller(events).len(),
        forall|i: int|
            0 <= i < session.yielded(events).len() ==> (#[trigger] session.yielded(
                events,
            )[i]).duration == session.decoded_for_caller(events)[i],
    decreases events.len(),
{
    if events.len() > 0 {
        let before = session.run(events.drop_last());
        each_decoded_unit_yields_a_frame(session, events.drop_last());
        position_follows_frames(before, events.last());
    }
}

/// Frames from headers alone and frames in full agree in number and in
/// duration. When the engine decodes the same units for the caller in two
/// runs, one in each mode, both runs yield equally many frames, and the
/// frames have the same durations in the same order.
pub proof fn modes_agree_on_count_and_durations(
    headers: Session,
    header_events: Seq<EventView>,
    full: Session,
    full_events: Seq<EventView>,
)
    requires
        headers.headers_only,
        !full.headers_only,
        headers.decoded_for_caller(header_events) == full.decoded_for_caller(full_events),
    ensures
        headers.yielded(header_events).len() == full.yielded(full_events).len(),
        forall|i: int|
            0 <= i < headers.yielded(header_events).len() ==> (#[trigger] headers.yielded(
                header_events,
            )[i]).duration == full.yielded(full_events)[i].duration,
{
    each_decoded_unit_yields_a_frame(headers, header_events);
    each_decoded_unit_yields_a_frame(full, full_events);
}

/// Every frame that a run yields lies within the bounds of the session.
pub proof fn yielded_frames_lie_within_bounds(session: Session, events: Seq<EventView>)
    requires
        session.wf(),
    ensures
        forall|i: int|
            #![trigger session.yielded(events)[i]]
            0 <= i < session.yielded(events).len() ==> {
                &&& session.start matches Some(start) ==> start <= session.yielded(
                    events,
                )[i].position
                &&& session.end matches Some(end) ==> session.yielded(events)[i].position <= end
            },
    decreases events.len(),
{
    if events.len() > 0 {
        yielded_frames_lie_within_bounds(session, events.drop_last());
        run_is_sound(session, events.drop_last());
    }
}

/// An interval whose start and end are the same tick yields no frame.
pub proof fn empty_interval_yields_nothing(session: Session, events: Seq<EventView>)
    requires
        session.wf(),
        session.empty_interval(),
    ensures
        session.yielded(events).len() == 0,
    decreases events.len(),
{
    if events.len() > 0 {
        empty_interval_yields_nothing(session, events.drop_last());
        run_is_sound(session, events.drop_last());
        no_step_of_an_empty_interval_yields(session.run(events.drop_last()), events.last());
    }
}

/// Nothing follows the end of a session: whatever events come after a
/// failed read or after the end of the source, the session yields no frame
/// and stays as it is.
pub proof fn nothing_follows_the_end(session: Session, events: Seq<EventView>)
    requires
        session.wf(),
        session.ended,
    ensures
        session.run(events) == session,
        session.yielded(events).len() == 0,
    decreases events.len(),
{
    if events.len() > 0 {
        nothing_follows_the_end(session, events.drop_last());
        an_ended_session_stays_ended(session, events.last());
    }
}

/// As long as a session has not reached its start bound, it has yielded no
/// frame. So an interval that starts beyond the end of the stream yields
/// none at all.
pub proof fn nothing_is_yielded_until_the_start(session: Session, events: Seq<EventView>)
    requires
        session.wf(),
        session.run(events).before_start(),
    ensures
        session.yielded(events).len() == 0,
    decreases events.len(),
{
    if events.len() > 0 {
        let before = session.run(events.drop_last());
        run_is_sound(session, events.drop_last());
        step_keeps_settings(before, events.last());
        position_follows_frames(before, events.last());
        nothing_is_yielded_until_the_start(session, events.drop_last());
    }
}

/// From its start bound on, and as long as it has not passed its end bound,
/// a session runs as a session without bounds does: it yields the same
/// frames and arrives at the same state. So an end bound beyond the end of
/// the stream yields every frame from the start bound to the end of the
/// stream.
pub proof fn bounds_are_idle_between(session: Session, events: Seq<EventView>)
    requires
        session.wf(),
        !session.before_start(),
        !session.run(events).past_end(),
    ensures
        session.unbounded().run(events) == session.run(events).unbounded(),
        session.unbounded().yielded(events) == session.yielded(events),
    decreases events.len(),
{
    if events.len() > 0 {
        let before = session.run(events.drop_last());
        run_is_sound(session, events.drop_last());
        step_keeps_settings(before, events.last());
        position_follows_frames(before, events.last());
        bounds_are_idle_between(session, events.drop_last());
        bounds_are_idle_within(before, events.last());
    }
}

/// An end bound that is never passed changes nothing. Two sessions that
/// differ in their end bounds alone yield the same frames and go through
/// the same states, as long as the position has passed neither bound; one
/// of them may have no end bound at all. So every end bound beyond the end
/// of the stream yields the same frames: all from the start bound to the end
/// of the stream.
pub proof fn end_bounds_beyond_the_stream_agree(
    session: Session,
    events: Seq<EventView>,
    other_end: Option<u64>,
)
    requires
        session.wf(),
        !session.run(events).past_end(),
        !session.run(events).with_end(other_end).past_end(),
    ensures
        session.with_end(other_end).run(events) == session.run(events).with_end(other_end),
        session.with_end(other_end).yielded(events) == session.yielded(events),
    decreases events.len(),
{
    if events.len() > 0 {
        let before = session.run(events.drop_last());
        run_is_sound(session, events.drop_last());
        step_keeps_settings(before, events.last());
        position_follows_frames(before, events.last());
        end_bounds_beyond_the_stream_agree(session, events.drop_last(), other_end);
        end_bound_is_idle_until_passed(before, events.last(), other_end);
    }
}

/// The reads of a refill fill the window in their order: after any number
/// of reads the window holds what it held before them, followed by all that
/// they delivered, and the count of fresh bytes has grown by as much.
pub proof fn reads_append_in_order(session: Session, events: Seq<EventView>)
    requires
        session.wf(),
        forall|i: int| 0 <= i < events.len() ==> (#[trigger] events[i]) is Data,
    ensures
        session.run(events).buffer.window() == session.buffer.window() + session.delivered(
            events,
        ),
        session.run(events).fresh == session.fresh + session.delivered(events).len(),
    decreases events.len(),
{
    if events.len() > 0 {
        let before = session.run(events.drop_last());
        reads_append_in_order(session, events.drop_last());
        run_is_sound(session, events.drop_last());
        refill_keeps_the_bytes(before, events.last());
        assert(session.run(events).buffer.window() =~= session.buffer.window()
            + session.delivered(events));
    }
}

/// A refill loses no byte of the stream and repeats none: when the engine
/// has consumed the window up to an offset and the reads of the refill are
/// done, the window holds the bytes that were not consumed, followed by all
/// that the reads delivered, and nothing else.
pub proof fn refill_continues_the_stream(session: Session, consumed: usize, reads: Seq<EventView>)
    requires
        session.wf(),
        session.phase == Phase::Offset,
        forall|i: int| 0 <= i < reads.len() ==> (#[trigger] reads[i]) is Data,
    ensures
        ({
            let compacted = session.step(EventView::BytesConsumed(consumed)).0;
            &&& compacted.run(reads).buffer.window() == session.buffer.unconsumed(
                consumed as nat,
            ) + compacted.delivered(reads)
            &&& compacted.run(reads).fresh == compacted.delivered(reads).len()
        }),
{
    let compacted = session.step(EventView::BytesConsumed(consumed)).0;
    step_is_sound(session, EventView::BytesConsumed(consumed));
    refill_keeps_the_bytes(session, EventView::BytesConsumed(consumed));
    reads_append_in_order(compacted, reads);
}

} // verus!
