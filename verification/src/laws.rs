use vstd::prelude::*;
use crate::error::CaptureError;
use crate::frame::Frame;
use crate::session::{start_outcome_of, Event, SessionState};

verus! {

/// Running a sequence with one more event at its end is running the
/// sequence and then taking one step.
pub proof fn lemma_run_push(s: SessionState, events: Seq<Event>, event: Event)
    ensures
        s.run(events.push(event)) == s.run(events).step(event),
        s.publish_count(events.push(event)) == s.publish_count(events) + (if s.run(
            events,
        ).publishes(event) {
            1nat
        } else {
            0nat
        }),
{
    assert(events.push(event).drop_last() =~= events);
    assert(events.push(event).last() == event);
}

/// No event leads a well-formed state to one that is not.
pub proof fn lemma_step_preserves_wf(s: SessionState, event: Event)
    requires
        s.wf(),
    ensures
        s.step(event).wf(),
{
}

/// No sequence of events leads a well-formed state to one that is not.
pub proof fn lemma_run_preserves_wf(s: SessionState, events: Seq<Event>)
    requires
        s.wf(),
    ensures
        s.run(events).wf(),
    decreases events.len(),
{
    if events.len() > 0 {
        lemma_run_preserves_wf(s, events.drop_last());
        lemma_step_preserves_wf(s.run(events.drop_last()), events.last());
    }
}

/// The capture flag is cleared once: after it is false, no sequence of
/// events makes it true again.
pub proof fn lemma_flag_stays_cleared(s: SessionState, events: Seq<Event>)
    requires
        !s.capturing,
    ensures
        !s.run(events).capturing,
    decreases events.len(),
{
    if events.len() > 0 {
        lemma_flag_stays_cleared(s, events.drop_last());
    }
}

/// The slot changes only by a publish: over a sequence of events of which
/// none publishes, the frame stays what it was.
pub proof fn lemma_frame_changes_only_by_publish(s: SessionState, events: Seq<Event>)
    requires
        s.publish_count(events) == 0,
    ensures
        s.run(events).frame == s.frame,
    decreases events.len(),
{
    if events.len() > 0 {
        lemma_frame_changes_only_by_publish(s, events.drop_last());
    }
}

/// The frame that a sequence of events leaves in the slot: the one of the
/// last event that published, or the one that was there before.
pub open spec fn last_published(s: SessionState, events: Seq<Event>) -> Option<Frame>
    decreases events.len(),
{
    if events.len() == 0 {
        s.frame
    } else if s.run(events.drop_last()).publishes(events.last()) {
        match events.last() {
            Event::Fetched(Ok(frame)) => Some(frame),
            _ => None,
        }
    } else {
        last_published(s, events.drop_last())
    }
}

/// Frames become visible in the order in which they were published: after
/// any sequence of events the slot holds the frame that was published
/// last, never an earlier one.
pub proof fn lemma_slot_holds_the_last_publish(s: SessionState, events: Seq<Event>)
    ensures
        s.run(events).frame == last_published(s, events),
    decreases events.len(),
{
    if events.len() > 0 {
        lemma_slot_holds_the_last_publish(s, events.drop_last());
    }
}

/// A failure to start is final. Once the loop has reported replies of
/// which one is a refusal, whatever happens later, `check_err` reports that
/// same failure and `poll_frame` finds nothing.
pub proof fn lemma_start_failure_is_final(
    s: SessionState,
    format_set: Result<(), String>,
    stream_opened: Result<(), String>,
    later: Seq<Event>,
)
    requires
        s.wf(),
        s.phase is Starting,
        start_outcome_of(format_set, stream_opened) is Err,
    ensures
        s.step(Event::Started(format_set, stream_opened)).run(later).phase is Failed,
        s.step(Event::Started(format_set, stream_opened)).run(later).error == Some(
            start_outcome_of(format_set, stream_opened)->Err_0,
        ),
        s.step(Event::Started(format_set, stream_opened)).run(later).frame is None,
        s.step(Event::Started(format_set, stream_opened)).publish_count(later) == 0,
    decreases later.len(),
{
    if later.len() > 0 {
        lemma_start_failure_is_final(s, format_set, stream_opened, later.drop_last());
        lemma_run_preserves_wf(
            s.step(Event::Started(format_set, stream_opened)),
            later.drop_last(),
        );
    }
}

/// Teardown stops publication within one fetch.
///
/// After teardown at most one more frame is published, the one of the
/// iteration that was in flight, and none at all if none was. Whatever
/// happens later, the loop is told to exit at the top of its next iteration.
pub proof fn lemma_teardown_ends_publication(s: SessionState, later: Seq<Event>)
    ensures
        s.step(Event::Teardown).publish_count(later) <= 1,
        !s.in_flight ==> s.step(Event::Teardown).publish_count(later) == 0,
        !s.in_flight ==> s.step(Event::Teardown).run(later).frame == s.frame,
        s.step(Event::Teardown).run(later).loop_action() is Exit,
{
    let t = s.step(Event::Teardown);
    lemma_publications_after_teardown(t, later);
    lemma_flag_stays_cleared(t, later);
    if !s.in_flight {
        lemma_frame_changes_only_by_publish(t, later);
    }
}

/// With the flag cleared, the publishes of a sequence and the iteration
/// still in flight after it are together no more than the iteration in
/// flight before it.
proof fn lemma_publications_after_teardown(t: SessionState, later: Seq<Event>)
    requires
        !t.capturing,
    ensures
        t.publish_count(later) + (if t.run(later).in_flight {
            1nat
        } else {
            0nat
        }) <= (if t.in_flight {
            1nat
        } else {
            0nat
        }),
    decreases later.len(),
{
    if later.len() > 0 {
        lemma_publications_after_teardown(t, later.drop_last());
        lemma_flag_stays_cleared(t, later.drop_last());
    }
}

/// The events of one loop iteration after another in which the fetch or the
/// decoding failed, one iteration for each of the given errors.
pub open spec fn failed_rounds(errors: Seq<CaptureError>) -> Seq<Event>
    decreases errors.len(),
{
    if errors.len() == 0 {
        Seq::empty()
    } else {
        failed_rounds(errors.drop_last()).push(Event::IterationBegins).push(
            Event::Fetched(Err(errors.last())),
        )
    }
}

/// Failed fetches are harmless, however many there are.
///
/// After any number of iterations that failed, a running session is still
/// running, its latch is still empty, its slot holds what it held, and the
/// loop is told to fetch again. A fetch that then succeeds is published.
pub proof fn lemma_fetch_failures_are_harmless(
    s: SessionState,
    errors: Seq<CaptureError>,
    frame: Frame,
)
    requires
        s.wf(),
        s.phase is Running,
    ensures
        s.run(failed_rounds(errors)).phase is Running,
        s.run(failed_rounds(errors)).capturing,
        s.run(failed_rounds(errors)).error is None,
        s.run(failed_rounds(errors)).frame == s.frame,
        s.run(failed_rounds(errors)).loop_action() is Fetch,
        s.publish_count(failed_rounds(errors)) == 0,
        s.run(
            failed_rounds(errors).push(Event::IterationBegins).push(Event::Fetched(Ok(frame))),
        ).frame == Some(frame),
        s.run(
            failed_rounds(errors).push(Event::IterationBegins).push(Event::Fetched(Ok(frame))),
        ).error is None,
    decreases errors.len(),
{
    let rounds = failed_rounds(errors);
    if errors.len() > 0 {
        let earlier = failed_rounds(errors.drop_last());
        let dummy = frame;
        lemma_fetch_failures_are_harmless(s, errors.drop_last(), dummy);
        lemma_run_push(s, earlier, Event::IterationBegins);
        lemma_run_push(
            s,
            earlier.push(Event::IterationBegins),
            Event::Fetched(Err(errors.last())),
        );
    }
    lemma_run_push(s, rounds, Event::IterationBegins);
    lemma_run_push(s, rounds.push(Event::IterationBegins), Event::Fetched(Ok(frame)));
}

} // verus!
