//! What a watcher does over a whole run of events, and what holds of every
//! such run.

use crate::state::StreamKind;
use crate::watcher::{
    emission, spec_transition_line, state_name, StreamEvent, StreamEventView, WatchPhase,
};
use vstd::prelude::*;

verus! {

/// A written line together with the stream whose change it reports.
pub struct Emission {
    pub stream: StreamKind,
    pub line: Seq<char>,
}

/// The views of a run of events.
pub open spec fn event_views(events: Seq<StreamEvent>) -> Seq<StreamEventView> {
    Seq::new(events.len(), |i: int| events[i]@)
}

/// The views of a run of strings.
pub open spec fn texts(lines: Seq<String>) -> Seq<Seq<char>> {
    Seq::new(lines.len(), |i: int| lines[i]@)
}

/// The line that an event makes a watcher write, with its stream.
pub open spec fn tagged_emission(name: Seq<char>, phase: WatchPhase, event: StreamEventView)
    -> Option<Emission> {
    match emission(name, phase, event) {
        Some(line) => Some(Emission { stream: event.stream(), line }),
        None => None,
    }
}

/// The phase of a watcher that started in `phase` and took `events` in order.
pub open spec fn phase_after(phase: WatchPhase, events: Seq<StreamEventView>) -> WatchPhase
    decreases events.len(),
{
    if events.len() == 0 {
        phase
    } else {
        phase_after(phase, events.drop_last()).next(events.last())
    }
}

/// Everything that a watcher of the unit `name`, started in `phase`, writes
/// while it takes `events` in order.
pub open spec fn emissions(name: Seq<char>, phase: WatchPhase, events: Seq<StreamEventView>) -> Seq<
    Emission,
>
    decreases events.len(),
{
    if events.len() == 0 {
        Seq::empty()
    } else {
        let earlier = emissions(name, phase, events.drop_last());
        match tagged_emission(name, phase_after(phase, events.drop_last()), events.last()) {
            Some(written) => earlier.push(written),
            None => earlier,
        }
    }
}

/// The lines of a run of emissions, in their order.
pub open spec fn lines_of(written: Seq<Emission>) -> Seq<Seq<char>> {
    Seq::new(written.len(), |i: int| written[i].line)
}

/// The lines that a watcher writes over a run of events.
pub open spec fn emitted_lines(name: Seq<char>, phase: WatchPhase, events: Seq<StreamEventView>)
    -> Seq<Seq<char>> {
    lines_of(emissions(name, phase, events))
}

/// Whether an event is dropped without a trace wherever it arrives: a failed
/// fetch, or a change to a value outside the enumeration of its stream.
pub open spec fn is_dropped(event: StreamEventView) -> bool {
    match event {
        StreamEventView::Changed { stream, value } => state_name(stream, value) is None,
        StreamEventView::FetchFailed { .. } => true,
        StreamEventView::Ended { .. } => false,
    }
}

/// Taking two runs of events one after the other is taking them as one run:
/// the phases agree, and the lines of the second run follow those of the
/// first.
pub proof fn lemma_runs_compose(
    name: Seq<char>,
    phase: WatchPhase,
    first: Seq<StreamEventView>,
    second: Seq<StreamEventView>,
)
    ensures
        phase_after(phase, first + second) == phase_after(phase_after(phase, first), second),
        emissions(name, phase, first + second) == emissions(name, phase, first) + emissions(
            name,
            phase_after(phase, first),
            second,
        ),
    decreases second.len(),
{
    if second.len() > 0 {
        assert((first + second).drop_last() =~= first + second.drop_last());
        lemma_runs_compose(name, phase, first, second.drop_last());
    }
}

/// A dropped event leaves no trace in a run: with the event taken out, the
/// watcher ends in the same phase and has written the same lines.
proof fn lemma_dropped_event_leaves_no_trace(
    name: Seq<char>,
    phase: WatchPhase,
    before: Seq<StreamEventView>,
    event: StreamEventView,
    after: Seq<StreamEventView>,
)
    requires
        is_dropped(event),
    ensures
        phase_after(phase, before.push(event) + after) == phase_after(phase, before + after),
        emissions(name, phase, before.push(event) + after) == emissions(
            name,
            phase,
            before + after,
        ),
{
    assert(before.push(event).drop_last() =~= before);
    lemma_runs_compose(name, phase, before.push(event), after);
    lemma_runs_compose(name, phase, before, after);
}

/// A value outside the enumeration of its stream produces no line and leaves
/// the watcher running as before: the run with the change in it ends in the
/// same phase, and writes the same lines, as the run without it.
pub proof fn lemma_unknown_value_is_silent(
    name: Seq<char>,
    phase: WatchPhase,
    before: Seq<StreamEventView>,
    stream: StreamKind,
    raw: Seq<char>,
    after: Seq<StreamEventView>,
)
    requires
        state_name(stream, raw) is None,
    ensures
        phase_after(
            phase,
            before.push(StreamEventView::Changed { stream, value: raw }) + after,
        ) == phase_after(phase, before + after),
        emissions(
            name,
            phase,
            before.push(StreamEventView::Changed { stream, value: raw }) + after,
        ) == emissions(name, phase, before + after),
{
    lemma_dropped_event_leaves_no_trace(
        name,
        phase,
        before,
        StreamEventView::Changed { stream, value: raw },
        after,
    );
}

/// A failed fetch does not end the watcher: what comes after it on any
/// stream is handled as if the failed notification had never arrived.
pub proof fn lemma_fetch_failure_is_skipped(
    name: Seq<char>,
    phase: WatchPhase,
    before: Seq<StreamEventView>,
    stream: StreamKind,
    after: Seq<StreamEventView>,
)
    ensures
        phase_after(phase, before.push(StreamEventView::FetchFailed { stream }) + after)
            == phase_after(phase, before + after),
        emissions(name, phase, before.push(StreamEventView::FetchFailed { stream }) + after)
            == emissions(name, phase, before + after),
{
    lemma_dropped_event_leaves_no_trace(
        name,
        phase,
        before,
        StreamEventView::FetchFailed { stream },
        after,
    );
}

/// A watcher that listens to neither stream stays as it is and writes
/// nothing, whatever arrives: one that still waits for its subscription, one
/// that is finished, and one that failed.
pub proof fn lemma_silent_unless_listening(
    name: Seq<char>,
    phase: WatchPhase,
    events: Seq<StreamEventView>,
)
    requires
        !phase.listens(StreamKind::ActiveState),
        !phase.listens(StreamKind::LoadState),
    ensures
        phase_after(phase, events) == phase,
        emissions(name, phase, events) == Seq::<Emission>::empty(),
    decreases events.len(),
{
    if events.len() > 0 {
        lemma_silent_unless_listening(name, phase, events.drop_last());
    }
}

/// A watcher with both streams open is finished exactly when each of the two
/// has ended; while only one has, it still listens to the other.
pub proof fn lemma_finished_iff_both_ended(events: Seq<StreamEventView>)
    ensures
        phase_after(WatchPhase::Watching, events) == (if events.contains(
            StreamEventView::Ended { stream: StreamKind::ActiveState },
        ) {
            if events.contains(StreamEventView::Ended { stream: StreamKind::LoadState }) {
                WatchPhase::Finished
            } else {
                WatchPhase::LoadOnly
            }
        } else {
            if events.contains(StreamEventView::Ended { stream: StreamKind::LoadState }) {
                WatchPhase::ActiveOnly
            } else {
                WatchPhase::Watching
            }
        }),
    decreases events.len(),
{
    if events.len() > 0 {
        let earlier = events.drop_last();
        let last = events.last();
        lemma_finished_iff_both_ended(earlier);
        assert forall|e: StreamEventView|
            events.contains(e) <==> (earlier.contains(e) || e == last) by {
            if events.contains(e) {
                let i = choose|i: int| 0 <= i < events.len() && events[i] == e;
                if i < earlier.len() {
                    assert(earlier[i] == e);
                }
            }
        }
    }
}

/// The run of events in which one stream announces the given values, one
/// after the other, each fetched in full.
pub open spec fn changes(stream: StreamKind, values: Seq<Seq<char>>) -> Seq<StreamEventView> {
    Seq::new(values.len(), |i: int| StreamEventView::Changed { stream, value: values[i] })
}

/// A stream's changes are written one for one and in the order of their
/// arrival: a watcher that listens to a stream which delivers values of its
/// enumeration writes exactly one line for each, in that order.
pub proof fn lemma_changes_are_written_in_order(
    name: Seq<char>,
    phase: WatchPhase,
    stream: StreamKind,
    values: Seq<Seq<char>>,
)
    requires
        phase.listens(stream),
        forall|i: int| 0 <= i < values.len() ==> state_name(stream, #[trigger] values[i]) is Some,
    ensures
        phase_after(phase, changes(stream, values)) == phase,
        emissions(name, phase, changes(stream, values)) == Seq::new(
            values.len(),
            |i: int|
                Emission {
                    stream,
                    line: spec_transition_line(name, stream, state_name(stream, values[i])->0),
                },
        ),
    decreases values.len(),
{
    if values.len() > 0 {
        let earlier = values.drop_last();
        lemma_changes_are_written_in_order(name, phase, stream, earlier);
        assert(changes(stream, values).drop_last() =~= changes(stream, earlier));
    }
}

/// The two streams of a unit do not disturb each other, and each keeps its
/// order: what a watcher writes for one stream, read off the whole run in
/// order, is what it writes when the other stream's events are left out.
pub proof fn lemma_stream_order_kept(
    name: Seq<char>,
    phase: WatchPhase,
    events: Seq<StreamEventView>,
    stream: StreamKind,
)
    ensures
        emissions(name, phase, events).filter(|written: Emission| written.stream == stream)
            == emissions(
            name,
            phase,
            events.filter(|event: StreamEventView| event.stream() == stream),
        ),
{
    lemma_stream_alone(name, phase, phase, events, stream);
}

/// The induction behind `lemma_stream_order_kept`: two watchers that agree
/// on whether they listen to a stream write the same for it, one taking the
/// whole run and the other only that stream's events.
proof fn lemma_stream_alone(
    name: Seq<char>,
    whole: WatchPhase,
    alone: WatchPhase,
    events: Seq<StreamEventView>,
    stream: StreamKind,
)
    requires
        whole.listens(stream) == alone.listens(stream),
    ensures
        phase_after(whole, events).listens(stream) == phase_after(
            alone,
            events.filter(|event: StreamEventView| event.stream() == stream),
        ).listens(stream),
        emissions(name, whole, events).filter(|written: Emission| written.stream == stream)
            == emissions(
            name,
            alone,
            events.filter(|event: StreamEventView| event.stream() == stream),
        ),
    decreases events.len(),
{
    reveal(Seq::filter);
    if events.len() > 0 {
        let earlier = events.drop_last();
        let last = events.last();
        lemma_stream_alone(name, whole, alone, earlier, stream);
        let written = emissions(name, whole, earlier);
        if let Some(line) = tagged_emission(name, phase_after(whole, earlier), last) {
            assert(written.push(line).drop_last() =~= written);
        }
        if last.stream() == stream {
            let kept = earlier.filter(|event: StreamEventView| event.stream() == stream);
            assert(kept.push(last).drop_last() =~= kept);
        }
    }
}

} // verus!
