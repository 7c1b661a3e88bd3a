//! The watcher of one unit: two change streams joined into one run of lines.
//!
//! A watcher is a state machine. The caller subscribes to the unit's two
//! streams, reports what they deliver as [`StreamEvent`]s, and writes out
//! what [`UnitWatcher::on_event`] hands back.

use crate::path::{is_object_path, object_path_accepted};
use crate::state::{ActiveState, LoadState, StreamKind};
use crate::trace::{emitted_lines, event_views, phase_after, texts};
use crate::unit::{Unit, UnitView};
use vstd::prelude::*;
use vstd::string::*;

verus! {

/// Why a watcher could not subscribe to its unit. Either ends that watcher
/// and no other.
#[derive(Clone, Copy, Debug, PartialEq, Eq, Structural)]
pub enum SetupError {
    /// The unit's path is no well-formed object path.
    InvalidPath,
    /// The bus did not grant the subscription.
    Refused,
}

/// Where a watcher stands in its life.
#[derive(Clone, Copy, Debug, PartialEq, Eq, Structural)]
pub enum WatchPhase {
    /// The subscription has not been answered yet.
    Subscribing,
    /// Both streams are open.
    Watching,
    /// The load-state stream has ended, the active-state stream is open.
    ActiveOnly,
    /// The active-state stream has ended, the load-state stream is open.
    LoadOnly,
    /// Both streams have ended.
    Finished,
    /// The subscription failed.
    Failed(SetupError),
}

/// What a stream delivers.
#[derive(Debug, PartialEq, Eq)]
pub enum StreamEvent {
    /// A change was announced and its value fetched.
    Changed { stream: StreamKind, value: String },
    /// A change was announced and its value could not be fetched.
    FetchFailed { stream: StreamKind },
    /// The stream has ended.
    Ended { stream: StreamKind },
}

/// A stream event with its value as a sequence of characters.
pub enum StreamEventView {
    Changed { stream: StreamKind, value: Seq<char> },
    FetchFailed { stream: StreamKind },
    Ended { stream: StreamKind },
}

impl View for StreamEvent {
    type V = StreamEventView;

    open spec fn view(&self) -> StreamEventView {
        match self {
            StreamEvent::Changed { stream, value } => StreamEventView::Changed {
                stream: *stream,
                value: value@,
            },
            StreamEvent::FetchFailed { stream } => StreamEventView::FetchFailed { stream: *stream },
            StreamEvent::Ended { stream } => StreamEventView::Ended { stream: *stream },
        }
    }
}

impl Clone for StreamEvent {
    fn clone(&self) -> (copy: StreamEvent)
        ensures
            copy@ == self@,
    {
        match self {
            StreamEvent::Changed { stream, value } => StreamEvent::Changed {
                stream: *stream,
                value: value.clone(),
            },
            StreamEvent::FetchFailed { stream } => StreamEvent::FetchFailed { stream: *stream },
            StreamEvent::Ended { stream } => StreamEvent::Ended { stream: *stream },
        }
    }
}

impl StreamEventView {
    /// The stream an event came from.
    pub open spec fn stream(self) -> StreamKind {
        match self {
            StreamEventView::Changed { stream, .. } => stream,
            StreamEventView::FetchFailed { stream } => stream,
            StreamEventView::Ended { stream } => stream,
        }
    }
}

impl WatchPhase {
    /// Whether a watcher in this phase still takes changes from a stream.
    pub open spec fn listens(self, stream: StreamKind) -> bool {
        match self {
            WatchPhase::Watching => true,
            WatchPhase::ActiveOnly => stream == StreamKind::ActiveState,
            WatchPhase::LoadOnly => stream == StreamKind::LoadState,
            _ => false,
        }
    }

    /// Whether the watcher has ended, in success or in failure.
    pub open spec fn is_over(self) -> bool {
        self is Finished || self is Failed
    }

    /// The phase after a stream has ended. The end of a stream that is not
    /// open changes nothing.
    pub open spec fn after_end(self, stream: StreamKind) -> WatchPhase {
        match (self, stream) {
            (WatchPhase::Watching, StreamKind::ActiveState) => WatchPhase::LoadOnly,
            (WatchPhase::Watching, StreamKind::LoadState) => WatchPhase::ActiveOnly,
            (WatchPhase::ActiveOnly, StreamKind::ActiveState) => WatchPhase::Finished,
            (WatchPhase::LoadOnly, StreamKind::LoadState) => WatchPhase::Finished,
            _ => self,
        }
    }

    /// The phase after an event. Only the end of a stream moves a watcher.
    pub open spec fn next(self, event: StreamEventView) -> WatchPhase {
        match event {
            StreamEventView::Ended { stream } => self.after_end(stream),
            _ => self,
        }
    }
}

/// The text of the state that a raw value names on a stream, if it names one.
pub open spec fn state_name(stream: StreamKind, raw: Seq<char>) -> Option<Seq<char>> {
    match stream {
        StreamKind::ActiveState => match ActiveState::spec_parse(raw) {
            Some(state) => Some(state.spec_name()),
            None => None,
        },
        StreamKind::LoadState => match LoadState::spec_parse(raw) {
            Some(state) => Some(state.spec_name()),
            None => None,
        },
    }
}

/// The words that stand between a unit's name and a state's text.
pub open spec fn stream_label(stream: StreamKind) -> Seq<char> {
    match stream {
        StreamKind::ActiveState => " Active state: "@,
        StreamKind::LoadState => " Load state: "@,
    }
}

/// The line written for one transition.
pub open spec fn spec_transition_line(name: Seq<char>, stream: StreamKind, state: Seq<char>) -> Seq<
    char,
> {
    "Unit: "@ + name + stream_label(stream) + state
}

/// The line that an event makes a watcher write, if any: a change on a stream
/// the watcher still listens to, whose value names a state.
pub open spec fn emission(name: Seq<char>, phase: WatchPhase, event: StreamEventView) -> Option<
    Seq<char>,
> {
    match event {
        StreamEventView::Changed { stream, value } => if phase.listens(stream) {
            match state_name(stream, value) {
                Some(state) => Some(spec_transition_line(name, stream, state)),
                None => None,
            }
        } else {
            None
        },
        _ => None,
    }
}

/// Formats the line for one transition.
pub fn transition_line(name: &str, stream: StreamKind, state: &str) -> (line: String)
    ensures
        line@ == spec_transition_line(name@, stream, state@),
{
    let mut line = "Unit: ".to_owned();
    line.append(name);
    match stream {
        StreamKind::ActiveState => line.append(" Active state: "),
        StreamKind::LoadState => line.append(" Load state: "),
    }
    line.append(state);
    line
}

/// Reads a raw value against the enumeration of its stream and gives the
/// state's text, or nothing for a value outside the enumeration.
pub fn recognise(stream: StreamKind, raw: &str) -> (name: Option<&'static str>)
    ensures
        match state_name(stream, raw@) {
            Some(text) => name is Some && name->0@ == text,
            None => name is None,
        },
{
    match stream {
        StreamKind::ActiveState => match ActiveState::parse(raw) {
            Ok(state) => Some(state.name()),
            Err(_) => None,
        },
        StreamKind::LoadState => match LoadState::parse(raw) {
            Ok(state) => Some(state.name()),
            Err(_) => None,
        },
    }
}

/// The watcher of one unit.
#[derive(Debug)]
pub struct UnitWatcher {
    unit: Unit,
    phase: WatchPhase,
}

/// A watcher as its unit and its phase.
pub struct UnitWatcherView {
    pub unit: UnitView,
    pub phase: WatchPhase,
}

impl View for UnitWatcher {
    type V = UnitWatcherView;

    closed spec fn view(&self) -> UnitWatcherView {
        UnitWatcherView { unit: self.unit@, phase: self.phase }
    }
}

impl UnitWatcher {
    /// The phase a new watcher of a unit starts in: it fails at once on a
    /// path that is no object path, and else waits for its subscription.
    pub open spec fn spec_initial_phase(unit: UnitView) -> WatchPhase {
        if is_object_path(unit.path) {
            WatchPhase::Subscribing
        } else {
            WatchPhase::Failed(SetupError::InvalidPath)
        }
    }

    /// Takes charge of a unit and checks the path it is to be addressed by.
    pub fn new(unit: Unit) -> (watcher: UnitWatcher)
        ensures
            watcher@.unit == unit@,
            watcher@.phase == Self::spec_initial_phase(unit@),
    {
        let phase = if object_path_accepted(unit.path()) {
            WatchPhase::Subscribing
        } else {
            WatchPhase::Failed(SetupError::InvalidPath)
        };
        UnitWatcher { unit, phase }
    }

    /// The unit this watcher is in charge of.
    pub fn unit(&self) -> (unit: &Unit)
        ensures
            unit@ == self@.unit,
    {
        &self.unit
    }

    /// Where the watcher stands.
    pub fn phase(&self) -> (phase: WatchPhase)
        ensures
            phase == self@.phase,
    {
        self.phase
    }

    /// The path to subscribe at, while the subscription is still owed.
    pub fn subscription_path(&self) -> (path: Option<&str>)
        ensures
            self@.phase is Subscribing ==> path is Some && path->0@ == self@.unit.path,
            !(self@.phase is Subscribing) ==> path is None,
    {
        match self.phase {
            WatchPhase::Subscribing => Some(self.unit.path()),
            _ => None,
        }
    }

    /// Records that both streams are open. Outside `Subscribing` nothing
    /// changes.
    pub fn subscribed(&mut self)
        ensures
            final(self)@.unit == old(self)@.unit,
            final(self)@.phase == if old(self)@.phase is Subscribing {
                WatchPhase::Watching
            } else {
                old(self)@.phase
            },
    {
        if let WatchPhase::Subscribing = self.phase {
            self.phase = WatchPhase::Watching;
        }
    }

    /// Records that the bus refused the subscription, which ends this
    /// watcher. Outside `Subscribing` nothing changes.
    pub fn refused(&mut self)
        ensures
            final(self)@.unit == old(self)@.unit,
            final(self)@.phase == if old(self)@.phase is Subscribing {
                WatchPhase::Failed(SetupError::Refused)
            } else {
                old(self)@.phase
            },
    {
        if let WatchPhase::Subscribing = self.phase {
            self.phase = WatchPhase::Failed(SetupError::Refused);
        }
    }

    /// Whether the watcher has ended: both streams have, or the subscription
    /// failed.
    pub fn is_over(&self) -> (over: bool)
        ensures
            over == self@.phase.is_over(),
    {
        match self.phase {
            WatchPhase::Finished => true,
            WatchPhase::Failed(_) => true,
            _ => false,
        }
    }

    /// How the watcher ended, once it has.
    pub fn outcome(&self) -> (outcome: Option<Result<(), SetupError>>)
        ensures
            outcome == match self@.phase {
                WatchPhase::Finished => Some(Ok::<(), SetupError>(())),
                WatchPhase::Failed(error) => Some(Err::<(), SetupError>(error)),
                _ => None,
            },
    {
        match self.phase {
            WatchPhase::Finished => Some(Ok(())),
            WatchPhase::Failed(error) => Some(Err(error)),
            _ => None,
        }
    }

    /// Takes one event and gives the line to write, if the event calls for
    /// one. A failed fetch and a value outside the enumeration are dropped
    /// and leave the watcher as it was.
    pub fn on_event(&mut self, event: &StreamEvent) -> (line: Option<String>)
        ensures
            final(self)@.unit == old(self)@.unit,
            final(self)@.phase == old(self)@.phase.next(event@),
            match emission(old(self)@.unit.name, old(self)@.phase, event@) {
                Some(text) => line is Some && line->0@ == text,
                None => line is None,
            },
    {
        match event {
            StreamEvent::Changed { stream, value } => {
                if self.listens(*stream) {
                    match recognise(*stream, value.as_str()) {
                        Some(state) => Some(transition_line(self.unit.name(), *stream, state)),
                        None => None,
                    }
                } else {
                    None
                }
            },
            StreamEvent::FetchFailed { .. } => None,
            StreamEvent::Ended { stream } => {
                self.phase = match (self.phase, *stream) {
                    (WatchPhase::Watching, StreamKind::ActiveState) => WatchPhase::LoadOnly,
                    (WatchPhase::Watching, StreamKind::LoadState) => WatchPhase::ActiveOnly,
                    (WatchPhase::ActiveOnly, StreamKind::ActiveState) => WatchPhase::Finished,
                    (WatchPhase::LoadOnly, StreamKind::LoadState) => WatchPhase::Finished,
                    (phase, _) => phase,
                };
                None
            },
        }
    }

    /// Takes a run of events in their order of arrival and gives the lines
    /// to write, in the order in which they are to be written.
    pub fn on_events(&mut self, events: &Vec<StreamEvent>) -> (lines: Vec<String>)
        ensures
            final(self)@.unit == old(self)@.unit,
            final(self)@.phase == phase_after(old(self)@.phase, event_views(events@)),
            texts(lines@) == emitted_lines(
                old(self)@.unit.name,
                old(self)@.phase,
                event_views(events@),
            ),
    {
        let ghost name = self@.unit.name;
        let ghost start = self@.phase;
        let ghost run = event_views(events@);
        let mut lines: Vec<String> = Vec::new();
        let mut i: usize = 0;
        while i < events.len()
            invariant
                i <= events.len(),
                run == event_views(events@),
                self@.unit.name == name,
                self@.unit == old(self)@.unit,
                self@.phase == phase_after(start, run.take(i as int)),
                texts(lines@) == emitted_lines(name, start, run.take(i as int)),
            decreases events.len() - i,
        {
            let ghost done = run.take(i as int);
            assert(run.take(i + 1).drop_last() =~= done);
            if let Some(line) = self.on_event(&events[i]) {
                lines.push(line);
                assert(emitted_lines(name, start, run.take(i + 1)) =~= emitted_lines(
                    name,
                    start,
                    done,
                ).push(line@));
            }
            i += 1;
        }
        assert(run.take(events.len() as int) =~= run);
        lines
    }

    /// Whether the watcher still takes changes from a stream.
    pub fn listens(&self, stream: StreamKind) -> (open: bool)
        ensures
            open == self@.phase.listens(stream),
    {
        match (self.phase, stream) {
            (WatchPhase::Watching, _) => true,
            (WatchPhase::ActiveOnly, StreamKind::ActiveState) => true,
            (WatchPhase::LoadOnly, StreamKind::LoadState) => true,
            _ => false,
        }
    }
}

} // verus!
