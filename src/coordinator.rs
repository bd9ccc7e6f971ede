use vstd::prelude::*;
use crate::error::{ErrorKind, SpeechError};

verus! {

/// A host object that one speak operation owns while it runs.
#[derive(Clone, Copy, Debug, PartialEq, Eq, Structural)]
pub enum Resource {
    Engine,
    Stream,
    Source,
    Player,
}

/// Where a speak operation stands.
#[derive(Clone, Copy, Debug, PartialEq, Eq, Structural)]
pub enum Stage {
    /// Not started.
    Idle,
    /// Waiting for a synthesis engine.
    CreatingEngine,
    /// Waiting for the engine to turn the text into an audio stream.
    Synthesizing,
    /// Waiting for a playable source built from the stream and its content type.
    CreatingSource,
    /// Waiting for a player.
    CreatingPlayer,
    /// Waiting for the source to be bound to the player.
    BindingSource,
    /// Waiting for the playback-ended handler to be registered.
    Subscribing,
    /// Waiting for playback to start.
    Starting,
    /// Playback runs; waiting for the playback-ended notification.
    Waiting,
    /// Waiting for the playback-ended handler to be unregistered.
    Unsubscribing,
    /// Waiting for a resource to be released.
    Releasing(Resource),
    /// The outcome has been reported.
    Finished,
}

/// What the host reports back to the coordinator.
#[derive(Debug, PartialEq, Eq)]
pub enum Event {
    /// The call is made.
    Begin,
    /// The requested action completed.
    Succeeded,
    /// The requested action failed; the host's description of the failure.
    Failed(String),
    /// The player raised its playback-ended notification.
    Ended,
    /// The caller abandoned the call.
    Cancelled,
}

/// What the coordinator asks of the host next.
#[derive(Debug, PartialEq, Eq)]
pub enum Action {
    /// Obtain a synthesis engine.
    CreateEngine,
    /// Submit the text to the engine and wait for the audio stream.
    Synthesize,
    /// Build a playable source from the stream, with its content type.
    CreateSource,
    /// Obtain a player.
    CreatePlayer,
    /// Bind the source to the player.
    BindSource,
    /// Register the one-time playback-ended handler on the player.
    Subscribe,
    /// Start playback.
    Play,
    /// Suspend until the playback-ended notification (or a cancellation).
    AwaitEnd,
    /// Unregister the playback-ended handler.
    Unsubscribe,
    /// Release a resource.
    Release(Resource),
    /// Report the outcome of the call.
    Finish(Result<(), SpeechError>),
    /// Nothing to do: the event does not apply to the current stage.
    Nothing,
}

/// The whole state of one speak operation.
#[derive(Debug)]
pub struct CoordState {
    pub stage: Stage,
    pub engine: bool,
    pub stream: bool,
    pub source: bool,
    pub player: bool,
    /// The playback-ended handler is registered.
    pub subscribed: bool,
    /// The first failure of the call, if any.
    pub failure: Option<SpeechError>,
    /// The playback-ended notification has been received.
    pub ended: bool,
}

impl CoordState {
    pub open spec fn holds(self, r: Resource) -> bool {
        match r {
            Resource::Engine => self.engine,
            Resource::Stream => self.stream,
            Resource::Source => self.source,
            Resource::Player => self.player,
        }
    }

    pub open spec fn holds_nothing(self) -> bool {
        !self.engine && !self.stream && !self.source && !self.player && !self.subscribed
    }

    /// The stage has an action in flight that acquires or prepares something.
    pub open spec fn is_acquiring(self) -> bool {
        match self.stage {
            Stage::CreatingEngine | Stage::Synthesizing | Stage::CreatingSource
            | Stage::CreatingPlayer | Stage::BindingSource | Stage::Subscribing
            | Stage::Starting => true,
            _ => false,
        }
    }

    /// The call is unwinding: unregistering the handler or releasing resources.
    pub open spec fn is_unwinding(self) -> bool {
        self.stage is Unsubscribing || self.stage is Releasing
    }

    /// Which resources and handler each stage holds, and that only a call that
    /// has seen the end of playback may wind down without a failure.
    pub open spec fn wf(self) -> bool {
        &&& match self.stage {
            Stage::Idle | Stage::CreatingEngine => self.holds_nothing(),
            Stage::Synthesizing => self.engine && !self.stream && !self.source && !self.player
                && !self.subscribed,
            Stage::CreatingSource => self.engine && self.stream && !self.source && !self.player
                && !self.subscribed,
            Stage::CreatingPlayer => self.engine && self.stream && self.source && !self.player
                && !self.subscribed,
            Stage::BindingSource | Stage::Subscribing => self.engine && self.stream
                && self.source && self.player && !self.subscribed,
            Stage::Starting | Stage::Waiting => self.engine && self.stream && self.source
                && self.player && self.subscribed,
            Stage::Unsubscribing => self.subscribed,
            Stage::Releasing(r) => !self.subscribed && self.holds(r) && released_before(self, r),
            Stage::Finished => self.holds_nothing(),
        }
        &&& (self.stage is Idle || self.is_acquiring() || self.stage is Waiting) ==> {
            &&& self.failure is None
            &&& !self.ended
        }
        &&& (self.is_unwinding() || self.stage is Finished) && self.failure is None ==> self.ended
    }
}

/// The resources released ahead of `r` (the player first, the engine last)
/// are no longer held.
pub open spec fn released_before(s: CoordState, r: Resource) -> bool {
    match r {
        Resource::Player => true,
        Resource::Source => !s.player,
        Resource::Stream => !s.player && !s.source,
        Resource::Engine => !s.player && !s.source && !s.stream,
    }
}

/// The state of a call that has not started.
pub open spec fn initial_state() -> CoordState {
    CoordState {
        stage: Stage::Idle,
        engine: false,
        stream: false,
        source: false,
        player: false,
        subscribed: false,
        failure: None,
        ended: false,
    }
}

/// The kind of failure reported when the action of an acquiring stage fails.
pub open spec fn failure_kind(stage: Stage) -> ErrorKind {
    match stage {
        Stage::CreatingEngine => ErrorKind::EngineUnavailable,
        Stage::Synthesizing => ErrorKind::SynthesisFailed,
        Stage::CreatingSource => ErrorKind::SourceConstructionFailed,
        _ => ErrorKind::PlaybackStartFailed,
    }
}

/// Keeps the first failure of a call.
pub open spec fn with_failure(s: CoordState, e: SpeechError) -> CoordState {
    if s.failure is None {
        CoordState { failure: Some(e), ..s }
    } else {
        s
    }
}

/// The outcome that a call reports.
pub open spec fn outcome_of(s: CoordState) -> Result<(), SpeechError> {
    match s.failure {
        Some(e) => Err(e),
        None => Ok(()),
    }
}

/// The next unwinding step: unregister the handler, then release the player,
/// the source, the stream and the engine, then report the outcome.
pub open spec fn unwind(s: CoordState) -> (CoordState, Action) {
    if s.subscribed {
        (CoordState { stage: Stage::Unsubscribing, ..s }, Action::Unsubscribe)
    } else if s.player {
        (CoordState { stage: Stage::Releasing(Resource::Player), ..s }, Action::Release(Resource::Player))
    } else if s.source {
        (CoordState { stage: Stage::Releasing(Resource::Source), ..s }, Action::Release(Resource::Source))
    } else if s.stream {
        (CoordState { stage: Stage::Releasing(Resource::Stream), ..s }, Action::Release(Resource::Stream))
    } else if s.engine {
        (CoordState { stage: Stage::Releasing(Resource::Engine), ..s }, Action::Release(Resource::Engine))
    } else {
        (CoordState { stage: Stage::Finished, ..s }, Action::Finish(outcome_of(s)))
    }
}

/// A state with one resource released.
pub open spec fn without(s: CoordState, r: Resource) -> CoordState {
    match r {
        Resource::Engine => CoordState { engine: false, ..s },
        Resource::Stream => CoordState { stream: false, ..s },
        Resource::Source => CoordState { source: false, ..s },
        Resource::Player => CoordState { player: false, ..s },
    }
}

/// The step of an acquiring stage whose action succeeded.
pub open spec fn advance(s: CoordState) -> (CoordState, Action) {
    match s.stage {
        Stage::CreatingEngine => (
            CoordState { stage: Stage::Synthesizing, engine: true, ..s },
            Action::Synthesize,
        ),
        Stage::Synthesizing => (
            CoordState { stage: Stage::CreatingSource, stream: true, ..s },
            Action::CreateSource,
        ),
        Stage::CreatingSource => (
            CoordState { stage: Stage::CreatingPlayer, source: true, ..s },
            Action::CreatePlayer,
        ),
        Stage::CreatingPlayer => (
            CoordState { stage: Stage::BindingSource, player: true, ..s },
            Action::BindSource,
        ),
        Stage::BindingSource => (CoordState { stage: Stage::Subscribing, ..s }, Action::Subscribe),
        Stage::Subscribing => (
            CoordState { stage: Stage::Starting, subscribed: true, ..s },
            Action::Play,
        ),
        _ => (CoordState { stage: Stage::Waiting, ..s }, Action::AwaitEnd),
    }
}

/// How one speak operation answers an event: its next state and what it asks next.
pub open spec fn transition(s: CoordState, ev: Event) -> (CoordState, Action) {
    match s.stage {
        Stage::Idle => match ev {
            Event::Begin => (CoordState { stage: Stage::CreatingEngine, ..s }, Action::CreateEngine),
            Event::Cancelled => unwind(with_failure(s, interrupted())),
            _ => (s, Action::Nothing),
        },
        Stage::Waiting => match ev {
            Event::Ended => unwind(CoordState { ended: true, ..s }),
            Event::Cancelled => unwind(with_failure(s, interrupted())),
            _ => (s, Action::Nothing),
        },
        Stage::Unsubscribing => match ev {
            Event::Succeeded => unwind(CoordState { subscribed: false, ..s }),
            Event::Failed(d) => unwind(
                with_failure(
                    CoordState { subscribed: false, ..s },
                    SpeechError { kind: ErrorKind::CleanupFailed, detail: Some(d) },
                ),
            ),
            _ => (s, Action::Nothing),
        },
        Stage::Releasing(r) => match ev {
            Event::Succeeded | Event::Failed(_) => unwind(without(s, r)),
            _ => (s, Action::Nothing),
        },
        Stage::Finished => (s, Action::Nothing),
        _ => match ev {
            Event::Succeeded => advance(s),
            Event::Failed(d) => unwind(
                with_failure(s, SpeechError { kind: failure_kind(s.stage), detail: Some(d) }),
            ),
            Event::Cancelled => unwind(with_failure(s, interrupted())),
            _ => (s, Action::Nothing),
        },
    }
}

/// The failure reported for a call that its caller abandoned.
pub open spec fn interrupted() -> SpeechError {
    SpeechError { kind: ErrorKind::Interrupted, detail: None }
}

/// The coordinator of one speak operation. It performs nothing itself: it takes
/// each event that the host reports and answers with the action to perform next.
pub struct Coordinator {
    state: CoordState,
}

impl View for Coordinator {
    type V = CoordState;

    closed spec fn view(&self) -> CoordState {
        self.state
    }
}

impl Coordinator {
    pub open spec fn wf(&self) -> bool {
        self@.wf()
    }

    /// A coordinator for a call that has not started.
    pub fn new() -> (r: Coordinator)
        ensures
            r@ == initial_state(),
            r.wf(),
    {
        Coordinator {
            state: CoordState {
                stage: Stage::Idle,
                engine: false,
                stream: false,
                source: false,
                player: false,
                subscribed: false,
                failure: None,
                ended: false,
            },
        }
    }

    /// The stage the call stands in.
    pub fn stage(&self) -> (r: Stage)
        ensures
            r == self@.stage,
    {
        self.state.stage
    }

    /// The call still holds `r`.
    pub fn holds(&self, r: Resource) -> (b: bool)
        ensures
            b == self@.holds(r),
    {
        match r {
            Resource::Engine => self.state.engine,
            Resource::Stream => self.state.stream,
            Resource::Source => self.state.source,
            Resource::Player => self.state.player,
        }
    }

    /// The playback-ended handler is registered.
    pub fn is_subscribed(&self) -> (b: bool)
        ensures
            b == self@.subscribed,
    {
        self.state.subscribed
    }

    /// The playback-ended notification has been received.
    pub fn has_ended(&self) -> (b: bool)
        ensures
            b == self@.ended,
    {
        self.state.ended
    }

    /// Takes the host's next event and answers with the next action.
    pub fn step(&mut self, ev: Event) -> (r: Action)
        requires
            old(self).wf(),
        ensures
            (final(self)@, r) == transition(old(self)@, ev),
            final(self).wf(),
    {
        let s = &mut self.state;
        let r = match s.stage {
            Stage::Idle => match ev {
                Event::Begin => {
                    s.stage = Stage::CreatingEngine;
                    Action::CreateEngine
                },
                Event::Cancelled => {
                    record_failure(s, interrupted_error());
                    unwind_step(s)
                },
                _ => Action::Nothing,
            },
            Stage::Waiting => match ev {
                Event::Ended => {
                    s.ended = true;
                    unwind_step(s)
                },
                Event::Cancelled => {
                    record_failure(s, interrupted_error());
                    unwind_step(s)
                },
                _ => Action::Nothing,
            },
            Stage::Unsubscribing => match ev {
                Event::Succeeded => {
                    s.subscribed = false;
                    unwind_step(s)
                },
                Event::Failed(d) => {
                    s.subscribed = false;
                    record_failure(s, SpeechError { kind: ErrorKind::CleanupFailed, detail: Some(d) });
                    unwind_step(s)
                },
                _ => Action::Nothing,
            },
            Stage::Releasing(res) => match ev {
                Event::Succeeded | Event::Failed(_) => {
                    match res {
                        Resource::Engine => s.engine = false,
                        Resource::Stream => s.stream = false,
                        Resource::Source => s.source = false,
                        Resource::Player => s.player = false,
                    }
                    unwind_step(s)
                },
                _ => Action::Nothing,
            },
            Stage::Finished => Action::Nothing,
            stage => match ev {
                Event::Succeeded => advance_step(s),
                Event::Failed(d) => {
                    let kind = kind_of_failure(stage);
                    record_failure(s, SpeechError { kind, detail: Some(d) });
                    unwind_step(s)
                },
                Event::Cancelled => {
                    record_failure(s, interrupted_error());
                    unwind_step(s)
                },
                _ => Action::Nothing,
            },
        };
        r
    }
}

fn interrupted_error() -> (r: SpeechError)
    ensures
        r == interrupted(),
{
    SpeechError { kind: ErrorKind::Interrupted, detail: None }
}

fn kind_of_failure(stage: Stage) -> (r: ErrorKind)
    ensures
        r == failure_kind(stage),
{
    match stage {
        Stage::CreatingEngine => ErrorKind::EngineUnavailable,
        Stage::Synthesizing => ErrorKind::SynthesisFailed,
        Stage::CreatingSource => ErrorKind::SourceConstructionFailed,
        _ => ErrorKind::PlaybackStartFailed,
    }
}

fn record_failure(s: &mut CoordState, e: SpeechError)
    ensures
        *final(s) == with_failure(*old(s), e),
{
    if s.failure.is_none() {
        s.failure = Some(e);
    }
}

fn copy_error(e: &SpeechError) -> (r: SpeechError)
    ensures
        r == *e,
{
    let detail = match &e.detail {
        Some(d) => Some(d.clone()),
        None => None,
    };
    SpeechError { kind: e.kind, detail }
}

fn unwind_step(s: &mut CoordState) -> (r: Action)
    ensures
        (*final(s), r) == unwind(*old(s)),
{
    if s.subscribed {
        s.stage = Stage::Unsubscribing;
        Action::Unsubscribe
    } else if s.player {
        s.stage = Stage::Releasing(Resource::Player);
        Action::Release(Resource::Player)
    } else if s.source {
        s.stage = Stage::Releasing(Resource::Source);
        Action::Release(Resource::Source)
    } else if s.stream {
        s.stage = Stage::Releasing(Resource::Stream);
        Action::Release(Resource::Stream)
    } else if s.engine {
        s.stage = Stage::Releasing(Resource::Engine);
        Action::Release(Resource::Engine)
    } else {
        s.stage = Stage::Finished;
        let outcome = match &s.failure {
            Some(e) => Err(copy_error(e)),
            None => Ok(()),
        };
        Action::Finish(outcome)
    }
}

fn advance_step(s: &mut CoordState) -> (r: Action)
    requires
        old(s).is_acquiring(),
    ensures
        (*final(s), r) == advance(*old(s)),
{
    match s.stage {
        Stage::CreatingEngine => {
            s.stage = Stage::Synthesizing;
            s.engine = true;
            Action::Synthesize
        },
        Stage::Synthesizing => {
            s.stage = Stage::CreatingSource;
            s.stream = true;
            Action::CreateSource
        },
        Stage::CreatingSource => {
            s.stage = Stage::CreatingPlayer;
            s.source = true;
            Action::CreatePlayer
        },
        Stage::CreatingPlayer => {
            s.stage = Stage::BindingSource;
            s.player = true;
            Action::BindSource
        },
        Stage::BindingSource => {
            s.stage = Stage::Subscribing;
            Action::Subscribe
        },
        Stage::Subscribing => {
            s.stage = Stage::Starting;
            s.subscribed = true;
            Action::Play
        },
        _ => {
            s.stage = Stage::Waiting;
            Action::AwaitEnd
        },
    }
}

} // verus!
