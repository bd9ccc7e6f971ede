use vstd::prelude::*;
use crate::coordinator::{
    failure_kind, initial_state, outcome_of, transition, Action, CoordState, Event, Resource, Stage,
};
use crate::error::{ErrorKind, SpeechError};

verus! {

/// The final state of a call that receives `evs` in order from `s`, and the
/// action that answers each event.
pub open spec fn run(s: CoordState, evs: Seq<Event>) -> (CoordState, Seq<Action>)
    decreases evs.len(),
{
    if evs.len() == 0 {
        (s, Seq::empty())
    } else {
        let first = transition(s, evs[0]);
        let rest = run(first.0, evs.drop_first());
        (rest.0, seq![first.1] + rest.1)
    }
}

/// The position of a stage along a call; every action moves a call forward.
pub open spec fn stage_rank(st: Stage) -> int {
    match st {
        Stage::Idle => 0,
        Stage::CreatingEngine => 1,
        Stage::Synthesizing => 2,
        Stage::CreatingSource => 3,
        Stage::CreatingPlayer => 4,
        Stage::BindingSource => 5,
        Stage::Subscribing => 6,
        Stage::Starting => 7,
        Stage::Waiting => 8,
        Stage::Unsubscribing => 9,
        Stage::Releasing(Resource::Player) => 10,
        Stage::Releasing(Resource::Source) => 11,
        Stage::Releasing(Resource::Stream) => 12,
        Stage::Releasing(Resource::Engine) => 13,
        Stage::Finished => 14,
    }
}

/// The position of the stage that each action opens.
pub open spec fn action_rank(a: Action) -> int {
    match a {
        Action::CreateEngine => 1,
        Action::Synthesize => 2,
        Action::CreateSource => 3,
        Action::CreatePlayer => 4,
        Action::BindSource => 5,
        Action::Subscribe => 6,
        Action::Play => 7,
        Action::AwaitEnd => 8,
        Action::Unsubscribe => 9,
        Action::Release(Resource::Player) => 10,
        Action::Release(Resource::Source) => 11,
        Action::Release(Resource::Stream) => 12,
        Action::Release(Resource::Engine) => 13,
        Action::Finish(_) => 14,
        Action::Nothing => 0,
    }
}

/// One step keeps a well-formed state well-formed; an event that does not apply
/// changes nothing, and any other moves the call forward into the stage that
/// its action opens.
pub proof fn lemma_step(s: CoordState, e: Event)
    requires
        s.wf(),
    ensures
        transition(s, e).0.wf(),
        transition(s, e).1 is Nothing ==> transition(s, e).0 == s,
        transition(s, e).1 !is Nothing ==> {
            &&& stage_rank(s.stage) < stage_rank(transition(s, e).0.stage)
            &&& stage_rank(transition(s, e).0.stage) == action_rank(transition(s, e).1)
        },
        transition(s, e).1 is Finish ==> {
            &&& transition(s, e).0.stage is Finished
            &&& transition(s, e).1 == Action::Finish(outcome_of(transition(s, e).0))
        },
        transition(s, e).0.ended ==> s.ended || e == Event::Ended,
        s.failure is Some ==> transition(s, e).0.failure == s.failure,
{
}

/// A call in its final stage stays there and answers every event with nothing.
pub proof fn lemma_finished_absorbs(s: CoordState, evs: Seq<Event>)
    requires
        s.stage is Finished,
    ensures
        run(s, evs).0 == s,
        forall|i: int| 0 <= i < evs.len() ==> run(s, evs).1[i] is Nothing,
        run(s, evs).1.len() == evs.len(),
    decreases evs.len(),
{
    if evs.len() > 0 {
        lemma_finished_absorbs(s, evs.drop_first());
    }
}

/// One action for each event.
pub proof fn lemma_run_len(s: CoordState, evs: Seq<Event>)
    ensures
        run(s, evs).1.len() == evs.len(),
    decreases evs.len(),
{
    if evs.len() > 0 {
        lemma_run_len(transition(s, evs[0]).0, evs.drop_first());
    }
}

/// Along a run, the actions move the call strictly forward.
pub proof fn lemma_run_ranks(s: CoordState, evs: Seq<Event>)
    requires
        s.wf(),
    ensures
        run(s, evs).0.wf(),
        run(s, evs).1.len() == evs.len(),
        forall|i: int|
            0 <= i < evs.len() && run(s, evs).1[i] !is Nothing ==> stage_rank(s.stage)
                < action_rank(#[trigger] run(s, evs).1[i]),
        forall|i: int, j: int|
            0 <= i < j < evs.len() && run(s, evs).1[i] !is Nothing && run(s, evs).1[j] !is Nothing
                ==> action_rank(#[trigger] run(s, evs).1[i]) < action_rank(
                #[trigger] run(s, evs).1[j],
            ),
    decreases evs.len(),
{
    if evs.len() > 0 {
        let first = transition(s, evs[0]);
        let rest_evs = evs.drop_first();
        lemma_step(s, evs[0]);
        lemma_run_ranks(first.0, rest_evs);
        let acts = run(s, evs).1;
        let rest = run(first.0, rest_evs).1;
        assert(acts == seq![first.1] + rest);
        assert forall|i: int|
            0 <= i < evs.len() && acts[i] !is Nothing implies stage_rank(s.stage) < action_rank(
                #[trigger] acts[i],
            ) by {
            if i > 0 {
                assert(acts[i] == rest[i - 1]);
            }
        }
        assert forall|i: int, j: int|
            0 <= i < j < evs.len() && acts[i] !is Nothing && acts[j] !is Nothing implies action_rank(
                #[trigger] acts[i],
            ) < action_rank(#[trigger] acts[j]) by {
            assert(acts[j] == rest[j - 1]);
            if i > 0 {
                assert(acts[i] == rest[i - 1]);
            }
        }
    }
}

/// A call asks for each thing at most once: one engine, one synthesis, one
/// source, one player, one handler registration, one playback, one release of
/// each resource, and one report of its outcome.
pub proof fn law_each_action_at_most_once(s: CoordState, evs: Seq<Event>)
    requires
        s.wf(),
    ensures
        forall|i: int, j: int|
            0 <= i < j < evs.len() && run(s, evs).1[i] !is Nothing ==> #[trigger] run(s, evs).1[i]
                != #[trigger] run(s, evs).1[j],
        forall|i: int, j: int|
            0 <= i < evs.len() && 0 <= j < evs.len() && (#[trigger] run(s, evs).1[i]) is Finish
                && (#[trigger] run(s, evs).1[j]) is Finish ==> i == j,
{
    lemma_run_ranks(s, evs);
    let acts = run(s, evs).1;
    assert forall|i: int, j: int|
        0 <= i < evs.len() && 0 <= j < evs.len() && acts[i] is Finish && acts[j] is Finish implies i
        == j by {
        if i < j {
            assert(action_rank(acts[i]) < action_rank(acts[j]));
        } else if j < i {
            assert(action_rank(acts[j]) < action_rank(acts[i]));
        }
    }
}

/// The general form of the ordering law below, from any well-formed state.
proof fn lemma_success_after_end(s: CoordState, evs: Seq<Event>)
    requires
        s.wf(),
    ensures
        forall|i: int|
            0 <= i < evs.len() && #[trigger] run(s, evs).1[i] == Action::Finish(Ok(())) ==> s.ended
                || exists|j: int| 0 <= j <= i && evs[j] == Event::Ended,
    decreases evs.len(),
{
    if evs.len() > 0 {
        let first = transition(s, evs[0]);
        let rest_evs = evs.drop_first();
        lemma_step(s, evs[0]);
        lemma_run_len(s, evs);
        lemma_success_after_end(first.0, rest_evs);
        let acts = run(s, evs).1;
        let rest = run(first.0, rest_evs).1;
        assert(acts == seq![first.1] + rest);
        assert forall|i: int|
            0 <= i < evs.len() && #[trigger] acts[i] == Action::Finish(Ok(())) implies s.ended
            || exists|j: int| 0 <= j <= i && evs[j] == Event::Ended by {
            if i == 0 {
                if !s.ended {
                    assert(evs[0] == Event::Ended);
                }
            } else {
                assert(acts[i] == rest[i - 1]);
                if !first.0.ended {
                    let j = choose|j: int| 0 <= j <= i - 1 && rest_evs[j] == Event::Ended;
                    assert(evs[j + 1] == Event::Ended);
                } else if !s.ended {
                    assert(evs[0] == Event::Ended);
                }
            }
        }
    }
}

/// A call reports success only after the playback-ended notification: the
/// event that a successful outcome answers is, or comes after, an `Ended` event.
pub proof fn law_success_only_after_end(evs: Seq<Event>)
    ensures
        forall|i: int|
            0 <= i < evs.len() && #[trigger] run(initial_state(), evs).1[i] == Action::Finish(Ok(()))
                ==> exists|j: int| 0 <= j <= i && evs[j] == Event::Ended,
{
    lemma_success_after_end(initial_state(), evs);
}

/// A playback-ended notification that arrives when the call is not waiting for
/// one (a second delivery among them) changes nothing and asks for nothing.
pub proof fn law_stray_end_ignored(s: CoordState)
    requires
        s.wf(),
        s.stage !is Waiting,
    ensures
        transition(s, Event::Ended) == (s, Action::Nothing),
{
}

/// When a call reports its outcome it holds no resource and no handler
/// registration; a registered handler goes away only by unregistering it.
pub proof fn law_finish_releases_everything(s: CoordState, e: Event)
    requires
        s.wf(),
    ensures
        transition(s, e).1 is Finish ==> transition(s, e).0.holds_nothing(),
        s.subscribed && !transition(s, e).0.subscribed ==> s.stage is Unsubscribing,
{
}

/// A call that has reported its outcome, whatever came after, holds nothing.
pub proof fn law_reported_call_holds_nothing(s: CoordState, evs: Seq<Event>)
    requires
        s.wf(),
    ensures
        (exists|i: int| 0 <= i < evs.len() && (#[trigger] run(s, evs).1[i]) is Finish)
            ==> run(s, evs).0.holds_nothing(),
    decreases evs.len(),
{
    if evs.len() > 0 {
        let first = transition(s, evs[0]);
        let rest_evs = evs.drop_first();
        lemma_step(s, evs[0]);
        lemma_run_len(s, evs);
        let acts = run(s, evs).1;
        let rest = run(first.0, rest_evs).1;
        assert(acts == seq![first.1] + rest);
        if first.1 is Finish {
            lemma_finished_absorbs(first.0, rest_evs);
        } else {
            law_reported_call_holds_nothing(first.0, rest_evs);
            if exists|i: int| 0 <= i < evs.len() && (#[trigger] acts[i]) is Finish {
                let i = choose|i: int| 0 <= i < evs.len() && (#[trigger] acts[i]) is Finish;
                assert(rest[i - 1] is Finish);
            }
        }
    }
}

/// Once a call has failed, every report of its outcome is that first failure.
proof fn lemma_failure_kept(s: CoordState, evs: Seq<Event>, f: SpeechError)
    requires
        s.wf(),
        s.failure == Some(f),
    ensures
        forall|i: int|
            0 <= i < evs.len() && (#[trigger] run(s, evs).1[i]) is Finish ==> run(s, evs).1[i]
                == Action::Finish(Err(f)),
    decreases evs.len(),
{
    if evs.len() > 0 {
        let first = transition(s, evs[0]);
        let rest_evs = evs.drop_first();
        lemma_step(s, evs[0]);
        lemma_run_len(s, evs);
        lemma_failure_kept(first.0, rest_evs, f);
        let acts = run(s, evs).1;
        let rest = run(first.0, rest_evs).1;
        assert(acts == seq![first.1] + rest);
        assert forall|i: int|
            0 <= i < evs.len() && (#[trigger] acts[i]) is Finish implies acts[i] == Action::Finish(
                Err(f),
            ) by {
            if i > 0 {
                assert(acts[i] == rest[i - 1]);
            }
        }
    }
}

/// The failure that a failed step of the call reports: the kind of its stage
/// and the host's description.
pub open spec fn failure_at(st: Stage, detail: String) -> SpeechError {
    SpeechError { kind: failure_kind(st), detail: Some(detail) }
}

/// A failure while the call acquires or prepares something is recorded with
/// the kind of that stage, the call starts to unwind at once, and whatever
/// follows, the only outcome it can report is that failure.
pub proof fn law_failure_is_reported(s: CoordState, detail: String, evs: Seq<Event>)
    requires
        s.wf(),
        s.is_acquiring(),
    ensures
        transition(s, Event::Failed(detail)).0.failure == Some(failure_at(s.stage, detail)),
        transition(s, Event::Failed(detail)).1 !is Nothing,
        forall|i: int|
            0 <= i < evs.len() + 1 && (#[trigger] run(s, seq![Event::Failed(detail)] + evs).1[i])
                is Finish ==> run(s, seq![Event::Failed(detail)] + evs).1[i] == Action::Finish(
                Err(failure_at(s.stage, detail)),
            ),
{
    let all = seq![Event::Failed(detail)] + evs;
    assert(all.len() == evs.len() + 1);
    lemma_failure_kept_after(s, all, failure_at(s.stage, detail));
}

/// The first event's failure is kept by the whole run.
proof fn lemma_failure_kept_after(s: CoordState, evs: Seq<Event>, f: SpeechError)
    requires
        s.wf(),
        evs.len() > 0,
        transition(s, evs[0]).0.failure == Some(f),
        transition(s, evs[0]).1 is Finish ==> transition(s, evs[0]).1 == Action::Finish(Err(f)),
    ensures
        forall|i: int|
            0 <= i < evs.len() && (#[trigger] run(s, evs).1[i]) is Finish ==> run(s, evs).1[i]
                == Action::Finish(Err(f)),
{
    let first = transition(s, evs[0]);
    let rest_evs = evs.drop_first();
    lemma_step(s, evs[0]);
    lemma_run_len(s, evs);
    lemma_failure_kept(first.0, rest_evs, f);
    let acts = run(s, evs).1;
    let rest = run(first.0, rest_evs).1;
    assert(acts == seq![first.1] + rest);
    assert forall|i: int|
        0 <= i < evs.len() && (#[trigger] acts[i]) is Finish implies acts[i] == Action::Finish(
            Err(f),
        ) by {
        if i > 0 {
            assert(acts[i] == rest[i - 1]);
        }
    }
}

/// The four points at which a call can fail before playback runs report four
/// different kinds, none of which is the kind of a cleanup failure or of an
/// abandoned call.
pub proof fn law_failure_kinds_distinct()
    ensures
        failure_kind(Stage::CreatingEngine) == ErrorKind::EngineUnavailable,
        failure_kind(Stage::Synthesizing) == ErrorKind::SynthesisFailed,
        failure_kind(Stage::CreatingSource) == ErrorKind::SourceConstructionFailed,
        failure_kind(Stage::Starting) == ErrorKind::PlaybackStartFailed,
        forall|st: Stage|
            #![trigger failure_kind(st)]
            failure_kind(st) != ErrorKind::CleanupFailed && failure_kind(st) != ErrorKind::Interrupted,
{
}

/// The host's answer to a requested action.
pub open spec fn is_answer(e: Event) -> bool {
    e is Succeeded || e is Failed
}

/// An unwinding call reports its outcome after at most as many host answers as
/// it has steps left: it never waits on anything but the host's answers.
pub proof fn law_unwinding_finishes(s: CoordState, evs: Seq<Event>)
    requires
        s.wf(),
        s.is_unwinding(),
        evs.len() >= 14 - stage_rank(s.stage),
        forall|i: int| 0 <= i < evs.len() ==> is_answer(#[trigger] evs[i]),
    ensures
        exists|i: int| 0 <= i < evs.len() && (#[trigger] run(s, evs).1[i]) is Finish,
    decreases evs.len(),
{
    let first = transition(s, evs[0]);
    let rest_evs = evs.drop_first();
    lemma_step(s, evs[0]);
    lemma_run_len(s, evs);
    let acts = run(s, evs).1;
    let rest = run(first.0, rest_evs).1;
    assert(acts == seq![first.1] + rest);
    if first.1 is Finish {
        assert(acts[0] is Finish);
    } else {
        assert(is_answer(evs[0]));
        assert(first.1 !is Nothing);
        assert forall|i: int| 0 <= i < rest_evs.len() implies is_answer(#[trigger] rest_evs[i]) by {
            assert(rest_evs[i] == evs[i + 1]);
        }
        law_unwinding_finishes(first.0, rest_evs);
        let i = choose|i: int| 0 <= i < rest_evs.len() && (#[trigger] rest[i]) is Finish;
        assert(acts[i + 1] is Finish);
    }
}

} // verus!
