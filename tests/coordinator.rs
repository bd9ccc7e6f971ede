use speech_playback::coordinator::{Action, Coordinator, Event, Resource, Stage};
use speech_playback::error::{speak_response, ErrorKind, SpeechError};

fn feed(c: &mut Coordinator, events: Vec<Event>) -> Vec<Action> {
    let mut out = Vec::new();
    for e in events {
        out.push(c.step(e));
    }
    out
}

fn ok_n(n: usize) -> Vec<Event> {
    let mut v = Vec::new();
    for _ in 0..n {
        v.push(Event::Succeeded);
    }
    v
}

fn start_and_succeed(c: &mut Coordinator, n: usize) -> Vec<Action> {
    let mut acts = feed(c, vec![Event::Begin]);
    acts.extend(feed(c, ok_n(n)));
    acts
}

fn holds_nothing(c: &Coordinator) -> bool {
    !c.holds(Resource::Engine)
        && !c.holds(Resource::Stream)
        && !c.holds(Resource::Source)
        && !c.holds(Resource::Player)
        && !c.is_subscribed()
}

#[test]
fn successful_call_asks_for_each_step_in_order() {
    let mut c = Coordinator::new();
    let acts = start_and_succeed(&mut c, 7);
    assert_eq!(
        acts,
        vec![
            Action::CreateEngine,
            Action::Synthesize,
            Action::CreateSource,
            Action::CreatePlayer,
            Action::BindSource,
            Action::Subscribe,
            Action::Play,
            Action::AwaitEnd,
        ]
    );
    assert_eq!(c.stage(), Stage::Waiting);
    assert!(c.is_subscribed());
    let rest = feed(&mut c, vec![Event::Ended, Event::Succeeded, Event::Succeeded, Event::Succeeded, Event::Succeeded, Event::Succeeded]);
    assert_eq!(
        rest,
        vec![
            Action::Unsubscribe,
            Action::Release(Resource::Player),
            Action::Release(Resource::Source),
            Action::Release(Resource::Stream),
            Action::Release(Resource::Engine),
            Action::Finish(Ok(())),
        ]
    );
    assert_eq!(c.stage(), Stage::Finished);
    assert!(holds_nothing(&c));
}

#[test]
fn handler_registered_before_playback_starts() {
    let mut c = Coordinator::new();
    let acts = start_and_succeed(&mut c, 5);
    assert_eq!(acts.last(), Some(&Action::Subscribe));
    assert!(!c.is_subscribed());
    assert_eq!(c.step(Event::Succeeded), Action::Play);
    assert!(c.is_subscribed());
}

#[test]
fn no_success_before_end_notification() {
    let mut c = Coordinator::new();
    start_and_succeed(&mut c, 7);
    // Answers of the host that are not the end of playback are ignored.
    assert_eq!(c.step(Event::Succeeded), Action::Nothing);
    assert_eq!(c.step(Event::Failed("late".to_string())), Action::Nothing);
    assert_eq!(c.step(Event::Begin), Action::Nothing);
    assert_eq!(c.stage(), Stage::Waiting);
    assert!(!c.has_ended());
    assert_eq!(c.step(Event::Ended), Action::Unsubscribe);
    assert!(c.has_ended());
}

#[test]
fn second_end_notification_is_ignored() {
    let mut c = Coordinator::new();
    start_and_succeed(&mut c, 7);
    assert_eq!(c.step(Event::Ended), Action::Unsubscribe);
    assert_eq!(c.step(Event::Ended), Action::Nothing);
    let acts = feed(&mut c, ok_n(5));
    assert_eq!(acts.last(), Some(&Action::Finish(Ok(()))));
    assert_eq!(c.step(Event::Ended), Action::Nothing);
    let finishes = acts.iter().filter(|a| matches!(a, Action::Finish(_))).count();
    assert_eq!(finishes, 1);
}

#[test]
fn finished_call_answers_nothing() {
    let mut c = Coordinator::new();
    start_and_succeed(&mut c, 7);
    feed(&mut c, vec![Event::Ended]);
    feed(&mut c, ok_n(5));
    for e in vec![Event::Begin, Event::Succeeded, Event::Failed("x".to_string()), Event::Ended, Event::Cancelled] {
        assert_eq!(c.step(e), Action::Nothing);
    }
    assert_eq!(c.stage(), Stage::Finished);
}

fn fail_at(n: usize) -> (Coordinator, Vec<Action>) {
    let mut c = Coordinator::new();
    start_and_succeed(&mut c, n);
    let mut acts = feed(&mut c, vec![Event::Failed("host error".to_string())]);
    for _ in 0..10 {
        if matches!(acts.last(), Some(Action::Finish(_))) {
            break;
        }
        acts.push(c.step(Event::Succeeded));
    }
    (c, acts)
}

fn finish_of(acts: &[Action]) -> Option<&Result<(), SpeechError>> {
    match acts.last() {
        Some(Action::Finish(r)) => Some(r),
        _ => None,
    }
}

#[test]
fn each_failure_point_reports_its_own_kind() {
    let points = vec![
        (0, ErrorKind::EngineUnavailable),
        (1, ErrorKind::SynthesisFailed),
        (2, ErrorKind::SourceConstructionFailed),
        (6, ErrorKind::PlaybackStartFailed),
    ];
    for (n, kind) in points {
        let (c, acts) = fail_at(n);
        let expected = SpeechError::new(kind, Some("host error".to_string()));
        assert_eq!(finish_of(&acts), Some(&Err(expected)));
        assert!(holds_nothing(&c));
        assert_eq!(c.stage(), Stage::Finished);
    }
}

#[test]
fn player_failures_report_playback_start_failed() {
    for n in 3..7 {
        let (_, acts) = fail_at(n);
        match finish_of(&acts) {
            Some(Err(e)) => assert_eq!(e.kind, ErrorKind::PlaybackStartFailed),
            other => panic!("unexpected outcome {:?}", other),
        }
    }
}

#[test]
fn failed_playback_start_unregisters_handler() {
    let (c, acts) = fail_at(6);
    assert_eq!(acts[0], Action::Unsubscribe);
    assert!(!c.is_subscribed());
}

#[test]
fn engine_failure_asks_for_nothing_further() {
    let (_, acts) = fail_at(0);
    assert_eq!(
        acts,
        vec![Action::Finish(Err(SpeechError::new(ErrorKind::EngineUnavailable, Some("host error".to_string()))))]
    );
}

#[test]
fn cancelled_wait_unregisters_then_reports_interrupted() {
    let mut c = Coordinator::new();
    start_and_succeed(&mut c, 7);
    assert_eq!(c.step(Event::Cancelled), Action::Unsubscribe);
    let acts = feed(&mut c, ok_n(5));
    assert_eq!(
        acts.last(),
        Some(&Action::Finish(Err(SpeechError::new(ErrorKind::Interrupted, None))))
    );
    assert!(holds_nothing(&c));
}

#[test]
fn cancel_before_start_reports_interrupted() {
    let mut c = Coordinator::new();
    assert_eq!(
        c.step(Event::Cancelled),
        Action::Finish(Err(SpeechError::new(ErrorKind::Interrupted, None)))
    );
}

#[test]
fn failed_unregistration_is_reported_after_success() {
    let mut c = Coordinator::new();
    start_and_succeed(&mut c, 7);
    feed(&mut c, vec![Event::Ended]);
    assert_eq!(c.step(Event::Failed("remove".to_string())), Action::Release(Resource::Player));
    assert!(!c.is_subscribed());
    let acts = feed(&mut c, ok_n(4));
    assert_eq!(
        acts.last(),
        Some(&Action::Finish(Err(SpeechError::new(ErrorKind::CleanupFailed, Some("remove".to_string())))))
    );
}

#[test]
fn first_failure_wins_over_cleanup_failure() {
    let mut c = Coordinator::new();
    start_and_succeed(&mut c, 6);
    assert_eq!(c.step(Event::Failed("play".to_string())), Action::Unsubscribe);
    assert_eq!(c.step(Event::Failed("remove".to_string())), Action::Release(Resource::Player));
    let acts = feed(&mut c, ok_n(4));
    assert_eq!(
        acts.last(),
        Some(&Action::Finish(Err(SpeechError::new(ErrorKind::PlaybackStartFailed, Some("play".to_string())))))
    );
}

#[test]
fn scenario_hello_succeeds_after_end() {
    let mut c = Coordinator::new();
    let acts = start_and_succeed(&mut c, 7);
    assert!(!acts.iter().any(|a| matches!(a, Action::Finish(_))));
    let acts = feed(&mut c, vec![Event::Ended]);
    assert_eq!(acts, vec![Action::Unsubscribe]);
    let acts = feed(&mut c, ok_n(5));
    let outcome = match acts.last() {
        Some(Action::Finish(r)) => r.clone(),
        _ => panic!("no outcome"),
    };
    assert_eq!(speak_response(outcome), Ok(()));
}

#[test]
fn scenario_empty_text_synthesis_failure() {
    let (_, acts) = fail_at(1);
    let outcome = finish_of(&acts).cloned().unwrap();
    let response = speak_response(outcome);
    match response {
        Err(m) => assert!(m.contains("SynthesisFailed")),
        Ok(()) => panic!("silent success"),
    }
    // Unwinding releases the engine right away: no wait on anything else.
    assert_eq!(acts.len(), 2);
    assert_eq!(acts[0], Action::Release(Resource::Engine));
}

#[test]
fn scenario_source_failure_disposes_engine_once() {
    let (_, acts) = fail_at(2);
    let engine_releases = acts.iter().filter(|a| **a == Action::Release(Resource::Engine)).count();
    assert_eq!(engine_releases, 1);
    assert!(matches!(finish_of(&acts), Some(Err(_))));
}

#[test]
fn concurrent_calls_are_independent() {
    let mut a = Coordinator::new();
    let mut b = Coordinator::new();
    let mut acts_a = Vec::new();
    let mut acts_b = Vec::new();
    acts_a.push(a.step(Event::Begin));
    acts_b.push(b.step(Event::Begin));
    for _ in 0..7 {
        acts_a.push(a.step(Event::Succeeded));
        acts_b.push(b.step(Event::Succeeded));
    }
    acts_b.push(b.step(Event::Ended));
    assert_eq!(a.stage(), Stage::Waiting);
    acts_a.push(a.step(Event::Ended));
    for _ in 0..5 {
        acts_b.push(b.step(Event::Succeeded));
        acts_a.push(a.step(Event::Succeeded));
    }
    for acts in [&acts_a, &acts_b] {
        assert_eq!(acts.iter().filter(|x| **x == Action::CreateEngine).count(), 1);
        assert_eq!(acts.iter().filter(|x| **x == Action::Synthesize).count(), 1);
        assert_eq!(acts.iter().filter(|x| **x == Action::CreatePlayer).count(), 1);
        assert_eq!(acts.last(), Some(&Action::Finish(Ok(()))));
    }
}
