use tabdash::input::{Input, Key};
use tabdash::session::{Action, Event, Failure, Phase, Session, POLL_TIMEOUT_MS};
use tabdash::tabs::TabSet;

/// Reports the events in order and returns the action performed at each.
fn drive(session: &mut Session, events: &[Event]) -> Vec<Action> {
    let mut performed = Vec::new();
    for event in events {
        performed.push(session.action());
        session.report(*event);
    }
    performed
}

fn count(performed: &[Action], action: Action) -> usize {
    performed.iter().filter(|a| **a == action).count()
}

fn press(key: Key) -> Event {
    Event::Polled(Input::Press(key))
}

#[test]
fn a_run_starts_by_acquiring() {
    let session = Session::new(TabSet::standard());
    assert_eq!(session.phase(), Phase::Acquiring);
    assert_eq!(session.action(), Action::Acquire);
    assert_eq!(session.dashboard().current(), 0);
    assert!(session.dashboard().is_running());
    assert_eq!(session.result(), Ok(()));
}

#[test]
fn q_ends_the_loop_and_releases_exactly_once() {
    for moves in 0..3 {
        let mut session = Session::new(TabSet::standard());
        let mut events = vec![Event::Done];
        for _ in 0..moves {
            events.push(Event::Done);
            events.push(press(Key::Right));
        }
        events.push(Event::Done);
        events.push(press(Key::Char('q')));
        let mut performed = drive(&mut session, &events);
        assert_eq!(session.phase(), Phase::Releasing);
        assert!(!session.dashboard().is_running());
        assert_eq!(session.dashboard().current(), moves);
        performed.extend(drive(&mut session, &[Event::Done, Event::Done, Event::Done]));
        assert_eq!(session.phase(), Phase::Finished);
        assert_eq!(session.action(), Action::Exit);
        assert_eq!(count(&performed, Action::Release), 1);
        assert_eq!(count(&performed, Action::Acquire), 1);
        assert_eq!(session.result(), Ok(()));
    }
}

#[test]
fn each_iteration_renders_once() {
    let mut session = Session::new(TabSet::standard());
    let events = vec![
        Event::Done,
        Event::Done,
        Event::Polled(Input::Timeout),
        Event::Done,
        press(Key::Right),
        Event::Done,
        press(Key::Char('a')),
        Event::Done,
        Event::Polled(Input::Other),
        Event::Done,
        Event::Done,
        Event::Done,
        press(Key::Left),
    ];
    let performed = drive(&mut session, &events);
    assert_eq!(
        performed,
        vec![
            Action::Acquire,
            Action::Render,
            Action::Poll,
            Action::Render,
            Action::Poll,
            Action::Render,
            Action::Poll,
            Action::Render,
            Action::Poll,
            Action::Render,
            Action::Poll,
            Action::Render,
            Action::Poll,
        ]
    );
    assert_eq!(count(&performed, Action::Render), 6);
    assert_eq!(count(&performed, Action::Poll), 6);
    assert_eq!(session.action(), Action::Render);
    assert_eq!(session.dashboard().current(), 0);
}

#[test]
fn failed_acquisition_ends_the_run_without_a_release() {
    let mut session = Session::new(TabSet::standard());
    let performed = drive(&mut session, &[Event::Failed, Event::Done, Event::Done]);
    assert_eq!(performed, vec![Action::Acquire, Action::Exit, Action::Exit]);
    assert_eq!(session.phase(), Phase::Finished);
    assert_eq!(session.result(), Err(Failure::Session));
}

#[test]
fn failed_draw_is_an_io_failure_and_still_releases() {
    let mut session = Session::new(TabSet::standard());
    let performed = drive(&mut session, &[Event::Done, Event::Failed, Event::Done]);
    assert_eq!(performed, vec![Action::Acquire, Action::Render, Action::Release]);
    assert_eq!(session.action(), Action::Exit);
    assert_eq!(session.result(), Err(Failure::Io));
}

#[test]
fn failed_wait_is_an_io_failure_and_still_releases() {
    let mut session = Session::new(TabSet::standard());
    let performed = drive(&mut session, &[Event::Done, Event::Done, Event::Failed, Event::Done]);
    assert_eq!(performed, vec![Action::Acquire, Action::Render, Action::Poll, Action::Release]);
    assert_eq!(session.action(), Action::Exit);
    assert_eq!(session.result(), Err(Failure::Io));
    assert!(!session.release_failed());
}

#[test]
fn failed_release_is_a_session_failure() {
    let mut session = Session::new(TabSet::standard());
    drive(&mut session, &[Event::Done, Event::Done, press(Key::Char('q')), Event::Failed]);
    assert_eq!(session.phase(), Phase::Finished);
    assert_eq!(session.result(), Err(Failure::Session));
    assert!(session.release_failed());
}

#[test]
fn loop_failure_comes_before_release_failure() {
    let mut session = Session::new(TabSet::standard());
    drive(&mut session, &[Event::Done, Event::Done, Event::Failed, Event::Failed]);
    assert_eq!(session.phase(), Phase::Finished);
    assert_eq!(session.result(), Err(Failure::Io));
    assert!(session.release_failed());
}

#[test]
fn a_finished_run_stays_finished() {
    let mut session = Session::new(TabSet::standard());
    drive(&mut session, &[Event::Done, Event::Done, press(Key::Right), Event::Done, press(Key::Char('q')), Event::Done]);
    assert_eq!(session.phase(), Phase::Finished);
    drive(&mut session, &[Event::Done, Event::Failed, press(Key::Right), press(Key::Char('q'))]);
    assert_eq!(session.phase(), Phase::Finished);
    assert_eq!(session.result(), Ok(()));
    assert_eq!(session.dashboard().current(), 1);
    assert!(!session.dashboard().is_running());
}

#[test]
fn a_plain_success_after_a_wait_counts_as_a_timeout() {
    let mut session = Session::new(TabSet::standard());
    drive(&mut session, &[Event::Done, Event::Done, Event::Done]);
    assert_eq!(session.phase(), Phase::Rendering);
    assert_eq!(session.dashboard().current(), 0);
}

#[test]
fn an_input_outside_a_wait_counts_as_success() {
    let mut session = Session::new(TabSet::standard());
    drive(&mut session, &[press(Key::Char('q')), press(Key::Right)]);
    assert_eq!(session.phase(), Phase::Polling);
    assert_eq!(session.dashboard().current(), 0);
    assert!(session.dashboard().is_running());
}

#[test]
fn the_wait_is_a_tenth_of_a_second() {
    assert_eq!(POLL_TIMEOUT_MS, 100);
}
