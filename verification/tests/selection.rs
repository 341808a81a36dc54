use tabdash::input::{Input, Key, Transition};
use tabdash::selection::Dashboard;
use tabdash::tabs::{Tab, TabSet};

fn tabs_of(count: usize) -> TabSet {
    let mut tabs: Vec<Tab> = Vec::new();
    for i in 0..count {
        tabs.push(Tab { label: format!("tab {}", i), content: Some(format!("content {}", i)) });
    }
    TabSet::new(tabs).unwrap()
}

fn at(count: usize, index: usize) -> Dashboard {
    let mut dashboard = Dashboard::new(tabs_of(count));
    for _ in 0..index {
        dashboard.advance();
    }
    assert_eq!(dashboard.current(), index);
    dashboard
}

#[test]
fn starts_on_first_tab_and_running() {
    let dashboard = Dashboard::new(TabSet::standard());
    assert_eq!(dashboard.current(), 0);
    assert!(dashboard.is_running());
    assert_eq!(dashboard.tab_set().len(), 3);
}

#[test]
fn three_rights_make_a_full_wrap() {
    let mut dashboard = Dashboard::new(TabSet::standard());
    dashboard.feed(&vec![Input::Press(Key::Right), Input::Press(Key::Right), Input::Press(Key::Right)]);
    assert_eq!(dashboard.current(), 0);
    assert!(dashboard.is_running());
}

#[test]
fn rights_visit_each_tab_in_order() {
    let mut dashboard = Dashboard::new(TabSet::standard());
    dashboard.handle(Input::Press(Key::Right));
    assert_eq!(dashboard.current(), 1);
    dashboard.handle(Input::Press(Key::Right));
    assert_eq!(dashboard.current(), 2);
    dashboard.handle(Input::Press(Key::Right));
    assert_eq!(dashboard.current(), 0);
}

#[test]
fn left_from_first_wraps_to_last() {
    let mut dashboard = Dashboard::new(TabSet::standard());
    dashboard.feed(&vec![Input::Press(Key::Left)]);
    assert_eq!(dashboard.current(), 2);
}

#[test]
fn lefts_visit_each_tab_backwards() {
    let mut dashboard = Dashboard::new(TabSet::standard());
    dashboard.handle(Input::Press(Key::Left));
    assert_eq!(dashboard.current(), 2);
    dashboard.handle(Input::Press(Key::Left));
    assert_eq!(dashboard.current(), 1);
    dashboard.handle(Input::Press(Key::Left));
    assert_eq!(dashboard.current(), 0);
}

#[test]
fn unrecognized_key_is_ignored_then_right_advances() {
    let mut dashboard = at(3, 1);
    dashboard.feed(&vec![Input::Press(Key::Char('a')), Input::Press(Key::Right)]);
    assert_eq!(dashboard.current(), 2);
    assert!(dashboard.is_running());
}

#[test]
fn q_stops_the_loop_from_any_state() {
    for index in 0..3 {
        let mut dashboard = at(3, index);
        dashboard.feed(&vec![Input::Press(Key::Char('q'))]);
        assert!(!dashboard.is_running());
        assert_eq!(dashboard.current(), index);
    }
}

#[test]
fn advancing_count_times_returns_to_start() {
    for count in 1..8 {
        for index in 0..count {
            let mut dashboard = at(count, index);
            for _ in 0..count {
                dashboard.advance();
            }
            assert_eq!(dashboard.current(), index);
        }
    }
}

#[test]
fn retreat_and_advance_cancel() {
    for count in 1..8 {
        for index in 0..count {
            let mut dashboard = at(count, index);
            dashboard.retreat();
            dashboard.advance();
            assert_eq!(dashboard.current(), index);
            dashboard.advance();
            dashboard.retreat();
            assert_eq!(dashboard.current(), index);
        }
    }
}

#[test]
fn retreat_computes_index_plus_count_minus_one_mod_count() {
    let mut dashboard = at(5, 3);
    dashboard.retreat();
    assert_eq!(dashboard.current(), 2);
    let mut dashboard = at(5, 0);
    dashboard.retreat();
    assert_eq!(dashboard.current(), 4);
}

#[test]
fn advance_computes_index_plus_one_mod_count() {
    let mut dashboard = at(5, 3);
    dashboard.advance();
    assert_eq!(dashboard.current(), 4);
    dashboard.advance();
    assert_eq!(dashboard.current(), 0);
}

#[test]
fn single_tab_stays_selected() {
    let mut dashboard = at(1, 0);
    dashboard.advance();
    assert_eq!(dashboard.current(), 0);
    dashboard.retreat();
    assert_eq!(dashboard.current(), 0);
}

#[test]
fn index_stays_in_range_over_mixed_inputs() {
    let inputs = vec![
        Input::Press(Key::Left),
        Input::Press(Key::Left),
        Input::Timeout,
        Input::Press(Key::Right),
        Input::Other,
        Input::Press(Key::Char('x')),
        Input::Press(Key::Other),
        Input::Press(Key::Left),
        Input::Press(Key::Left),
        Input::Press(Key::Left),
        Input::Press(Key::Right),
    ];
    let mut dashboard = Dashboard::new(TabSet::standard());
    for input in inputs {
        dashboard.handle(input);
        assert!(dashboard.current() < 3);
        assert!(dashboard.is_running());
    }
    assert_eq!(dashboard.current(), 0);
}

#[test]
fn nothing_changes_after_quit() {
    let mut dashboard = at(3, 1);
    dashboard.quit();
    assert!(!dashboard.is_running());
    dashboard.feed(&vec![
        Input::Press(Key::Right),
        Input::Press(Key::Left),
        Input::Press(Key::Left),
        Input::Press(Key::Char('q')),
        Input::Timeout,
        Input::Other,
    ]);
    assert_eq!(dashboard.current(), 1);
    assert!(!dashboard.is_running());
    dashboard.advance();
    dashboard.retreat();
    dashboard.retreat();
    dashboard.apply(Transition::Advance);
    assert_eq!(dashboard.current(), 1);
    assert!(!dashboard.is_running());
}

#[test]
fn timeouts_and_other_events_change_nothing() {
    let mut dashboard = at(3, 2);
    dashboard.feed(&vec![Input::Timeout, Input::Other, Input::Timeout]);
    assert_eq!(dashboard.current(), 2);
    assert!(dashboard.is_running());
}

#[test]
fn empty_feed_changes_nothing() {
    let mut dashboard = at(3, 2);
    dashboard.feed(&Vec::new());
    assert_eq!(dashboard.current(), 2);
    assert!(dashboard.is_running());
}

#[test]
fn keys_map_to_transitions() {
    assert_eq!(Key::Char('q').transition(), Transition::Quit);
    assert_eq!(Key::Right.transition(), Transition::Advance);
    assert_eq!(Key::Left.transition(), Transition::Retreat);
    assert_eq!(Key::Char('Q').transition(), Transition::Ignore);
    assert_eq!(Key::Char('a').transition(), Transition::Ignore);
    assert_eq!(Key::Other.transition(), Transition::Ignore);
}

#[test]
fn inputs_map_to_transitions() {
    assert_eq!(Input::Press(Key::Char('q')).transition(), Transition::Quit);
    assert_eq!(Input::Press(Key::Right).transition(), Transition::Advance);
    assert_eq!(Input::Press(Key::Left).transition(), Transition::Retreat);
    assert_eq!(Input::Timeout.transition(), Transition::Ignore);
    assert_eq!(Input::Other.transition(), Transition::Ignore);
}
