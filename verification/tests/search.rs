use bmpow::search::{worker_count, workers_for, SearchState};
use bmpow::worker::Outcome;

#[test]
fn one_worker_per_unit_and_at_least_one() {
    assert_eq!(workers_for(0), 1);
    assert_eq!(workers_for(1), 1);
    assert_eq!(workers_for(8), 8);
    assert_eq!(workers_for(usize::MAX), usize::MAX);
}

#[test]
fn this_machine_gets_at_least_one_worker() {
    assert!(worker_count() >= 1);
}

#[test]
fn search_begins_idle() {
    assert_eq!(SearchState::new(), SearchState::Idle);
    assert_eq!(SearchState::new().winner(), None);
}

#[test]
fn starting_workers_begins_the_search() {
    assert_eq!(SearchState::new().start(4), SearchState::Searching { pending: 4 });
    assert_eq!(SearchState::new().start(0), SearchState::Failed);
}

#[test]
fn only_an_idle_search_starts() {
    let running = SearchState::Searching { pending: 2 };
    assert_eq!(running.start(8), running);
    let done = SearchState::Completed { nonce: 5 };
    assert_eq!(done.start(8), done);
    assert_eq!(SearchState::Failed.start(8), SearchState::Failed);
}

#[test]
fn first_found_nonce_completes_the_search() {
    let state = SearchState::new().start(4).on_report(Outcome::Found(182));
    assert_eq!(state, SearchState::Completed { nonce: 182 });
    assert_eq!(state.winner(), Some(182));
}

#[test]
fn nonce_zero_is_a_winner_like_any_other() {
    let state = SearchState::new().start(2).on_report(Outcome::Found(0));
    assert_eq!(state.winner(), Some(0));
    let waiting = SearchState::new().start(2).on_report(Outcome::Cancelled);
    assert_eq!(waiting.winner(), None);
}

#[test]
fn later_reports_are_dropped() {
    let state = SearchState::new()
        .start(4)
        .on_report(Outcome::Found(632))
        .on_report(Outcome::Found(182))
        .on_report(Outcome::Cancelled)
        .on_report(Outcome::Exhausted);
    assert_eq!(state, SearchState::Completed { nonce: 632 });
}

#[test]
fn workers_without_a_nonce_are_counted_off() {
    let state = SearchState::new().start(3).on_report(Outcome::Cancelled);
    assert_eq!(state, SearchState::Searching { pending: 2 });
    let state = state.on_report(Outcome::Exhausted);
    assert_eq!(state, SearchState::Searching { pending: 1 });
    assert_eq!(state.on_report(Outcome::Found(7)), SearchState::Completed { nonce: 7 });
}

#[test]
fn search_fails_when_the_last_worker_ends_without_a_nonce() {
    let state = SearchState::new()
        .start(2)
        .on_report(Outcome::Exhausted)
        .on_report(Outcome::Cancelled);
    assert_eq!(state, SearchState::Failed);
    assert_eq!(state.winner(), None);
    assert_eq!(state.on_report(Outcome::Found(1)), SearchState::Failed);
}

#[test]
fn reports_to_an_idle_search_are_dropped() {
    assert_eq!(SearchState::Idle.on_report(Outcome::Found(3)), SearchState::Idle);
}
