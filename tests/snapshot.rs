use lcp::resp::Response;
use lcp::reval::Service;
use lcp::snapshot::{same_items, SnapshotCell};
use lcp::steam::games::Game;
use lcp::sync::{Action, Outcome, Run, Source};
use lcp::time::Timestamp;

fn game(name: &str, app_id: u32) -> Game {
    Game {
        name: name.to_string(),
        app_id,
        url: format!("https://store.steampowered.com/app/{}/", app_id),
        icon_url: String::from("icon"),
        header_url: String::from("header"),
        library_url: None,
        playtime_forever: 10,
        rtime_last_played: Timestamp::from_parts(1_700_000_000, 0),
        achievement_progress: None,
        achievements: None,
    }
}

fn names(cell: &SnapshotCell<Game>) -> Vec<String> {
    cell.read().data.iter().map(|g| g.name.clone()).collect()
}

/// Runs the poll-driven pipeline's decisions after a swap and returns the
/// actions asked for until the run finishes, every step succeeding.
fn cascade_actions(changed: bool, count: usize) -> Vec<Action> {
    let (mut run, first) = Run::start(Source::Steam.plan(), false);
    assert_eq!(first, Action::Fetch);
    let mut actions = vec![];
    let mut next = run.advance(Outcome::Fetched { changed, count });
    while next != Action::Finish {
        actions.push(next);
        next = run.advance(Outcome::Succeeded);
    }
    assert!(run.is_finished());
    actions
}

#[test]
fn first_fetch_into_empty_cell_changes_and_cascades_once() {
    let mut cell: SnapshotCell<Game> = SnapshotCell::empty_at(Timestamp::from_parts(0, 0));
    let changed = cell.compare_and_swap(vec![game("gameA", 1), game("gameB", 2)], Timestamp::from_parts(10, 0));
    assert!(changed);
    assert_eq!(names(&cell), vec!["gameA", "gameB"]);
    assert_eq!(cell.read().last_updated, Timestamp::from_parts(10, 0));
    assert_eq!(cascade_actions(changed, 2), vec![Action::Invalidate { service: Service::Steam }]);
}

#[test]
fn same_fetch_again_changes_nothing() {
    let mut cell: SnapshotCell<Game> = SnapshotCell::empty_at(Timestamp::from_parts(0, 0));
    assert!(cell.compare_and_swap(vec![game("gameA", 1), game("gameB", 2)], Timestamp::from_parts(10, 0)));
    let changed = cell.compare_and_swap(vec![game("gameA", 1), game("gameB", 2)], Timestamp::from_parts(20, 0));
    assert!(!changed);
    assert_eq!(cell.read().last_updated, Timestamp::from_parts(10, 0));
    assert!(cascade_actions(changed, 2).is_empty());
}

#[test]
fn reordered_fetch_is_a_change() {
    let mut cell: SnapshotCell<Game> = SnapshotCell::empty_at(Timestamp::from_parts(0, 0));
    assert!(cell.compare_and_swap(vec![game("gameA", 1), game("gameB", 2)], Timestamp::from_parts(10, 0)));
    assert!(cell.compare_and_swap(vec![game("gameB", 2), game("gameA", 1)], Timestamp::from_parts(20, 0)));
    assert_eq!(names(&cell), vec!["gameB", "gameA"]);
    assert_eq!(cell.read().last_updated, Timestamp::from_parts(20, 0));
}

#[test]
fn any_field_takes_part_in_equality() {
    let mut cell: SnapshotCell<Game> = SnapshotCell::empty_at(Timestamp::from_parts(0, 0));
    assert!(cell.compare_and_swap(vec![game("gameA", 1)], Timestamp::from_parts(10, 0)));
    let mut played_more = game("gameA", 1);
    played_more.playtime_forever = 11;
    assert!(cell.compare_and_swap(vec![played_more], Timestamp::from_parts(20, 0)));
    let mut with_library = game("gameA", 1);
    with_library.playtime_forever = 11;
    with_library.library_url = Some(String::from("lib"));
    assert!(cell.compare_and_swap(vec![with_library], Timestamp::from_parts(30, 0)));
}

#[test]
fn change_at_same_instant_keeps_stamp_value() {
    let mut cell: SnapshotCell<Game> = SnapshotCell::empty_at(Timestamp::from_parts(10, 0));
    assert!(cell.compare_and_swap(vec![game("gameA", 1)], Timestamp::from_parts(10, 0)));
    assert_eq!(cell.read().last_updated, Timestamp::from_parts(10, 0));
}

#[test]
fn empty_fetch_into_empty_cell_is_no_change() {
    let mut cell: SnapshotCell<Game> = SnapshotCell::empty_at(Timestamp::from_parts(5, 0));
    assert!(!cell.compare_and_swap(vec![], Timestamp::from_parts(10, 0)));
    assert_eq!(cell.read().last_updated, Timestamp::from_parts(5, 0));
    assert!(cell.read().data.is_empty());
}

#[test]
fn same_items_compares_in_order() {
    let a = vec![game("gameA", 1), game("gameB", 2)];
    let b = vec![game("gameA", 1), game("gameB", 2)];
    let c = vec![game("gameA", 1)];
    let d = vec![game("gameB", 2), game("gameA", 1)];
    assert!(same_items(&a, &b));
    assert!(!same_items(&a, &c));
    assert!(!same_items(&a, &d));
}

#[test]
fn response_new_wraps_data() {
    let r = Response::new(vec![1u8, 2, 3], Timestamp::from_parts(1_700_000_000, 5));
    assert_eq!(r.data, vec![1u8, 2, 3]);
    assert_eq!(r.last_updated, Timestamp::from_parts(1_700_000_000, 5));
}

#[test]
fn timestamp_order() {
    let a = Timestamp::from_parts(10, 5);
    assert!(a.before(&Timestamp::from_parts(10, 6)));
    assert!(a.before(&Timestamp::from_parts(11, 0)));
    assert!(!a.before(&Timestamp::from_parts(10, 5)));
    assert!(!a.before(&Timestamp::from_parts(9, 999)));
}
