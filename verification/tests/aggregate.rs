use repo_status::aggregate::{aggregate, join_reports, Aggregator};
use repo_status::error::RepoStatusError;

fn texts(items: &[&str]) -> Vec<String> {
    items.iter().map(|item| String::from(*item)).collect()
}

fn unavailable(path: &str) -> RepoStatusError {
    RepoStatusError::RepositoryUnavailable {
        path: String::from(path),
        reason: format!("could not open {}", path),
    }
}

#[test]
fn join_skips_empty_reports() {
    assert_eq!(join_reports(&texts(&[])), "");
    assert_eq!(join_reports(&texts(&["", "", ""])), "");
    assert_eq!(join_reports(&texts(&["one"])), "one");
    assert_eq!(join_reports(&texts(&["", "one", ""])), "one");
    assert_eq!(join_reports(&texts(&["one", "", "two", "", "", "three"])), "one\ntwo\nthree");
}

#[test]
fn join_keeps_the_given_order() {
    assert_eq!(join_reports(&texts(&["b", "a", "c"])), "b\na\nc");
    assert_eq!(join_reports(&texts(&["c", "a", "b"])), "c\na\nb");
}

#[test]
fn aggregate_of_successes_is_their_join() {
    let outcomes = vec![Ok(String::from("x")), Ok(String::new()), Ok(String::from("y\nz"))];
    assert_eq!(aggregate(outcomes), Ok(String::from("x\ny\nz")));
    assert_eq!(aggregate(vec![]), Ok(String::new()));
}

#[test]
fn one_failure_fails_the_whole() {
    let outcomes = vec![Ok(String::from("x")), Err(unavailable("b")), Ok(String::from("y"))];
    assert_eq!(aggregate(outcomes), Err(unavailable("b")));
}

#[test]
fn first_failure_in_manifest_order_is_reported() {
    let outcomes = vec![
        Ok(String::from("x")),
        Err(unavailable("second")),
        Err(RepoStatusError::InvalidUtf8),
        Err(unavailable("fourth")),
    ];
    assert_eq!(aggregate(outcomes), Err(unavailable("second")));
}

#[test]
fn completion_order_does_not_change_the_output() {
    let reports = ["project a/\n A-\t\tone", "", "project c/\n -m\t\ttwo", "project d/\n -d\t\tx"];
    let expected = "project a/\n A-\t\tone\nproject c/\n -m\t\ttwo\nproject d/\n -d\t\tx";
    let orders: [[usize; 4]; 6] =
        [[0, 1, 2, 3], [3, 2, 1, 0], [2, 0, 3, 1], [1, 3, 0, 2], [3, 0, 1, 2], [1, 2, 3, 0]];
    for order in orders {
        let mut aggregator = Aggregator::new(reports.len());
        assert_eq!(aggregator.len(), 4);
        for (turn, index) in order.iter().enumerate() {
            assert!(!aggregator.is_complete());
            assert!(aggregator.record(*index, Ok(String::from(reports[*index]))));
            assert_eq!(aggregator.is_complete(), turn == 3);
        }
        assert_eq!(aggregator.finish(), Some(Ok(String::from(expected))), "{:?}", order);
    }
}

#[test]
fn completion_order_does_not_change_the_failure() {
    let orders: [[usize; 3]; 3] = [[0, 1, 2], [2, 1, 0], [1, 2, 0]];
    for order in orders {
        let mut aggregator = Aggregator::new(3);
        for index in order {
            let outcome = if index == 0 {
                Ok(String::from("fine"))
            } else {
                Err(unavailable(if index == 1 { "one" } else { "two" }))
            };
            assert!(aggregator.record(index, outcome));
        }
        assert_eq!(aggregator.finish(), Some(Err(unavailable("one"))), "{:?}", order);
    }
}

#[test]
fn finish_waits_for_every_place() {
    let mut aggregator = Aggregator::new(2);
    assert!(aggregator.record(1, Ok(String::from("late"))));
    assert!(!aggregator.is_complete());
    assert_eq!(aggregator.finish(), None);
    assert_eq!(Aggregator::new(1).finish(), None);
}

#[test]
fn no_projects_is_complete_and_empty() {
    let aggregator = Aggregator::new(0);
    assert_eq!(aggregator.len(), 0);
    assert!(aggregator.is_complete());
    assert_eq!(aggregator.finish(), Some(Ok(String::new())));
}

#[test]
fn record_outside_the_places_changes_nothing() {
    let mut aggregator = Aggregator::new(1);
    assert!(!aggregator.record(1, Ok(String::from("nowhere"))));
    assert!(!aggregator.record(usize::MAX, Err(RepoStatusError::InvalidUtf8)));
    assert!(!aggregator.is_complete());
    assert!(aggregator.record(0, Ok(String::from("here"))));
    assert_eq!(aggregator.finish(), Some(Ok(String::from("here"))));
}

#[test]
fn later_record_replaces_the_earlier_one() {
    let mut aggregator = Aggregator::new(1);
    assert!(aggregator.record(0, Err(RepoStatusError::InvalidUtf8)));
    assert!(aggregator.record(0, Ok(String::from("again"))));
    assert_eq!(aggregator.finish(), Some(Ok(String::from("again"))));
}
