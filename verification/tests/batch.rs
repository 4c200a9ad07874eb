use batch_loader::aggregator::aggregate;
use batch_loader::aggregator::run_batch;
use batch_loader::fetcher::Fetcher;
use batch_loader::fetcher::ReadOutcome;
use batch_loader::orchestrator::gather_outcomes;
use batch_loader::orchestrator::UnitResult;
use batch_loader::outcome::FailureReason;
use batch_loader::outcome::FetchError;
use batch_loader::outcome::FetchOutcome;
use batch_loader::result_map::ResultMap;

fn ids_of(names: &[&str]) -> Vec<String> {
    names.iter().map(|n| String::from(*n)).collect()
}

fn ok(content: &str) -> UnitResult {
    Some(Ok(String::from(content)))
}

#[test]
fn gather_keeps_length_and_order() {
    let ids = ids_of(&["a", "b", "c", "d"]);
    let units: Vec<UnitResult> = vec![
        ok("alpha"),
        Some(Err(FetchError::NotFound)),
        None,
        ok("delta"),
    ];
    let outcomes = gather_outcomes(&ids, units);
    assert_eq!(outcomes.len(), 4);
    assert_eq!(
        outcomes[0],
        FetchOutcome::Success { id: String::from("a"), content: String::from("alpha") }
    );
    assert_eq!(
        outcomes[1],
        FetchOutcome::Failure {
            id: String::from("b"),
            reason: FailureReason::Fetch { error: FetchError::NotFound },
        }
    );
    assert_eq!(
        outcomes[2],
        FetchOutcome::Failure {
            id: String::from("c"),
            reason: FailureReason::ExecutionFailure,
        }
    );
    assert_eq!(
        outcomes[3],
        FetchOutcome::Success { id: String::from("d"), content: String::from("delta") }
    );
}

#[test]
fn gather_empty_batch() {
    let ids: Vec<String> = Vec::new();
    let outcomes = gather_outcomes(&ids, Vec::new());
    assert_eq!(outcomes.len(), 0);
}

#[test]
fn gather_one_outcome_per_duplicate_occurrence() {
    let ids = ids_of(&["twin", "other", "twin"]);
    let units: Vec<UnitResult> = vec![ok("first"), ok("middle"), ok("second")];
    let outcomes = gather_outcomes(&ids, units);
    assert_eq!(outcomes.len(), 3);
    assert_eq!(outcomes[0].id(), "twin");
    assert_eq!(outcomes[1].id(), "other");
    assert_eq!(outcomes[2].id(), "twin");
}

#[test]
fn aggregate_duplicate_ids_last_success_wins() {
    let ids = ids_of(&["twin", "other", "twin"]);
    let units: Vec<UnitResult> = vec![ok("first"), ok("middle"), ok("second")];
    let outcomes = gather_outcomes(&ids, units);
    let (map, failures) = aggregate(outcomes);
    assert_eq!(map.len(), 2);
    assert_eq!(map.get(&String::from("twin")), Some(&String::from("second")));
    assert_eq!(map.get(&String::from("other")), Some(&String::from("middle")));
    assert_eq!(failures.len(), 0);
}

#[test]
fn aggregate_failure_does_not_mask_successes() {
    let ids = ids_of(&["good1", "bad", "good2"]);
    let units: Vec<UnitResult> = vec![
        ok("one"),
        Some(Err(FetchError::ReadFailure { message: String::from("disk on fire") })),
        ok("two"),
    ];
    let outcomes = gather_outcomes(&ids, units);
    assert_eq!(outcomes.len(), 3);
    assert!(outcomes[0].is_ok());
    assert!(!outcomes[1].is_ok());
    assert!(outcomes[2].is_ok());
    let (map, failures) = aggregate(outcomes);
    assert_eq!(map.len(), 2);
    assert_eq!(map.get(&String::from("good1")), Some(&String::from("one")));
    assert_eq!(map.get(&String::from("good2")), Some(&String::from("two")));
    assert_eq!(map.get(&String::from("bad")), None);
    assert_eq!(failures.len(), 1);
    assert_eq!(failures[0].id, "bad");
    assert_eq!(
        failures[0].reason,
        FailureReason::Fetch {
            error: FetchError::ReadFailure { message: String::from("disk on fire") },
        }
    );
}

#[test]
fn aggregate_all_failures_yields_empty_map() {
    let ids = ids_of(&["p", "q", "r"]);
    let units: Vec<UnitResult> = vec![
        Some(Err(FetchError::NotFound)),
        None,
        Some(Err(FetchError::InvalidIdentifier)),
    ];
    let outcomes = gather_outcomes(&ids, units);
    let (map, failures) = aggregate(outcomes);
    assert_eq!(map.len(), 0);
    assert_eq!(failures.len(), 3);
    assert_eq!(failures[0].id, "p");
    assert_eq!(failures[1].id, "q");
    assert_eq!(failures[2].id, "r");
}

#[test]
fn example_batch_cat_tokyo_banana() {
    let ids = ids_of(&["cat", "tokyo", "banana"]);
    let units: Vec<UnitResult> = vec![ok("meow"), Some(Err(FetchError::NotFound)), ok("split")];
    let outcomes = gather_outcomes(&ids, units);
    let (map, failures) = aggregate(outcomes);
    assert_eq!(map.len(), 2);
    assert_eq!(map.get(&String::from("cat")), Some(&String::from("meow")));
    assert_eq!(map.get(&String::from("banana")), Some(&String::from("split")));
    assert_eq!(map.get(&String::from("tokyo")), None);
    assert_eq!(failures.len(), 1);
    assert_eq!(failures[0].id, "tokyo");
    assert_eq!(
        failures[0].reason,
        FailureReason::Fetch { error: FetchError::NotFound }
    );
}

#[test]
fn run_batch_is_the_single_entry_point() {
    let ids = ids_of(&["cat", "tokyo", "banana"]);
    let units: Vec<UnitResult> = vec![ok("meow"), Some(Err(FetchError::NotFound)), ok("split")];
    let (map, failures) = run_batch(&ids, units);
    assert_eq!(map.len(), 2);
    assert_eq!(map.get(&String::from("cat")), Some(&String::from("meow")));
    assert_eq!(map.get(&String::from("banana")), Some(&String::from("split")));
    assert_eq!(failures.len(), 1);
    assert_eq!(failures[0].id, "tokyo");
}

#[test]
fn resource_path_resolves_under_root() {
    let fetcher = Fetcher::new(String::from("/data"));
    let path = fetcher.resource_path("cat");
    assert_eq!(path, Ok(String::from("/data/files/cat.txt")));
}

#[test]
fn resource_path_rejects_separator() {
    let fetcher = Fetcher::new(String::from("/data"));
    assert_eq!(
        fetcher.resource_path("../../etc/passwd"),
        Err(FetchError::InvalidIdentifier)
    );
}

#[test]
fn resource_path_rejects_nul() {
    let fetcher = Fetcher::new(String::from("/data"));
    assert_eq!(
        fetcher.resource_path("ca\u{0}t"),
        Err(FetchError::InvalidIdentifier)
    );
}

#[test]
fn interpret_read_content_is_success() {
    let fetcher = Fetcher::new(String::from("/data"));
    let r = fetcher.interpret_read(ReadOutcome::Content { text: String::from("meow") });
    assert_eq!(r, Ok(String::from("meow")));
}

#[test]
fn interpret_read_absent_is_not_found() {
    let fetcher = Fetcher::new(String::from("/data"));
    let r = fetcher.interpret_read(ReadOutcome::Absent);
    assert_eq!(r, Err(FetchError::NotFound));
}

#[test]
fn interpret_read_unreadable_keeps_diagnostic() {
    let fetcher = Fetcher::new(String::from("/data"));
    let r = fetcher.interpret_read(ReadOutcome::Unreadable {
        message: String::from("permission denied"),
    });
    assert_eq!(
        r,
        Err(FetchError::ReadFailure { message: String::from("permission denied") })
    );
}

#[test]
fn result_map_insert_overwrites_and_lists_entries() {
    let mut map = ResultMap::new();
    assert_eq!(map.len(), 0);
    map.insert(String::from("k"), String::from("v1"));
    map.insert(String::from("l"), String::from("w"));
    map.insert(String::from("k"), String::from("v2"));
    assert_eq!(map.len(), 2);
    assert_eq!(map.get(&String::from("k")), Some(&String::from("v2")));
    assert_eq!(map.get(&String::from("l")), Some(&String::from("w")));
    assert_eq!(map.get(&String::from("m")), None);
    let entries = map.entries();
    assert_eq!(entries.len(), 2);
    assert!(entries.contains(&(String::from("k"), String::from("v2"))));
    assert!(entries.contains(&(String::from("l"), String::from("w"))));
}

#[test]
fn describe_names_each_reason() {
    let not_found = FailureReason::Fetch { error: FetchError::NotFound };
    let invalid = FailureReason::Fetch { error: FetchError::InvalidIdentifier };
    let unreadable = FailureReason::Fetch {
        error: FetchError::ReadFailure { message: String::from("timeout") },
    };
    let crashed = FailureReason::ExecutionFailure;
    assert_eq!(not_found.describe(), "not found");
    assert_eq!(invalid.describe(), "invalid identifier");
    assert_eq!(unreadable.describe(), "read failure: timeout");
    assert_eq!(crashed.describe(), "execution failure");
}
