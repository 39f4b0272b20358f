use asimov_cli::selection::{
    first_step, next_step, pick_module, prioritized_candidates, Enablement, PickStep,
    SelectionError,
};
use asimov_cli::status::{EX_IOERR, EX_SOFTWARE, EX_UNAVAILABLE};

fn names(list: &[&str]) -> Vec<String> {
    list.iter().map(|s| s.to_string()).collect()
}

fn abc() -> Vec<String> {
    names(&["A", "B", "C"])
}

fn mixed() -> Vec<Enablement> {
    vec![Enablement::Enabled, Enablement::Disabled, Enablement::Enabled]
}

#[test]
fn automatic_selection_returns_first_enabled() {
    assert_eq!(pick_module(&abc(), None, &mixed()), Ok(0));
}

#[test]
fn automatic_selection_skips_disabled_candidates() {
    let enabled = vec![Enablement::Disabled, Enablement::Disabled, Enablement::Enabled];
    assert_eq!(pick_module(&abc(), None, &enabled), Ok(2));
}

#[test]
fn explicit_disabled_module_is_reported() {
    let filter = "B".to_string();
    assert_eq!(
        pick_module(&abc(), Some(&filter), &mixed()),
        Err(SelectionError::NamedModuleDisabled { index: 1 })
    );
}

#[test]
fn explicit_enabled_module_is_selected() {
    let filter = "C".to_string();
    assert_eq!(pick_module(&abc(), Some(&filter), &mixed()), Ok(2));
}

#[test]
fn explicit_absent_module_is_reported() {
    let filter = "Z".to_string();
    assert_eq!(
        pick_module(&abc(), Some(&filter), &mixed()),
        Err(SelectionError::NoSuchNamedModule)
    );
}

#[test]
fn all_disabled_reports_the_candidate_count() {
    let enabled = vec![Enablement::Disabled; 3];
    assert_eq!(
        pick_module(&abc(), None, &enabled),
        Err(SelectionError::NoEnabledCandidate { count: 3 })
    );
}

#[test]
fn no_candidates_at_all_reports_zero() {
    assert_eq!(
        pick_module(&Vec::new(), None, &Vec::new()),
        Err(SelectionError::NoEnabledCandidate { count: 0 })
    );
}

#[test]
fn failed_check_stops_the_walk() {
    let enabled = vec![Enablement::Disabled, Enablement::CheckFailed, Enablement::Enabled];
    assert_eq!(
        pick_module(&abc(), None, &enabled),
        Err(SelectionError::EnablementCheckFailed { index: 1 })
    );
    let filter = "A".to_string();
    let enabled = vec![Enablement::CheckFailed, Enablement::Enabled, Enablement::Enabled];
    assert_eq!(
        pick_module(&abc(), Some(&filter), &enabled),
        Err(SelectionError::EnablementCheckFailed { index: 0 })
    );
}

#[test]
fn explicit_name_matches_the_first_equal_candidate() {
    let list = names(&["A", "B", "B"]);
    let filter = "B".to_string();
    let enabled = vec![Enablement::Enabled, Enablement::Enabled, Enablement::Enabled];
    assert_eq!(pick_module(&list, Some(&filter), &enabled), Ok(1));
}

#[test]
fn step_machine_asks_in_order() {
    let list = abc();
    assert_eq!(first_step(&list, None), PickStep::Query(0));
    assert_eq!(next_step(3, false, 0, Enablement::Disabled), PickStep::Query(1));
    assert_eq!(next_step(3, false, 1, Enablement::Enabled), PickStep::Selected(1));
    assert_eq!(
        next_step(3, false, 2, Enablement::Disabled),
        PickStep::Failed(SelectionError::NoEnabledCandidate { count: 3 })
    );
    let filter = "C".to_string();
    assert_eq!(first_step(&list, Some(&filter)), PickStep::Query(2));
    assert_eq!(
        next_step(3, true, 2, Enablement::Disabled),
        PickStep::Failed(SelectionError::NamedModuleDisabled { index: 2 })
    );
    assert_eq!(
        first_step(&Vec::new(), None),
        PickStep::Failed(SelectionError::NoEnabledCandidate { count: 0 })
    );
}

#[test]
fn selection_errors_map_to_exit_codes() {
    assert_eq!(SelectionError::NoSuchNamedModule.exit_code(), EX_SOFTWARE);
    assert_eq!(SelectionError::NamedModuleDisabled { index: 0 }.exit_code(), EX_UNAVAILABLE);
    assert_eq!(SelectionError::NoEnabledCandidate { count: 2 }.exit_code(), EX_UNAVAILABLE);
    assert_eq!(SelectionError::EnablementCheckFailed { index: 0 }.exit_code(), EX_IOERR);
    assert_eq!((EX_SOFTWARE, EX_UNAVAILABLE, EX_IOERR), (70, 69, 74));
}

#[test]
fn content_type_candidates_come_first_without_deduplication() {
    let by_type = names(&["pdf", "text"]);
    let by_locator = names(&["text", "http"]);
    assert_eq!(
        prioritized_candidates(by_type, by_locator),
        names(&["pdf", "text", "text", "http"])
    );
}
