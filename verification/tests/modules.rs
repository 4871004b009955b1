use sws_modules::dispatch::{pre_process, FixedModule};
use sws_modules::locator::{library_file_pattern, Platform};
use sws_modules::registry::{LoadOutcome, Registry};

fn claiming(result: u64) -> FixedModule<u64> {
    FixedModule { accept: true, result }
}

fn declining(result: u64) -> FixedModule<u64> {
    FixedModule { accept: false, result }
}

#[test]
fn empty_registry_claims_nothing() {
    let registry: Registry<FixedModule<u64>> = Registry::new();
    assert_eq!(registry.len(), 0);
    assert_eq!(pre_process(&registry, &0u64), None);
    assert_eq!(pre_process(&registry, &17u64), None);
    assert_eq!(pre_process(&registry, &u64::MAX), None);
}

#[test]
fn no_claim_returns_absent() {
    let mut registry = Registry::new();
    registry.register(declining(1));
    registry.register(declining(2));
    registry.register(declining(3));
    assert_eq!(pre_process(&registry, &42u64), None);
}

#[test]
fn first_match_wins() {
    let mut registry = Registry::new();
    registry.register(claiming(1));
    registry.register(claiming(2));
    registry.register(claiming(3));
    let res = pre_process(&registry, &42u64);
    assert_eq!(res, Some(1));
    assert_ne!(res, Some(2));
}

#[test]
fn later_module_claims_when_earlier_decline() {
    let mut registry = Registry::new();
    registry.register(declining(1));
    registry.register(declining(2));
    registry.register(claiming(3));
    assert_eq!(pre_process(&registry, &42u64), Some(3));
}

#[test]
fn pre_process_is_idempotent() {
    let mut registry = Registry::new();
    registry.register(declining(1));
    registry.register(claiming(2));
    registry.register(claiming(3));
    let first = pre_process(&registry, &7u64);
    let second = pre_process(&registry, &7u64);
    assert_eq!(first, Some(2));
    assert_eq!(first, second);

    let empty: Registry<FixedModule<u64>> = Registry::new();
    assert_eq!(pre_process(&empty, &7u64), pre_process(&empty, &7u64));
}

#[test]
fn corrupt_candidate_loads_zero_modules() {
    let outcomes: Vec<LoadOutcome<FixedModule<u64>>> = vec![LoadOutcome::Failed];
    let registry = Registry::from_outcomes(outcomes);
    assert_eq!(registry.len(), 0);
    assert_eq!(pre_process(&registry, &0u64), None);
}

#[test]
fn failure_does_not_block_other_candidates() {
    let outcomes = vec![
        LoadOutcome::Loaded(claiming(1)),
        LoadOutcome::Failed,
        LoadOutcome::Loaded(claiming(2)),
    ];
    let registry = Registry::from_outcomes(outcomes);
    assert_eq!(registry.len(), 2);
    assert_eq!(pre_process(&registry, &0u64), Some(1));

    let outcomes = vec![LoadOutcome::Failed, LoadOutcome::Loaded(claiming(9))];
    let registry = Registry::from_outcomes(outcomes);
    assert_eq!(registry.len(), 1);
    assert_eq!(pre_process(&registry, &0u64), Some(9));
}

#[test]
fn registry_keeps_discovery_order() {
    let outcomes = vec![
        LoadOutcome::Loaded(declining(1)),
        LoadOutcome::Loaded(claiming(2)),
        LoadOutcome::Loaded(claiming(3)),
    ];
    let registry = Registry::from_outcomes(outcomes);
    assert_eq!(registry.len(), 3);
    assert_eq!(registry.get(0).result, 1);
    assert_eq!(registry.get(1).result, 2);
    assert_eq!(registry.get(2).result, 3);
    assert_eq!(pre_process(&registry, &0u64), Some(2));
}

#[test]
fn platform_library_patterns() {
    assert_eq!(library_file_pattern(Platform::MacOs), "*.dylib");
    assert_eq!(library_file_pattern(Platform::Windows), "*.dll");
    assert_eq!(library_file_pattern(Platform::Unix), "*.so");
}
