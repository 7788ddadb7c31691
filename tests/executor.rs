use embassy_litex::executor::{ExecutorList, InterruptExecutor};

#[test]
fn slot_starts_once_with_its_level() {
    let mut e = InterruptExecutor::new(7);
    assert!(!e.is_started());
    assert_eq!(e.context(), 7);
    assert_eq!(e.start(), 7);
    assert!(e.is_started());
    assert_eq!(e.context(), 7);
}

#[test]
fn every_level_starts_exactly_once() {
    let mut list = ExecutorList::new();
    for level in 0..16 {
        assert!(!list.is_started(level));
    }
    for level in [10usize, 3, 15, 0] {
        assert!(!list.is_started(level));
        assert_eq!(list.start(level), level);
        assert!(list.is_started(level));
    }
    let started: Vec<usize> = (0..16).filter(|l| list.is_started(*l)).collect();
    assert_eq!(started, vec![0, 3, 10, 15]);
}
