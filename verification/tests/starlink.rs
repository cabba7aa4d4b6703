use weathr::starlink::{longest_train, starlink_step, tle_fresh, train_size};

#[test]
fn longest_train_counts_chains() {
    assert_eq!(longest_train(&vec![]), 0);
    assert_eq!(longest_train(&vec![5]), 1);
    assert_eq!(longest_train(&vec![100, 120, 160, 201, 300, 310, 320, 330]), 4);
    assert_eq!(longest_train(&vec![1, 41, 81, 200]), 3);
    assert_eq!(longest_train(&vec![1, 42, 83]), 1);
}

#[test]
fn train_size_sorts_first() {
    assert_eq!(train_size(vec![330, 100, 310, 120, 300, 320]), 4);
    assert_eq!(train_size(vec![]), 0);
    assert_eq!(train_size(vec![7, 7, 7]), 3);
}

#[test]
fn watcher_schedule() {
    let s = starlink_step(Some(5), 60);
    assert_eq!(s.train.map(|t| t.count), Some(5));
    assert_eq!(s.delay_secs, 3600);
    let s = starlink_step(Some(3), 60);
    assert!(s.train.is_none());
    assert_eq!(s.delay_secs, 300);
    let s = starlink_step(None, 900);
    assert!(s.train.is_none());
    assert_eq!(s.delay_secs, 900);
}

#[test]
fn cached_elements_expire_after_a_day() {
    assert!(tle_fresh(Some(0)));
    assert!(tle_fresh(Some(86_399)));
    assert!(!tle_fresh(Some(86_400)));
    assert!(!tle_fresh(None));
}
