use tcp_proxy::admission::AdmissionCounter;

#[test]
fn ceiling_admits_exactly_max() {
    // with max = 3, exactly 3 admissions succeed and the 4th fails
    let max = 3;
    let mut counter = AdmissionCounter::new();
    assert!(counter.try_admit(max));
    assert!(counter.try_admit(max));
    assert!(counter.try_admit(max));
    assert!(!counter.try_admit(max));
    assert!(!counter.try_admit(max));
    assert_eq!(counter.count, 3);

    // a release reopens exactly one slot
    counter.release();
    assert!(counter.try_admit(max));
    assert!(!counter.try_admit(max));
    assert_eq!(counter.count, 3);
}

#[test]
fn zero_ceiling_admits_nothing() {
    let mut counter = AdmissionCounter::new();
    assert!(!counter.try_admit(0));
    assert_eq!(counter.count, 0);
}

#[test]
fn admit_release_pairs_restore_count() {
    let max = 8;
    let mut counter = AdmissionCounter::new();
    assert!(counter.try_admit(max));
    assert!(counter.try_admit(max));
    let prior = counter.count;

    for _ in 0..100 {
        let admitted = counter.try_admit(max);
        assert!(admitted);
        counter.release();
    }
    assert_eq!(counter.count, prior);
}

#[test]
fn failed_admission_does_not_change_count() {
    let max = 1;
    let mut counter = AdmissionCounter::new();
    assert!(counter.try_admit(max));
    let before = counter.count;
    assert!(!counter.try_admit(max));
    assert_eq!(counter.count, before);
}
