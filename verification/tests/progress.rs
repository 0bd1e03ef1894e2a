use dfu_libusb::Progress;

fn run(length: u32, counts: &[usize]) -> (Progress, Vec<bool>) {
    let mut progress = Progress::new(length);
    let reports = counts.iter().map(|count| progress.advance(*count)).collect();
    (progress, reports)
}

#[test]
fn progress_starts_unfinished() {
    let progress = Progress::new(10);
    assert_eq!(progress, Progress { length: 10, position: 0, finished: false });
    assert!(!progress.is_finished());
    assert!(!Progress::new(0).is_finished());
}

#[test]
fn completion_is_reported_once() {
    let (progress, reports) = run(10, &[4, 0, 3, 3]);
    assert_eq!(reports, vec![false, false, false, true]);
    assert_eq!(progress, Progress { length: 10, position: 10, finished: true });
    assert!(progress.is_finished());
}

#[test]
fn completion_is_not_reported_before_the_length() {
    let (progress, reports) = run(10, &[4, 5]);
    assert_eq!(reports, vec![false, false]);
    assert_eq!(progress, Progress { length: 10, position: 9, finished: false });
}

#[test]
fn reports_after_completion_are_not_completions() {
    let (progress, reports) = run(10, &[10, 0, 0]);
    assert_eq!(reports, vec![true, false, false]);
    assert!(progress.is_finished());
    let (progress, reports) = run(10, &[10, 5]);
    assert_eq!(reports, vec![true, false]);
    assert_eq!(progress, Progress { length: 10, position: 15, finished: true });
}

#[test]
fn overshoot_does_not_complete() {
    let (progress, reports) = run(10, &[4, 7, 0]);
    assert_eq!(reports, vec![false, false, false]);
    assert_eq!(progress, Progress { length: 10, position: 11, finished: false });
}

#[test]
fn empty_image_completes_on_the_first_report() {
    let (progress, reports) = run(0, &[0, 0]);
    assert_eq!(reports, vec![true, false]);
    assert!(progress.is_finished());
}

#[test]
fn largest_image_completes() {
    let (progress, reports) = run(u32::MAX, &[0x8000_0000, 0x7fff_ffff]);
    assert_eq!(reports, vec![false, true]);
    assert_eq!(progress.position, 0xffff_ffff);
}

#[test]
fn position_stops_at_the_largest_value() {
    let mut progress = Progress { length: 5, position: u64::MAX - 1, finished: false };
    assert!(!progress.advance(1));
    assert_eq!(progress.position, u64::MAX);
    assert!(!progress.advance(usize::MAX));
    assert_eq!(progress.position, u64::MAX);
    assert!(!progress.is_finished());
}
