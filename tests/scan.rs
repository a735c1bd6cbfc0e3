use png_optimizer::age::{elapsed_hours, is_fresh, MAX_AGE_HOURS, SECS_PER_HOUR};
use png_optimizer::pattern::png_pattern;
use png_optimizer::scan::{outcome_level, Entry, Level, Scan, Step};

const NOW: u64 = 1_700_000_000;

fn run(now: u64, entries: &[Entry]) -> (Vec<Step>, u64) {
    let mut scan = Scan::new(now);
    let steps = entries.iter().map(|e| scan.on_entry(*e)).collect();
    (steps, scan.summary())
}

#[test]
fn elapsed_hours_truncates_to_whole_hours() {
    assert_eq!(elapsed_hours(NOW, NOW), 0);
    assert_eq!(elapsed_hours(NOW, NOW - 3599), 0);
    assert_eq!(elapsed_hours(NOW, NOW - 3600), 1);
    assert_eq!(elapsed_hours(NOW, NOW - 7 * 3600 - 59), 7);
    assert_eq!(elapsed_hours(NOW, NOW - 90_000), 25);
    assert_eq!(elapsed_hours(u64::MAX, 0), u64::MAX / 3600);
}

#[test]
fn future_creation_time_counts_as_no_time() {
    assert_eq!(elapsed_hours(NOW, NOW + 1_000_000), 0);
    assert!(is_fresh(NOW, NOW + 1_000_000));
    assert!(is_fresh(0, u64::MAX));
}

#[test]
fn constants_hold_the_limit() {
    assert_eq!(SECS_PER_HOUR, 3600);
    assert_eq!(MAX_AGE_HOURS, 24);
}

#[test]
fn age_boundary_is_strict_on_whole_hours() {
    assert!(is_fresh(NOW, NOW - 23 * 3600));
    assert!(is_fresh(NOW, NOW - 24 * 3600));
    assert!(is_fresh(NOW, NOW - 24 * 3600 - 1));
    assert!(is_fresh(NOW, NOW - 89_999));
    assert!(!is_fresh(NOW, NOW - 90_000));
    assert!(!is_fresh(NOW, NOW - 48 * 3600));
    assert!(!is_fresh(NOW, 0));
}

#[test]
fn pattern_is_recursive_png_glob() {
    assert_eq!(png_pattern("photos"), "photos/**/*.png");
    assert_eq!(png_pattern("/tmp/a b"), "/tmp/a b/**/*.png");
    assert_eq!(png_pattern(""), "/**/*.png");
}

#[test]
fn empty_directory_counts_zero() {
    let (steps, count) = run(NOW, &[]);
    assert!(steps.is_empty());
    assert_eq!(count, 0);
}

#[test]
fn only_fresh_files_with_known_creation_reach_optimizer() {
    let entries = [
        Entry::CreatedAt(NOW - 60),
        Entry::EnumerationError,
        Entry::NoCreationTime,
        Entry::CreatedAt(NOW - 30 * 3600),
        Entry::CreatedAt(NOW - 23 * 3600),
        Entry::CreatedAt(NOW + 5),
    ];
    let (steps, count) = run(NOW, &entries);
    assert_eq!(
        steps,
        vec![
            Step::Optimize,
            Step::ReportError,
            Step::Skip,
            Step::Skip,
            Step::Optimize,
            Step::Optimize,
        ]
    );
    assert_eq!(count, 3);
}

#[test]
fn failed_optimization_still_counts() {
    // one valid and one corrupt file, both fresh
    let (steps, count) = run(NOW, &[Entry::CreatedAt(NOW - 10), Entry::CreatedAt(NOW - 20)]);
    assert_eq!(steps, vec![Step::Optimize, Step::Optimize]);
    assert_eq!(count, 2);
    assert_eq!(outcome_level(true), Level::Info);
    assert_eq!(outcome_level(false), Level::Error);
}

#[test]
fn second_run_decides_as_the_first() {
    let entries = [Entry::CreatedAt(NOW - 100), Entry::CreatedAt(NOW - 200)];
    let first = run(NOW, &entries);
    let second = run(NOW + 5, &entries);
    assert_eq!(first, second);
    assert_eq!(second.1, 2);
}

#[test]
fn nested_file_is_handled_like_one_at_the_root() {
    // the walk reports a deep file and a top-level file alike
    let (steps, count) = run(NOW, &[Entry::CreatedAt(NOW - 3600), Entry::CreatedAt(NOW - 3600)]);
    assert_eq!(steps[0], steps[1]);
    assert_eq!(count, 2);
    assert!(png_pattern("root").contains("/**/"));
}

#[test]
fn scan_starts_at_given_time() {
    let scan = Scan::new(NOW);
    assert_eq!(scan.now_secs, NOW);
    assert_eq!(scan.attempted, 0);
}
