use nfd::fileapi::filename_index;
use nfd::fileapi::PathResolver;
use nfd::fileapi::ResolveStep;
use nfd::fileapi::MAX_PATH;

#[test]
fn resolver_succeeds_first_try() {
    let mut resolver = PathResolver::new();
    assert_eq!(resolver.capacity(), MAX_PATH);
    assert_eq!(resolver.attempts(), 0);
    let step = resolver.on_report(12);
    assert_eq!(step, ResolveStep::Done { len_with_nul: 13 });
    assert_eq!(resolver.attempts(), 1);
    assert_eq!(resolver.capacity(), MAX_PATH);
}

#[test]
fn resolver_reports_failure() {
    let mut resolver = PathResolver::new();
    let step = resolver.on_report(0);
    assert_eq!(step, ResolveStep::Failed);
    assert_eq!(resolver.attempts(), 1);
}

#[test]
fn retry_until_buffer_suffices() {
    // A mock resolver that reports "buffer too small, need 1000 units"
    // exactly twice before succeeding.
    let needed: usize = 1000;
    let reports: [usize; 3] = [needed, needed, 800];
    let mut resolver = PathResolver::new();
    let mut done_len = None;
    for report in reports {
        match resolver.on_report(report) {
            ResolveStep::Retry { capacity } => {
                // The buffer grows to at least the demanded size.
                assert!(capacity >= needed);
                assert_eq!(resolver.capacity(), capacity);
            }
            ResolveStep::Done { len_with_nul } => {
                done_len = Some(len_with_nul);
            }
            ResolveStep::Failed => panic!("the mock never fails"),
        }
    }
    // Two undersized reports cost two retries: three attempts in all.
    assert_eq!(resolver.attempts(), 3);
    assert!(resolver.capacity() >= needed);
    assert_eq!(done_len, Some(801));
}

#[test]
fn report_at_exact_capacity_retries() {
    // A report equal to the capacity means the buffer did not suffice.
    let mut resolver = PathResolver::new();
    let step = resolver.on_report(MAX_PATH);
    assert_eq!(step, ResolveStep::Retry { capacity: MAX_PATH });
}

#[test]
fn filename_index_translates_the_pointer() {
    // The filename pointer sits eight bytes, four units, into the buffer.
    assert_eq!(filename_index(1000, 1008, 10), Some(4));
    // The last unit of the buffer is still a valid filename start.
    assert_eq!(filename_index(1000, 1018, 10), Some(9));
    assert_eq!(filename_index(1000, 1000, 10), Some(0));
}

#[test]
fn filename_index_rejects_broken_pointers() {
    // Off a unit boundary.
    assert_eq!(filename_index(1000, 1007, 10), None);
    // Before the buffer.
    assert_eq!(filename_index(1000, 990, 10), None);
    // At or past the buffer's end.
    assert_eq!(filename_index(1000, 1020, 10), None);
    assert_eq!(filename_index(1000, 2000, 10), None);
}
