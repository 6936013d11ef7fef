use corvid::{Monitor, Profiler, Snap, StatsError};
use std::time::{Duration, Instant};

fn busy_wait(d: Duration) {
    let start = Instant::now();
    while start.elapsed() < d {}
}

#[test]
fn test_snap_record() {
    let mut snap = Snap::new();
    {
        let guard = snap.record();
        assert!(guard.elapsed() as f32 > 0.0);
        guard.release(&mut snap);
    }
    assert!(snap.duration > 0);
}

#[test]
fn test_monitor_record() {
    let mut monitor = Monitor::new("test");
    let guard = monitor.record();
    assert!(guard.is_some());
}

#[test]
fn test_monitor_latest() {
    let mut monitor = Monitor::new("test");
    {
        let guard = monitor.record();
        assert!(guard.is_some());
        monitor.release(guard.unwrap());
    }
    let last = monitor.latest();
    assert!(last.is_some());
}

#[test]
fn test_monitor_cull() {
    let mut monitor = Monitor::new("test");
    monitor.max_snapshots = 1;
    {
        let guard = monitor.record();
        assert!(guard.is_some());
        monitor.release(guard.unwrap());
    }
    monitor.new_frame();
    {
        let guard = monitor.record();
        assert!(guard.is_some());
        monitor.release(guard.unwrap());
    }
    monitor.cull(1);
    assert_eq!(monitor.snaps.len(), 1);
}

#[test]
fn test_monitor_iter() {
    let mut monitor = Monitor::new("test");
    {
        let guard = monitor.record();
        assert!(guard.is_some());
        monitor.release(guard.unwrap());
    }
    let iter = monitor.iter();
    assert!(iter.count() > 0);
}

#[test]
fn test_monitor_average() {
    let mut monitor = Monitor::new("test");
    let avg: u64;
    {
        let guard = monitor.record();
        assert!(guard.is_some());
        monitor.release(guard.unwrap());
    }
    monitor.new_frame();
    {
        let guard = monitor.record();
        assert!(guard.is_some());
        monitor.release(guard.unwrap());
    }
    {
        let mut iter = monitor.iter();
        let mut sum: u64 = 0;
        while let Some(snap) = iter.next() {
            sum += snap.duration;
        }
        avg = sum / 2;
    }
    assert_eq!(monitor.average(), Ok(avg));
}

#[test]
fn test_monitor_clear() {
    let mut monitor = Monitor::new("test");
    {
        let guard = monitor.record();
        assert!(guard.is_some());
        monitor.release(guard.unwrap());
    }
    monitor.clear();
    assert_eq!(monitor.len(), 0);
}

#[test]
fn test_profiler_monitor() {
    let mut profiler = Profiler::new();
    let monitor = profiler.monitor("test");
    assert_eq!(monitor.name, "test");
}

fn monitor_with(durations: &[u64]) -> Monitor {
    let mut monitor = Monitor::new("m");
    for d in durations {
        monitor.submit(true, *d);
    }
    monitor
}

#[test]
fn cycles_each_add_one_snapshot() {
    let mut monitor = Monitor::new("cycles");
    for n in 1..=5usize {
        let guard = monitor.record().expect("a new frame opens a recording");
        monitor.release(guard);
        monitor.new_frame();
        assert_eq!(monitor.len(), n);
    }
}

#[test]
fn average_is_the_mean_rounded_down() {
    let monitor = monitor_with(&[10, 20, 30, 41]);
    assert_eq!(monitor.average(), Ok(25));
    let monitor = monitor_with(&[7]);
    assert_eq!(monitor.average(), Ok(7));
}

#[test]
fn average_of_largest_durations_does_not_overflow() {
    let monitor = monitor_with(&[u64::MAX, u64::MAX, u64::MAX]);
    assert_eq!(monitor.average(), Ok(u64::MAX));
}

#[test]
fn percentile_extremes_are_min_and_max() {
    let monitor = monitor_with(&[30, 10, 50, 20, 40]);
    assert_eq!(monitor.percentile(0, 1), Ok(10));
    assert_eq!(monitor.percentile(1, 1), Ok(50));
    assert_eq!(monitor.percentile(7, 7), Ok(50));
}

#[test]
fn percentile_middle_uses_floor_index() {
    let monitor = monitor_with(&[5, 1, 3]);
    assert_eq!(monitor.percentile(1, 2), Ok(3));
    assert_eq!(monitor.percentile(1, 100), Ok(1));
    assert_eq!(monitor.percentile(2, 3), Ok(5));
}

#[test]
fn percentile_with_equal_durations() {
    let monitor = monitor_with(&[4, 4, 4, 4]);
    assert_eq!(monitor.percentile(1, 2), Ok(4));
}

#[test]
fn percentile_rejects_fractions_outside_unit_interval() {
    let monitor = monitor_with(&[1, 2]);
    assert_eq!(monitor.percentile(3, 2), Err(StatsError::InvalidArgument));
    assert_eq!(monitor.percentile(0, 0), Err(StatsError::InvalidArgument));
    let empty = Monitor::new("empty");
    assert_eq!(empty.percentile(2, 1), Err(StatsError::InvalidArgument));
}

#[test]
fn cull_keeps_the_oldest_snapshots() {
    let mut monitor = monitor_with(&[1, 2, 3, 4, 5]);
    monitor.cull(3);
    assert_eq!(monitor.snaps, vec![Snap { duration: 1 }, Snap { duration: 2 }, Snap { duration: 3 }]);
    monitor.cull(10);
    assert_eq!(monitor.len(), 3);
    monitor.cull(0);
    assert_eq!(monitor.len(), 0);
}

#[test]
fn record_is_refused_until_the_next_frame() {
    let mut monitor = Monitor::new("frames");
    let first = monitor.record();
    assert!(first.is_some());
    assert!(first.unwrap().opens_snap());
    assert!(monitor.record().is_none());
    monitor.new_frame();
    assert!(monitor.record().is_some());
}

#[test]
fn clear_leaves_no_data() {
    let mut monitor = monitor_with(&[3, 9]);
    monitor.clear();
    assert_eq!(monitor.len(), 0);
    assert_eq!(monitor.average(), Err(StatsError::NoData));
    assert_eq!(monitor.percentile(0, 1), Err(StatsError::NoData));
    assert_eq!(monitor.percentile(1, 1), Err(StatsError::NoData));
    assert!(monitor.latest().is_none());
}

#[test]
fn merge_adds_to_the_last_snapshot() {
    let mut monitor = monitor_with(&[5, 7]);
    monitor.submit(false, 3);
    assert_eq!(monitor.snaps, vec![Snap { duration: 5 }, Snap { duration: 10 }]);
    monitor.submit(false, u64::MAX);
    assert_eq!(monitor.latest(), Some(Snap { duration: u64::MAX }));
    let mut empty = Monitor::new("empty");
    empty.submit(false, 4);
    assert_eq!(empty.snaps, vec![Snap { duration: 4 }]);
}

#[test]
fn iterator_walks_a_copy_and_restarts() {
    let mut monitor = monitor_with(&[1, 2]);
    let mut iter = monitor.iter();
    monitor.submit(true, 3);
    assert_eq!(iter.next(), Some(Snap { duration: 1 }));
    assert_eq!(iter.next(), Some(Snap { duration: 2 }));
    assert_eq!(iter.next(), None);
    assert_eq!(iter.count(), 0);
    iter.restart();
    assert_eq!(iter.count(), 2);
}

#[test]
fn release_measures_the_elapsed_time() {
    let mut monitor = Monitor::new("timed");
    let guard = monitor.record().unwrap();
    busy_wait(Duration::from_millis(2));
    let elapsed = monitor.release(guard);
    assert!(elapsed >= 2_000_000);
    assert_eq!(monitor.latest(), Some(Snap { duration: elapsed }));
}

#[test]
fn render_scenario() {
    let mut profiler = Profiler::new();
    let monitor = profiler.monitor("render");
    let guard = monitor.record().unwrap();
    busy_wait(Duration::from_millis(10));
    monitor.release(guard);
    assert_eq!(monitor.len(), 1);
    let latest = monitor.latest().unwrap().duration as f64 / 1e9;
    assert!((latest - 0.010).abs() <= 0.005);
    monitor.new_frame();
    let guard = monitor.record().unwrap();
    busy_wait(Duration::from_millis(20));
    monitor.release(guard);
    assert_eq!(monitor.len(), 2);
    let average = monitor.average().unwrap() as f64 / 1e9;
    assert!((average - 0.015).abs() <= 0.005);
}

#[test]
fn profiler_reuses_monitors_and_clears_all() {
    let mut profiler = Profiler::new();
    profiler.monitor("a").submit(true, 1);
    profiler.monitor("b").submit(true, 2);
    profiler.monitor("a").submit(true, 3);
    assert_eq!(profiler.monitors.len(), 2);
    assert_eq!(profiler.monitor("a").len(), 2);
    profiler.clear();
    assert_eq!(profiler.monitors.len(), 2);
    assert_eq!(profiler.monitor("a").len(), 0);
    assert_eq!(profiler.monitor("b").len(), 0);
    assert_eq!(profiler.monitor("b").name, "b");
}

#[test]
fn snap_describes_itself_in_milliseconds() {
    assert_eq!(Snap { duration: 12_345_678 }.describe(), "Snap: 12.35ms");
    assert_eq!(Snap { duration: 0 }.describe(), "Snap: 0.00ms");
    assert_eq!(Snap { duration: 1_005_000 }.describe(), "Snap: 1.01ms");
    assert_eq!(Snap { duration: 1_004_999 }.describe(), "Snap: 1.00ms");
}

#[test]
fn monitor_describes_its_statistics() {
    let monitor = monitor_with(&[1_000_000, 3_000_000]);
    assert_eq!(monitor.describe(), "Monitor: (2 snaps, avg: 2.00ms, 1%: 1.00ms)");
    let empty = Monitor::new("empty");
    assert_eq!(empty.describe(), "Monitor: (0 snaps, avg: n/a, 1%: n/a)");
}

#[test]
fn elapsed_nanoseconds_saturate() {
    assert_eq!(corvid::clock::saturating_nanos(u128::MAX), u64::MAX);
    assert_eq!(corvid::clock::saturating_nanos(1_500), 1_500);
    assert_eq!(corvid::clock::saturating_nanos(u64::MAX as u128 + 1), u64::MAX);
}

#[test]
fn measure_records_once_per_frame() {
    let mut monitor = Monitor::new("measured");
    let (value, elapsed) = monitor.measure(|| {
        busy_wait(Duration::from_millis(1));
        7
    });
    assert_eq!(value, 7);
    let elapsed = elapsed.expect("the first region of a frame is recorded");
    assert!(elapsed >= 1_000_000);
    assert_eq!(monitor.latest(), Some(Snap { duration: elapsed }));
    let (value, elapsed) = monitor.measure(|| 8);
    assert_eq!(value, 8);
    assert_eq!(elapsed, None);
    assert_eq!(monitor.len(), 1);
    monitor.new_frame();
    let (_, elapsed) = monitor.measure(|| ());
    assert!(elapsed.is_some());
    assert_eq!(monitor.len(), 2);
}
