use model_viewer::scheduler::{FrameReport, FrameScheduler, TickAction, FRAMES_PER_REPORT};

const INTERVAL_60FPS_NS: u64 = 16_666_666;

#[test]
fn tick_before_the_interval_waits_until_it_elapses() {
    let mut s = FrameScheduler::new(INTERVAL_60FPS_NS, 1_000);
    let a = s.tick(1_000 + 5_000_000);
    assert_eq!(
        a,
        TickAction::WaitUntil { deadline_ns: 1_000 + INTERVAL_60FPS_NS }
    );
    assert_eq!(s.last_update_ns, 1_000);
}

#[test]
fn tick_at_the_interval_requests_a_redraw_and_resets_the_reference() {
    let mut s = FrameScheduler::new(INTERVAL_60FPS_NS, 0);
    let a = s.tick(INTERVAL_60FPS_NS);
    assert_eq!(a, TickAction::RequestRedraw);
    assert_eq!(s.last_update_ns, INTERVAL_60FPS_NS);
}

#[test]
fn no_two_redraws_within_one_interval() {
    let mut s = FrameScheduler::new(INTERVAL_60FPS_NS, 0);
    let a = s.tick(INTERVAL_60FPS_NS + 3);
    assert_eq!(a, TickAction::RequestRedraw);
    let t1 = s.last_update_ns;
    let a2 = s.tick(t1 + INTERVAL_60FPS_NS - 1);
    assert_eq!(
        a2,
        TickAction::WaitUntil { deadline_ns: t1 + INTERVAL_60FPS_NS }
    );
    let a3 = s.tick(t1 + INTERVAL_60FPS_NS);
    assert_eq!(a3, TickAction::RequestRedraw);
    assert!(s.last_update_ns - t1 >= INTERVAL_60FPS_NS);
}

#[test]
fn first_99_redraws_report_nothing() {
    let mut s = FrameScheduler::new(INTERVAL_60FPS_NS, 0);
    let mut now: u64 = 0;
    for _ in 0..99 {
        now += 16_000_000;
        assert_eq!(s.on_redraw(now), None);
    }
    assert_eq!(s.frame_count, 99);
    assert_eq!(s.accum_ns, 99 * 16_000_000);
}

#[test]
fn hundredth_redraw_reports_the_average_and_resets() {
    // 100 simulated redraws, each taking exactly 16 ms of wall time, at a
    // 60 frames-per-second target: the reported average is 16.0 ms, and
    // both counter and accumulator are zero afterwards.
    let mut s = FrameScheduler::new(INTERVAL_60FPS_NS, 0);
    let mut now: u64 = 0;
    let mut report: Option<FrameReport> = None;
    for _ in 0..100 {
        now += 16_000_000;
        report = s.on_redraw(now);
    }
    let r = report.expect("the 100th redraw must report");
    assert_eq!(r.total_ns, 1_600_000_000);
    assert_eq!(r.avg_ns, 16_000_000);
    let avg_ms = r.avg_ns as f64 / 1_000_000.0;
    assert_eq!(avg_ms, 16.0);
    assert_eq!(s.frame_count, 0);
    assert_eq!(s.accum_ns, 0);
}

#[test]
fn average_is_total_divided_by_100() {
    let mut s = FrameScheduler::new(1, 0);
    let mut now: u64 = 0;
    let mut report: Option<FrameReport> = None;
    for i in 0..u64::from(FRAMES_PER_REPORT) {
        // uneven frame times: 1 ms, 2 ms, ... 100 ms
        now += (i + 1) * 1_000_000;
        report = s.on_redraw(now);
    }
    let r = report.expect("the 100th redraw must report");
    // 1 + 2 + ... + 100 = 5050 ms in all
    assert_eq!(r.total_ns, 5_050_000_000);
    assert_eq!(r.avg_ns, r.total_ns / 100);
    assert_eq!(r.avg_ns, 50_500_000);
}

#[test]
fn counting_restarts_cleanly_after_a_report() {
    let mut s = FrameScheduler::new(1, 0);
    let mut now: u64 = 0;
    for _ in 0..100 {
        now += 16_000_000;
        s.on_redraw(now);
    }
    assert_eq!(s.frame_count, 0);
    assert_eq!(s.accum_ns, 0);
    now += 4_000_000;
    assert_eq!(s.on_redraw(now), None);
    assert_eq!(s.frame_count, 1);
    assert_eq!(s.accum_ns, 4_000_000);
}
