use pcap_replay::schedule::Drift;
use pcap_replay::schedule::ReplayScheduler;
use pcap_replay::Args;
use pcap_replay::DEFAULT_PORT;

#[test]
fn timestamp_combines_seconds_and_microseconds() {
    assert_eq!(ReplayScheduler::timestamp_us(3, 500), 3_000_500);
    assert_eq!(ReplayScheduler::timestamp_us(0, 0), 0);
    assert_eq!(
        ReplayScheduler::timestamp_us(u32::MAX, u32::MAX),
        4_294_967_295 + 4_294_967_295 * 1_000_000
    );
}

#[test]
fn first_frame_is_anchored_on_schedule() {
    let mut s = ReplayScheduler::new();
    // whatever the first frame's timestamp and however late it is seen,
    // its wait is exactly zero
    let out = s.process_frame(1_000, 250, 7_777_777);
    assert_eq!(out.wait_us, 0);
    assert_eq!(out.sleep_us, 0);
    assert_eq!(out.report, None);
}

#[test]
fn ahead_of_schedule_sleeps_the_gap() {
    let mut s = ReplayScheduler::new();
    s.process_frame(10, 0, 0);
    // second frame captured 2 s after the first, processed only 0.5 s in
    let out = s.process_frame(12, 0, 500_000);
    assert_eq!(out.wait_us, 1_500_000);
    assert_eq!(out.sleep_us, 1_500_000);
    // frame index 1 is not a reporting frame
    assert_eq!(out.report, None);
}

#[test]
fn behind_schedule_sends_at_once() {
    let mut s = ReplayScheduler::new();
    s.process_frame(10, 0, 0);
    // second frame captured 1 s after the first, processed 3 s in
    let out = s.process_frame(11, 0, 3_000_000);
    assert_eq!(out.wait_us, -2_000_000);
    assert_eq!(out.sleep_us, 0);
    assert_eq!(out.report, None);
}

#[test]
fn drift_reports_come_every_thousand_frames() {
    let mut s = ReplayScheduler::new();
    let mut elapsed: i64 = 0;
    for i in 0..1000u32 {
        // all frames share one capture timestamp; the clock advances
        let out = s.process_frame(5, 0, elapsed);
        if i == 0 {
            assert_eq!(out.report, None); // anchor frame: wait is zero
        } else {
            assert_eq!(out.report, None); // off-interval frames never report
        }
        elapsed += 10;
    }
    // frame index 1000 is a reporting frame and is behind schedule
    let late = s.process_frame(5, 0, elapsed);
    assert!(late.wait_us < 0);
    assert_eq!(late.report, Some(Drift::Late));

    // a fresh pass whose 1000th frame is ahead of schedule reports Early
    let mut s2 = ReplayScheduler::new();
    for _ in 0..1000u32 {
        s2.process_frame(5, 0, 0);
    }
    let early = s2.process_frame(6, 0, 0);
    assert_eq!(early.wait_us, 1_000_000);
    assert_eq!(early.report, Some(Drift::Early));
}

#[test]
fn zero_delta_frames_are_never_paced_and_never_dropped() {
    let mut s = ReplayScheduler::new();
    let mut elapsed: i64 = 123;
    for _ in 0..50u32 {
        let out = s.process_frame(42, 77, elapsed);
        assert!(out.wait_us <= 0);
        assert_eq!(out.sleep_us, 0);
        elapsed += 991; // the clock only moves forward
    }
    assert_eq!(s.transmitted(), 50);
}

#[test]
fn monotonic_send_moments_for_ordered_timestamps() {
    let mut s = ReplayScheduler::new();
    let e1: i64 = 0;
    let out1 = s.process_frame(10, 0, e1);
    let send1 = e1 + out1.sleep_us as i64;
    // the shell fetches frame 2 only after frame 1 went out
    let e2: i64 = send1 + 300;
    let out2 = s.process_frame(10, 900, e2);
    let send2 = e2 + out2.sleep_us as i64;
    assert!(send2 >= send1);
}

#[test]
fn repeat_pass_is_independent_of_the_first() {
    let frames = [(100u32, 0u32), (101, 0), (101, 500_000)];

    let mut once = ReplayScheduler::new();
    once.start_pass();
    let first_waits: Vec<i64> =
        frames.iter().map(|&(s, u)| once.process_frame(s, u, 10).wait_us).collect();
    let first_count = once.transmitted();

    // same capture replayed again in repeat mode, after a reset
    once.start_pass();
    assert_eq!(once.transmitted(), 0);
    let second_waits: Vec<i64> =
        frames.iter().map(|&(s, u)| once.process_frame(s, u, 10).wait_us).collect();

    // an independent single pass over the same capture
    let mut fresh = ReplayScheduler::new();
    fresh.start_pass();
    let fresh_waits: Vec<i64> =
        frames.iter().map(|&(s, u)| fresh.process_frame(s, u, 10).wait_us).collect();

    assert_eq!(second_waits, fresh_waits);
    assert_eq!(first_waits, fresh_waits);
    assert_eq!(once.transmitted(), first_count);
    assert_eq!(once.transmitted(), fresh.transmitted());
    assert_eq!(first_count + once.transmitted(), 2 * fresh.transmitted());
}

#[test]
fn effective_port_defaults_when_unset() {
    let defaulted = Args { input: String::from("capture.pcap"), port: None, repeat: false };
    assert_eq!(defaulted.effective_port(), DEFAULT_PORT);
    let chosen = Args { input: String::from("capture.pcap"), port: Some(9999), repeat: true };
    assert_eq!(chosen.effective_port(), 9999);
}
