use slap_your_openclaw::detector::{EventKind, Severity};
use slap_your_openclaw::mcp::server::{select_recent, set_config_reply, wait_limits, SetConfigError};
use std::sync::atomic::AtomicBool;
use std::sync::Arc;
use slap_your_openclaw::sensor::iokit::{SensorRing, decode_entry, decode_header, entry_offset, ReadWindow};
use slap_your_openclaw::shared::{
    has_peak_source, is_armed, phase_for, publish_verdict, AmplitudeChecks, DetectorPhase,
    ProgressDisplay, PublishLimits, RecentEvents, Verdict,
};

#[test]
fn phases_follow_sample_count() {
    assert_eq!(phase_for(0), DetectorPhase::Warmup);
    assert_eq!(phase_for(199), DetectorPhase::Warmup);
    assert_eq!(phase_for(200), DetectorPhase::Arming);
    assert_eq!(phase_for(299), DetectorPhase::Arming);
    assert_eq!(phase_for(300), DetectorPhase::Ready);
    assert!(!is_armed(299));
    assert!(is_armed(300));
}

#[test]
fn progress_lines() {
    let mut d = ProgressDisplay::new();
    assert_eq!(
        d.update(0).unwrap(),
        "\r\x1b[2Kwarmup: [-------------------------] 2.0s remaining"
    );
    assert_eq!(d.update(5), None);
    assert_eq!(
        d.update(110).unwrap(),
        "\r\x1b[2Kwarmup: [#############------------] 0.9s remaining"
    );
    assert_eq!(
        d.update(200).unwrap(),
        "\r\x1b[2Karming: [-------------------------] 1.0s remaining"
    );
    assert_eq!(
        d.update(299).unwrap(),
        "\r\x1b[2Karming: [######################---] 0.1s remaining"
    );
    assert_eq!(
        d.update(300).unwrap(),
        "\r\x1b[2Kdetector: [#########################] ready\n"
    );
    assert_eq!(d.update(301), None);
}

fn amp(typing: bool, slap: bool, shake: bool) -> AmplitudeChecks {
    AmplitudeChecks { below_typing_floor: typing, below_min_slap: slap, below_min_shake: shake }
}

#[test]
fn publish_guards() {
    let peak = vec!["STA/LTA".to_string(), "PEAK".to_string()];
    let no_peak = vec!["STA/LTA".to_string()];
    let ok = amp(false, false, false);
    let v = |armed: bool, kind, sev, src: &Vec<String>, a, since| {
        publish_verdict(if armed { 301 } else { 300 }, kind, sev, src, a, 4, since, 500)
    };
    assert_eq!(v(false, EventKind::Slap, Severity::ChocMajeur, &peak, ok, 1000), Verdict::NotArmed);
    for sample in [1usize, 150, 200, 250, 300] {
        assert_eq!(
            publish_verdict(sample, EventKind::Slap, Severity::ChocMajeur, &peak, ok, 1, 10_000, 0),
            Verdict::NotArmed
        );
    }
    assert_eq!(
        publish_verdict(301, EventKind::Slap, Severity::ChocMajeur, &peak, ok, 1, 10_000, 0),
        Verdict::Publish
    );
    assert_eq!(
        v(true, EventKind::Unknown, Severity::ChocMajeur, &peak, ok, 1000),
        Verdict::NotSlapOrShake
    );
    assert_eq!(
        v(true, EventKind::Slap, Severity::Vibration, &peak, ok, 1000),
        Verdict::BelowMinLevel
    );
    assert_eq!(
        v(true, EventKind::Slap, Severity::MicroChoc, &no_peak, amp(true, false, false), 1000),
        Verdict::TypingGuard
    );
    assert_eq!(
        v(true, EventKind::Slap, Severity::MicroChoc, &peak, amp(true, false, false), 1000),
        Verdict::Publish
    );
    assert_eq!(
        v(true, EventKind::Slap, Severity::MicroChoc, &peak, amp(false, true, false), 1000),
        Verdict::BelowMinAmplitude
    );
    assert_eq!(
        v(true, EventKind::Shake, Severity::MicroChoc, &no_peak, amp(true, true, false), 1000),
        Verdict::Publish
    );
    assert_eq!(
        v(true, EventKind::Shake, Severity::MicroChoc, &no_peak, amp(false, false, true), 1000),
        Verdict::BelowMinAmplitude
    );
    assert_eq!(
        v(true, EventKind::Shake, Severity::MicroChoc, &no_peak, ok, 499),
        Verdict::CoolingDown
    );
    assert_eq!(v(true, EventKind::Shake, Severity::MicroChoc, &no_peak, ok, 500), Verdict::Publish);
    assert!(has_peak_source(&peak));
    assert!(!has_peak_source(&no_peak));
}

#[test]
fn recent_event_selection() {
    let levels = vec![4u8, 1, 5, 6, 3, 4];
    assert_eq!(select_recent(&levels, None, None), vec![5, 4, 3, 2, 1, 0]);
    assert_eq!(select_recent(&levels, Some(4), None), vec![5, 3, 2, 0]);
    assert_eq!(select_recent(&levels, Some(4), Some(2)), vec![5, 3]);
    assert_eq!(select_recent(&levels, Some(7), None), Vec::<usize>::new());
    assert_eq!(select_recent(&levels, None, Some(0)), Vec::<usize>::new());
    let many = vec![1u8; 50];
    assert_eq!(select_recent(&many, None, None).len(), 20);
    assert_eq!(select_recent(&many, None, None)[0], 49);
}

#[test]
fn wait_limits_defaults_and_cap() {
    assert_eq!(wait_limits(None, None), (30, 4));
    assert_eq!(wait_limits(Some(500), Some(2)), (120, 2));
    assert_eq!(wait_limits(Some(5), None), (5, 4));
}

#[test]
fn config_update_replies() {
    assert_eq!(set_config_reply(None, None, None, None), Ok("No changes specified".to_string()));
    assert_eq!(
        set_config_reply(Some(5), Some(1000), Some("0.02"), None),
        Ok("Updated: min_level=5, cooldown_ms=1000, min_slap_amp=0.02".to_string())
    );
    assert_eq!(
        set_config_reply(None, None, None, Some("0.05")),
        Ok("Updated: min_shake_amp=0.05".to_string())
    );
    assert_eq!(
        set_config_reply(Some(7), Some(1000), None, None),
        Err(SetConfigError::MinLevelOutOfRange)
    );
    assert_eq!(set_config_reply(Some(0), None, None, None), Err(SetConfigError::MinLevelOutOfRange));
    assert_eq!(SetConfigError::MinLevelOutOfRange.message(), "min_level must be 1-6");
}

#[test]
fn ring_header_and_entries() {
    let mut header = Vec::new();
    header.extend_from_slice(&7u32.to_le_bytes());
    header.extend_from_slice(&123456789u64.to_le_bytes());
    assert_eq!(decode_header(&header), (7, 123456789));
    let mut entry = Vec::new();
    entry.extend_from_slice(&(-65536i32).to_le_bytes());
    entry.extend_from_slice(&32768i32.to_le_bytes());
    entry.extend_from_slice(&i32::MIN.to_le_bytes());
    assert_eq!(decode_entry(&entry), (-65536, 32768, i32::MIN));
    assert_eq!(entry_offset(0, 0), 16);
    assert_eq!(entry_offset(7999, 1), 16);
    assert_eq!(entry_offset(7998, 1), 16 + 7999 * 12);
}

#[test]
fn sensor_windows() {
    let flag = Arc::new(AtomicBool::new(true));
    let mut r = SensorRing::new(flag.clone());
    assert!(r.is_running());
    assert_eq!(r.take_window(0, 0), None);
    assert_eq!(r.take_window(5, 5), Some(ReadWindow { start: 0, count: 5 }));
    assert_eq!(r.take_window(5, 5), None);
    assert_eq!(r.take_window(8, 2), Some(ReadWindow { start: 7999, count: 3 }));
    assert_eq!(r.take_window(20008, 10), Some(ReadWindow { start: 10, count: 8000 }));
    assert_eq!(r.take_window(3, 3), None);
    flag.store(false, std::sync::atomic::Ordering::Relaxed);
    assert!(!r.is_running());
}

#[test]
fn recent_history_keeps_newest_hundred() {
    let mut r = RecentEvents::new();
    assert_eq!(r.len(), 0);
    for i in 0..250u32 {
        r.record(i);
        let n = (i + 1).min(100);
        assert_eq!(r.len(), n as usize);
        assert_eq!(*r.items().last().unwrap(), i);
        assert_eq!(r.items()[0], i + 1 - n);
    }
}

#[test]
fn publish_limits_update() {
    let mut l = PublishLimits { cooldown_ms: 500, min_level: 4 };
    l.apply(None, None);
    assert_eq!(l, PublishLimits { cooldown_ms: 500, min_level: 4 });
    l.apply(Some(5), None);
    assert_eq!(l, PublishLimits { cooldown_ms: 500, min_level: 5 });
    l.apply(None, Some(3000));
    assert_eq!(l, PublishLimits { cooldown_ms: 3000, min_level: 5 });
}
