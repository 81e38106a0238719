use slap_your_openclaw::detector::events::EventLog;
use slap_your_openclaw::detector::ring::RingFloat;
use slap_your_openclaw::detector::{
    classify, dedup_sources, detector_event_log, kurtosis_due, peak_due, DetectionSource, EventKind, Severity,
    StaLtaTriggers,
};

#[test]
fn test_severity_ordering() {
    assert!(Severity::ChocMajeur > Severity::ChocMoyen);
    assert!(Severity::ChocMoyen > Severity::MicroChoc);
    assert!(Severity::MicroChoc > Severity::Vibration);
    assert!(Severity::Vibration > Severity::VibLegere);
    assert!(Severity::VibLegere > Severity::MicroVib);
}

#[test]
fn test_severity_level_numbers() {
    assert_eq!(Severity::MicroVib.level(), 1);
    assert_eq!(Severity::VibLegere.level(), 2);
    assert_eq!(Severity::Vibration.level(), 3);
    assert_eq!(Severity::MicroChoc.level(), 4);
    assert_eq!(Severity::ChocMoyen.level(), 5);
    assert_eq!(Severity::ChocMajeur.level(), 6);
}

#[test]
fn test_severity_as_str() {
    assert_eq!(Severity::ChocMajeur.as_str(), "CHOC_MAJEUR");
    assert_eq!(Severity::MicroVib.as_str(), "MICRO_VIB");
}

#[test]
fn severity_names_cover_every_level() {
    let all = [
        Severity::MicroVib,
        Severity::VibLegere,
        Severity::Vibration,
        Severity::MicroChoc,
        Severity::ChocMoyen,
        Severity::ChocMajeur,
    ];
    let names: Vec<&str> = all.iter().map(|s| s.as_str()).collect();
    assert_eq!(
        names,
        vec!["MICRO_VIB", "VIB_LEGERE", "VIBRATION", "MICRO_CHOC", "CHOC_MOYEN", "CHOC_MAJEUR"]
    );
    for w in all.windows(2) {
        assert!(w[0] < w[1]);
        assert!(w[0].level() < w[1].level());
    }
}

#[test]
fn test_ring_push_and_len() {
    let mut r = RingFloat::new(5);
    assert_eq!(r.len(), 0);
    r.push(1.0);
    r.push(2.0);
    r.push(3.0);
    assert_eq!(r.len(), 3);
}

#[test]
fn test_ring_slice_not_full() {
    let mut r = RingFloat::new(5);
    r.push(1.0);
    r.push(2.0);
    r.push(3.0);
    assert_eq!(r.slice(), vec![1.0, 2.0, 3.0]);
}

#[test]
fn test_ring_wraps_around() {
    let mut r = RingFloat::new(3);
    r.push(1.0);
    r.push(2.0);
    r.push(3.0);
    assert_eq!(r.len(), 3);
    r.push(4.0);
    assert_eq!(r.len(), 3);
    // Should return in insertion order: 2.0, 3.0, 4.0
    assert_eq!(r.slice(), vec![2.0, 3.0, 4.0]);
}

#[test]
fn test_ring_full_cycle() {
    let mut r = RingFloat::new(3);
    for i in 0..10 {
        r.push(i as f64);
    }
    assert_eq!(r.len(), 3);
    assert_eq!(r.slice(), vec![7.0, 8.0, 9.0]);
}

#[test]
fn ring_keeps_latest_capacity_values() {
    let mut r = RingFloat::new(4);
    for i in 0..11u32 {
        r.push(i);
        let n = (i + 1).min(4);
        let expected: Vec<u32> = (i + 1 - n..=i).collect();
        assert_eq!(r.slice(), expected);
        assert_eq!(r.len(), n as usize);
    }
}

#[test]
fn ring_of_one_holds_last_value() {
    let mut r = RingFloat::new(1);
    r.push(5.5);
    r.push(6.5);
    assert_eq!(r.slice(), vec![6.5]);
}

#[test]
fn event_kind_follows_activation_time() {
    assert_eq!(EventKind::from_activation(0), EventKind::Slap);
    assert_eq!(EventKind::from_activation(9), EventKind::Slap);
    assert_eq!(EventKind::from_activation(10), EventKind::Unknown);
    assert_eq!(EventKind::from_activation(20), EventKind::Unknown);
    assert_eq!(EventKind::from_activation(21), EventKind::Shake);
    assert_eq!(EventKind::Slap.as_str(), "SLAP");
    assert_eq!(EventKind::Shake.as_str(), "SHAKE");
    assert_eq!(EventKind::Unknown.as_str(), "UNKNOWN");
}

#[test]
fn sources_are_deduplicated_in_report_order() {
    let s = vec![
        DetectionSource::Cusum,
        DetectionSource::StaLta,
        DetectionSource::Cusum,
        DetectionSource::Peak,
        DetectionSource::StaLta,
    ];
    assert_eq!(
        dedup_sources(&s),
        vec![DetectionSource::Cusum, DetectionSource::StaLta, DetectionSource::Peak]
    );
    let names: Vec<&str> = dedup_sources(&s).iter().map(|d| d.as_str()).collect();
    assert_eq!(names, vec!["CUSUM", "STA/LTA", "PEAK"]);
    assert_eq!(DetectionSource::Kurtosis.as_str(), "KURTOSIS");
}

#[test]
fn classification_table() {
    let all = vec![DetectionSource::StaLta, DetectionSource::Cusum, DetectionSource::Kurtosis, DetectionSource::Peak, DetectionSource::StaLta];
    assert_eq!(classify(&all, 5).0, Severity::ChocMajeur);
    assert_eq!(classify(&all, 4).0, Severity::ChocMoyen);
    assert_eq!(classify(&all, 3).0, Severity::MicroChoc);
    assert_eq!(classify(&all, 2).0, Severity::Vibration);
    assert_eq!(classify(&all, 1).0, Severity::VibLegere);
    assert_eq!(classify(&all, 0).0, Severity::MicroVib);
    assert_eq!(classify(&all, 5).1.len(), 4);
    let three = vec![DetectionSource::StaLta, DetectionSource::Cusum, DetectionSource::Peak];
    assert_eq!(classify(&three, 5).0, Severity::ChocMoyen);
    let kurt = vec![DetectionSource::Kurtosis];
    assert_eq!(classify(&kurt, 5).0, Severity::VibLegere);
    let peak = vec![DetectionSource::Peak];
    assert_eq!(classify(&peak, 3).0, Severity::MicroChoc);
    assert_eq!(classify(&peak, 2).0, Severity::VibLegere);
    let cusum = vec![DetectionSource::Cusum, DetectionSource::Cusum];
    assert_eq!(classify(&cusum, 2).0, Severity::Vibration);
    assert_eq!(classify(&cusum, 2).1, vec![DetectionSource::Cusum]);
}

#[test]
fn analysis_windows_fire_on_schedule() {
    assert!(kurtosis_due(10, 50));
    assert!(!kurtosis_due(9, 100));
    assert!(!kurtosis_due(10, 49));
    assert!(peak_due(50, 20));
    assert!(!peak_due(50, 21));
    assert!(!peak_due(49, 30));
}

#[test]
fn event_log_keeps_newest_and_drains() {
    let mut log = EventLog::new(3);
    for i in 0..5 {
        log.push(i);
    }
    assert_eq!(log.len(), 3);
    assert_eq!(log.items(), &vec![2, 3, 4]);
    assert_eq!(log.take_latest(), Some(4));
    assert_eq!(log.drain(), vec![2, 3]);
    assert_eq!(log.take_latest(), None);
    assert!(log.drain().is_empty());
}

#[test]
fn event_log_latest_is_last_pushed() {
    let mut log = EventLog::new(500);
    for i in 0..600u32 {
        log.push(i);
        assert!(log.len() <= 500);
    }
    assert_eq!(log.take_latest(), Some(599));
    assert_eq!(log.items()[0], 100);
}

#[test]
fn sta_lta_triggers_hysteresis() {
    let mut t = StaLtaTriggers::new();
    assert_eq!(t.update([true, false, true], [false, false, false]), 2);
    assert_eq!(t.active, [true, false, true]);
    assert_eq!(t.run, 1);
    // Still above: no new report while on.
    assert_eq!(t.update([true, true, false], [false, false, false]), 1);
    assert_eq!(t.active, [true, true, true]);
    assert_eq!(t.run, 2);
    // Between thresholds: stays on.
    assert_eq!(t.update([false, false, false], [false, true, false]), 0);
    assert_eq!(t.active, [true, false, true]);
    assert_eq!(t.run, 3);
    assert_eq!(EventKind::from_activation(t.run), EventKind::Slap);
    assert_eq!(t.update([false, false, false], [true, true, true]), 0);
    assert_eq!(t.active, [false, false, false]);
    assert_eq!(t.run, 0);
    for _ in 0..25 {
        t.update([true, false, false], [false, false, false]);
    }
    assert_eq!(t.run, 25);
    assert_eq!(EventKind::from_activation(t.run), EventKind::Shake);
}

#[test]
fn severity_never_drops_with_amplitude_or_detectors() {
    let all = [
        DetectionSource::StaLta,
        DetectionSource::Cusum,
        DetectionSource::Kurtosis,
        DetectionSource::Peak,
    ];
    for mask in 0u32..16 {
        let set: Vec<DetectionSource> =
            (0..4).filter(|i| mask & (1 << i) != 0).map(|i| all[i]).collect();
        for band in 0u8..6 {
            let here = classify(&set, band).0;
            if band < 5 {
                assert!(here.level() <= classify(&set, band + 1).0.level());
            }
            for extra in 0..4 {
                let mut bigger = set.clone();
                bigger.push(all[extra]);
                assert!(here.level() <= classify(&bigger, band).0.level());
            }
        }
    }
}

#[test]
fn detector_log_keeps_newest_five_hundred() {
    let mut log = detector_event_log();
    for i in 0..700u32 {
        log.push(i);
    }
    assert_eq!(log.len(), 500);
    assert_eq!(log.items()[0], 200);
    assert_eq!(log.take_latest(), Some(699));
}
