use slap_your_openclaw::config::StandaloneArgs;
use slap_your_openclaw::detector::{EventKind, Severity};
use slap_your_openclaw::mqtt::SlapPayload;
use slap_your_openclaw::openclaw::{
    agent_command, agent_message, coalesce_queued, coalesce_step, new_agent_message, Settings,
};
use slap_your_openclaw::standalone::local_event_line;
use slap_your_openclaw::text::decimal_string;

fn is_uuid_v4(s: &str) -> bool {
    let b = s.as_bytes();
    b.len() == 36
        && b.iter().enumerate().all(|(i, c)| {
            if [8, 13, 18, 23].contains(&i) {
                *c == b'-'
            } else {
                c.is_ascii_digit() || (b'a'..=b'f').contains(c)
            }
        })
        && b[14] == b'4'
        && b"89ab".contains(&b[19])
}

#[test]
fn test_slap_payload_format() {
    let amplitude: f64 = 0.0234;
    let payload = SlapPayload::from_event(Severity::ChocMoyen, &format!("{:.4}", amplitude));
    assert_eq!(payload.sender_id, "slap-detector");
    assert!(payload.text.contains("Level 5"));
    assert!(payload.text.contains("CHOC_MOYEN"));
    assert!(payload.text.contains("0.0234g"));
    assert!(payload.correlation_id.starts_with("slap-"));
}

#[test]
fn slap_payload_exact_text() {
    let payload = SlapPayload::from_event(Severity::MicroChoc, "0.0080");
    assert_eq!(payload.text, "SLAP DETECTED! Level 4 (MICRO_CHOC) - amplitude: 0.0080g");
    assert_eq!(payload.correlation_id.len(), 41);
    assert!(is_uuid_v4(&payload.correlation_id[5..]));
    let other = SlapPayload::from_event(Severity::MicroChoc, "0.0080");
    assert_ne!(payload.correlation_id, other.correlation_id);
}

#[test]
fn decimal_text_matches_display() {
    for n in [0u64, 7, 10, 99, 100, 12345, u64::MAX] {
        assert_eq!(decimal_string(n), n.to_string());
    }
}

#[test]
fn local_line_format() {
    assert_eq!(
        local_event_line(EventKind::Slap, Severity::ChocMoyen),
        "{\"senderId\":\"slap\",\"text\":\"SLAP #5 CHOC_MOYEN\",\"correlationId\":\"\"}"
    );
    assert_eq!(
        local_event_line(EventKind::Shake, Severity::MicroChoc),
        "{\"senderId\":\"slap\",\"text\":\"SHAKE #4 MICRO_CHOC\",\"correlationId\":\"\"}"
    );
}

#[test]
fn agent_message_format() {
    assert_eq!(
        agent_message(EventKind::Slap, Severity::ChocMoyen, "0.04231", "slap-abc"),
        "SLAP_EVENT level=5 severity=CHOC_MOYEN amplitude=0.04231g correlationId=slap-abc"
    );
    let m = new_agent_message(EventKind::Shake, Severity::MicroChoc, "0.01500");
    let prefix = "SHAKE_EVENT level=4 severity=MICRO_CHOC amplitude=0.01500g correlationId=slap-";
    assert!(m.starts_with(prefix));
    assert!(is_uuid_v4(&m[prefix.len()..]));
}

fn settings(run_as: Option<&str>, deliver: bool) -> Settings {
    let mut args = StandaloneArgs::default();
    args.openclaw_agent = "ops".into();
    args.openclaw_timeout_sec = 8;
    args.openclaw_deliver = deliver;
    args.openclaw_reply_channel = Some("discord".into());
    args.openclaw_reply_to = Some("channel:123".into());
    args.openclaw_run_as = run_as.map(|s| s.to_string());
    Settings::from_config(&args, Some("fallback".into()))
}

#[test]
fn standalone_defaults() {
    let d = StandaloneArgs::default();
    assert!(!d.openclaw);
    assert_eq!(d.openclaw_agent, "main");
    assert_eq!(d.openclaw_thinking, "off");
    assert_eq!(d.openclaw_session_id, "slap-detector");
    assert_eq!(d.openclaw_timeout_sec, 20);
    assert!(!d.openclaw_deliver);
    assert!(d.openclaw_reply_channel.is_none());
    assert!(d.openclaw_reply_to.is_none());
    assert!(d.openclaw_run_as.is_none());
    assert_eq!(d.openclaw_bin, "openclaw");
    assert!(!d.local);
}

#[test]
fn settings_fall_back_to_sudo_user() {
    assert_eq!(settings(None, false).run_as_user.as_deref(), Some("fallback"));
    assert_eq!(settings(Some("niskan516"), false).run_as_user.as_deref(), Some("niskan516"));
    let s = Settings::from_config(&StandaloneArgs::default(), None);
    assert!(s.run_as_user.is_none());
    assert_eq!(s.agent, "main");
    assert_eq!(s.thinking, "off");
    assert_eq!(s.openclaw_bin, "openclaw");
}

#[test]
fn agent_command_under_sudo_with_delivery() {
    let c = agent_command(&settings(Some("niskan516"), true), "MSG");
    assert_eq!(c.program, "sudo");
    assert_eq!(
        c.args,
        vec![
            "-u", "niskan516", "openclaw", "agent", "--agent", "ops", "--session-id",
            "slap-detector", "--thinking", "off", "--timeout", "8", "--message", "MSG",
            "--deliver", "--reply-channel", "discord", "--reply-to", "channel:123",
        ]
    );
}

#[test]
fn agent_command_direct_without_delivery() {
    let s = Settings::from_config(&StandaloneArgs::default(), None);
    let c = agent_command(&s, "hello");
    assert_eq!(c.program, "openclaw");
    assert_eq!(
        c.args,
        vec![
            "agent", "--agent", "main", "--session-id", "slap-detector", "--thinking", "off",
            "--timeout", "20", "--message", "hello",
        ]
    );
}

#[test]
fn burst_is_coalesced_to_newest() {
    let (tx, mut rx) = tokio::sync::mpsc::unbounded_channel::<u32>();
    let (v, n, _) = coalesce_queued(&mut rx, 1);
    assert_eq!((v, n), (1, 0));
    tx.send(2).unwrap();
    tx.send(3).unwrap();
    tx.send(4).unwrap();
    let (v, n, _) = coalesce_queued(&mut rx, 1);
    assert_eq!((v, n), (4, 3));
    let (v, n, _) = coalesce_queued(&mut rx, 5);
    assert_eq!((v, n), (5, 0));
    drop(tx);
    let (v, n, _) = coalesce_queued(&mut rx, 6);
    assert_eq!((v, n), (6, 0));
}

#[test]
fn coalesce_step_keeps_received_event() {
    assert_eq!(coalesce_step(1, 0, Some(7)), (7, 1, true));
    assert_eq!(coalesce_step(7, 1, None), (7, 1, false));
}

#[test]
fn test_slap_payload_json() {
    let amplitude: f64 = 0.008;
    let payload = SlapPayload::from_event(Severity::MicroChoc, &format!("{:.4}", amplitude));
    assert_eq!(payload.sender_id, "slap-detector");
    assert!(payload.text.contains("Level 4"));
    assert!(payload.correlation_id.starts_with("slap-"));
}
