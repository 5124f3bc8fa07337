use rndiag::address::IpAddress;
use rndiag::probe::{
    build_probe, judge_ipv4_packet, judge_read_failure, judge_segment, match_ipv4_reply,
    match_reply, ProbeError, WaitStep,
};
use rndiag::session::{
    control_for_key, ControlInput, Session, SessionAction, SessionEvent, SessionState,
};
use rndiag::tools::{LatencyTool, PingTool, TCPPingTool};

const TARGET: IpAddress = IpAddress::V4([10, 0, 0, 1]);
const OTHER: IpAddress = IpAddress::V4([10, 0, 0, 2]);

fn segment(source_port: u16, flags: u8) -> Vec<u8> {
    let mut bytes = vec![0u8; 20];
    bytes[0] = (source_port >> 8) as u8;
    bytes[1] = (source_port & 0xff) as u8;
    bytes[12] = 0x50;
    bytes[13] = flags;
    bytes
}

#[test]
fn reply_from_target_port_matches() {
    assert_eq!(match_reply(&segment(443, 0x12), &TARGET, &TARGET, 443), Some(0x12));
    assert_eq!(match_reply(&segment(443, 0x14), &TARGET, &TARGET, 443), Some(0x14));
}

#[test]
fn other_traffic_does_not_match() {
    assert_eq!(match_reply(&segment(443, 0x12), &OTHER, &TARGET, 443), None);
    assert_eq!(match_reply(&segment(444, 0x12), &TARGET, &TARGET, 443), None);
    assert_eq!(match_reply(&segment(443, 0x12)[..19], &TARGET, &TARGET, 443), None);
    let v6 = IpAddress::V6([0; 16]);
    assert_eq!(match_reply(&segment(443, 0x12), &v6, &TARGET, 443), None);
    assert_eq!(match_reply(&segment(443, 0x12), &v6, &v6, 443), Some(0x12));
}

#[test]
fn reply_inside_an_ipv4_packet() {
    let mut packet = vec![0u8; 20];
    packet[0] = 0x45;
    packet[9] = 6;
    packet.extend(segment(80, 0x04));
    assert_eq!(match_ipv4_reply(&packet, &TARGET, &TARGET, 80), Some(0x04));
    packet[9] = 17;
    assert_eq!(match_ipv4_reply(&packet, &TARGET, &TARGET, 80), None);
    packet[9] = 6;
    packet[0] = 0x65;
    assert_eq!(match_ipv4_reply(&packet, &TARGET, &TARGET, 80), None);
    packet[0] = 0x44;
    assert_eq!(match_ipv4_reply(&packet, &TARGET, &TARGET, 80), None);

    let mut with_options = vec![0u8; 24];
    with_options[0] = 0x46;
    with_options[9] = 6;
    with_options.extend(segment(80, 0x10));
    assert_eq!(match_ipv4_reply(&with_options, &TARGET, &TARGET, 80), Some(0x10));
    assert_eq!(match_ipv4_reply(&with_options[..30], &TARGET, &TARGET, 80), None);
    assert_eq!(match_ipv4_reply(&[], &TARGET, &TARGET, 80), None);
}

#[test]
fn wait_ends_on_match_or_timeout() {
    let reply = segment(443, 0x12);
    assert_eq!(
        judge_segment(37, &reply, &TARGET, &TARGET, 443),
        WaitStep::Done { elapsed_ms: 37, flags: 0x12 }
    );
    assert_eq!(
        judge_segment(5000, &reply, &TARGET, &TARGET, 443),
        WaitStep::Done { elapsed_ms: 5000, flags: 0x12 }
    );
    assert_eq!(
        judge_segment(5001, &reply, &TARGET, &TARGET, 443),
        WaitStep::Done { elapsed_ms: 5000, flags: 0 }
    );
    assert_eq!(judge_segment(37, &reply, &OTHER, &TARGET, 443), WaitStep::ReadAgain);
    assert_eq!(judge_read_failure(37), WaitStep::BackOff { millis: 10 });
    assert_eq!(judge_read_failure(5000), WaitStep::BackOff { millis: 10 });
    assert_eq!(judge_read_failure(5001), WaitStep::Done { elapsed_ms: 5000, flags: 0 });
    let mut packet = vec![0u8; 20];
    packet[0] = 0x45;
    packet[9] = 6;
    packet.extend(segment(443, 0x12));
    assert_eq!(
        judge_ipv4_packet(12, &packet, &TARGET, &TARGET, 443),
        WaitStep::Done { elapsed_ms: 12, flags: 0x12 }
    );
    assert_eq!(judge_ipv4_packet(12, &packet, &TARGET, &TARGET, 80), WaitStep::ReadAgain);
    assert_eq!(
        judge_ipv4_packet(9000, &packet, &TARGET, &TARGET, 443),
        WaitStep::Done { elapsed_ms: 5000, flags: 0 }
    );
}

#[test]
fn probe_needs_one_ip_version() {
    let v6 = IpAddress::V6([1; 16]);
    assert_eq!(build_probe(&TARGET, &v6, 80, 2), Err(ProbeError::VersionMismatch));
    assert_eq!(build_probe(&v6, &TARGET, 80, 2), Err(ProbeError::VersionMismatch));
    let v4 = build_probe(&OTHER, &TARGET, 80, 2).unwrap();
    assert_eq!(v4.len(), 40);
    assert_eq!(&v4[..4], &[0x45, 0, 0, 40]);
    assert_eq!(&v4[12..20], &[10, 0, 0, 2, 10, 0, 0, 1]);
    assert_eq!(&v4[20..24], &[0xd4, 0x31, 0, 80]);
    assert_eq!(v4[33], 2);
    let six = build_probe(&v6, &v6, 80, 0x10).unwrap();
    assert_eq!(six.len(), 60);
    assert_eq!(&six[..8], &[0x60, 0, 0, 0, 0, 20, 6, 64]);
    assert_eq!(six[53], 0x10);
}

#[test]
fn unreachable_port_gives_one_lost_sample() {
    let mut tool = TCPPingTool::new("10.0.0.1", "out.csv", 1, 9, 0x02);
    assert_eq!(tool.advance(SessionEvent::Started { now: 100 }), SessionAction::Poll { budget_ms: 20 });
    assert_eq!(tool.advance(SessionEvent::Input(ControlInput::Nothing)), SessionAction::Probe);
    let step = judge_read_failure(5001);
    assert_eq!(step, WaitStep::Done { elapsed_ms: 5000, flags: 0 });
    let elapsed_ms = match step {
        WaitStep::Done { elapsed_ms, .. } => elapsed_ms,
        _ => unreachable!(),
    };
    let event = SessionEvent::ProbeDone { elapsed_ms, arrival_time: 105 };
    assert!(tool.session().can_accept(event));
    assert_eq!(tool.advance(event), SessionAction::Sleep { millis: 500 });
    assert_eq!(tool.data(), vec![5000]);
    assert_eq!(tool.sys_time(), vec![105]);
    assert_eq!(tool.advance(SessionEvent::Slept), SessionAction::Finalize);
    assert_eq!(tool.session().state(), SessionState::Completed);
    let summary = tool.latency_data();
    assert_eq!(summary.transmitted, 1);
    assert_eq!(summary.lost, 1);
    assert_eq!(summary.received, 0);
}

#[test]
fn bounded_session_completes_after_its_count() {
    let mut session = Session::new(3);
    assert_eq!(session.state(), SessionState::Idle);
    session.advance(SessionEvent::Started { now: 50 });
    assert_eq!(session.begin_time(), 50);
    for i in 0..3u64 {
        assert_eq!(session.state(), SessionState::Running);
        assert_eq!(session.advance(SessionEvent::Input(ControlInput::Nothing)), SessionAction::Probe);
        assert_eq!(
            session.advance(SessionEvent::ProbeDone { elapsed_ms: 10 + i, arrival_time: 50 + i }),
            SessionAction::Sleep { millis: 500 }
        );
        let next = session.advance(SessionEvent::Slept);
        if i < 2 {
            assert_eq!(next, SessionAction::Poll { budget_ms: 20 });
        } else {
            assert_eq!(next, SessionAction::Finalize);
        }
    }
    assert_eq!(session.state(), SessionState::Completed);
    assert!(session.is_over());
    assert_eq!(session.engine().data(), vec![10, 11, 12]);
}

#[test]
fn unbounded_session_runs_until_cancelled() {
    let mut session = Session::new(0);
    session.advance(SessionEvent::Started { now: 0 });
    for i in 0..40u64 {
        session.advance(SessionEvent::Input(ControlInput::Nothing));
        session.advance(SessionEvent::ProbeDone { elapsed_ms: 1, arrival_time: i });
        assert_eq!(session.advance(SessionEvent::Slept), SessionAction::Poll { budget_ms: 20 });
    }
    assert_eq!(session.state(), SessionState::Running);
    assert_eq!(session.advance(SessionEvent::Input(ControlInput::Cancel)), SessionAction::Finalize);
    assert_eq!(session.state(), SessionState::Cancelled);
    assert_eq!(session.engine().statistics().transmitted, 40);
}

#[test]
fn graph_request_updates_then_blocks_probing() {
    let mut session = Session::new(0);
    session.advance(SessionEvent::Started { now: 0 });
    for i in 0..5u64 {
        session.advance(SessionEvent::ProbeDone { elapsed_ms: 3, arrival_time: i });
    }
    assert_eq!(session.advance(SessionEvent::Input(ControlInput::ShowGraph)), SessionAction::ShowGraph);
    assert_eq!(session.state(), SessionState::Graphing);
    assert_eq!(session.engine().sampled_points().len(), 1);
    let event = SessionEvent::ProbeDone { elapsed_ms: 3, arrival_time: 9 };
    assert!(session.can_accept(event));
    assert_eq!(session.advance(event), SessionAction::Nothing);
    assert_eq!(session.engine().raw_samples().len(), 5);
    assert_eq!(session.advance(SessionEvent::ViewerClosed), SessionAction::Probe);
    assert_eq!(session.state(), SessionState::Running);
}

#[test]
fn ended_sessions_ignore_events() {
    let mut failed = Session::new(0);
    assert_eq!(failed.advance(SessionEvent::StartFailed), SessionAction::Abort);
    assert_eq!(failed.state(), SessionState::Failed);
    assert_eq!(failed.advance(SessionEvent::Started { now: 1 }), SessionAction::Nothing);
    assert_eq!(failed.advance(SessionEvent::Slept), SessionAction::Nothing);
    assert_eq!(failed.state(), SessionState::Failed);
    assert_eq!(failed.begin_time(), 0);

    let mut broken = Session::new(0);
    broken.advance(SessionEvent::Started { now: 1 });
    assert_eq!(broken.advance(SessionEvent::ProbeFailed), SessionAction::Abort);
    assert!(broken.is_over());
    assert_eq!(
        broken.advance(SessionEvent::ProbeDone { elapsed_ms: 1, arrival_time: 1 }),
        SessionAction::Nothing
    );
    assert_eq!(broken.engine().raw_samples().len(), 0);
}

#[test]
fn idle_session_waits_for_its_start() {
    let mut session = Session::new(2);
    assert_eq!(session.advance(SessionEvent::Slept), SessionAction::Nothing);
    assert_eq!(session.advance(SessionEvent::Input(ControlInput::Cancel)), SessionAction::Nothing);
    assert_eq!(session.state(), SessionState::Idle);
}

#[test]
fn probe_out_of_time_order_is_not_accepted() {
    let mut session = Session::new(0);
    session.advance(SessionEvent::Started { now: 0 });
    session.advance(SessionEvent::ProbeDone { elapsed_ms: 1, arrival_time: 100 });
    assert!(!session.can_accept(SessionEvent::ProbeDone { elapsed_ms: 1, arrival_time: 99 }));
    assert!(session.can_accept(SessionEvent::ProbeDone { elapsed_ms: 1, arrival_time: 100 }));
    assert!(session.can_accept(SessionEvent::Slept));
}

#[test]
fn keys_that_control_a_session() {
    assert_eq!(control_for_key('g', false, false), ControlInput::ShowGraph);
    assert_eq!(control_for_key('c', true, false), ControlInput::Cancel);
    assert_eq!(control_for_key('c', false, false), ControlInput::Nothing);
    assert_eq!(control_for_key('g', true, false), ControlInput::Nothing);
    assert_eq!(control_for_key('g', false, true), ControlInput::Nothing);
    assert_eq!(control_for_key('c', true, true), ControlInput::Nothing);
    assert_eq!(control_for_key('q', false, false), ControlInput::Nothing);
}

#[test]
fn ping_tool_starts_empty() {
    let mut tool = PingTool::new("example.org", "ping.csv", 6);
    assert_eq!(tool.name(), "ping");
    assert_eq!(tool.target(), "example.org");
    assert_eq!(tool.target, "example.org");
    assert_eq!(tool.output(), "ping.csv");
    assert_eq!(tool.nb_ping(), 6);
    assert_eq!(tool.begin_time(), 0);
    assert_eq!(tool.elapsed_time(), 0);
    assert!(tool.data().is_empty());
    assert!(tool.latency_moy_sampled().is_empty());
    tool.setting("other.csv", 0);
    assert_eq!(tool.output(), "other.csv");
    assert_eq!(tool.nb_ping(), 0);
    assert_eq!(tool.target(), "example.org");
}

#[test]
fn tcp_ping_tool_samples_its_probes() {
    let mut tool = TCPPingTool::new("10.0.0.1", "tping.csv", 0, 443, 0x02);
    assert_eq!(tool.name(), "tping");
    assert_eq!(tool.port(), 443);
    assert_eq!(tool.flag(), 0x02);
    tool.advance(SessionEvent::Started { now: 1_000 });
    for (i, latency) in [10u64, 20, 15, 30, 25].iter().enumerate() {
        tool.advance(SessionEvent::ProbeDone { elapsed_ms: *latency, arrival_time: 1_000 + i as u64 });
    }
    assert_eq!(tool.begin_time(), 1_000);
    assert_eq!(tool.elapsed_time(), 4);
    assert_eq!(tool.latency_min(), vec![10]);
    assert_eq!(tool.latency_moy(), vec![20]);
    assert_eq!(tool.latency_max(), vec![30]);
    assert_eq!(tool.latency_time(), vec![1_000]);
    assert_eq!(tool.latency_min_sampled(), vec![10]);
    assert_eq!(tool.latency_moy_sampled(), vec![20]);
    assert_eq!(tool.latency_max_sampled(), vec![30]);
    let probe = tool.probe_packet(&OTHER, &TARGET).unwrap();
    assert_eq!(&probe[22..24], &[0x01, 0xbb]);
    assert_eq!(probe[33], 0x02);
    assert_eq!(
        tool.probe_packet(&OTHER, &IpAddress::V6([0; 16])),
        Err(ProbeError::VersionMismatch)
    );
}

#[test]
fn sampling_on_request_catches_up() {
    let mut tool = PingTool::new("10.0.0.1", "ping.csv", 0);
    tool.sampling();
    assert!(tool.latency_min().is_empty());
    tool.advance(SessionEvent::Started { now: 10 });
    for i in 0..7u64 {
        tool.advance(SessionEvent::ProbeDone { elapsed_ms: 40 + i, arrival_time: 10 + i });
    }
    tool.sampling();
    assert_eq!(tool.latency_min(), vec![40]);
    assert_eq!(tool.latency_moy(), vec![42]);
    assert_eq!(tool.latency_max(), vec![44]);
    assert_eq!(tool.latency_moy_sampled(), vec![42]);
    assert_eq!(tool.session().state(), SessionState::Running);
    assert_eq!(tool.latency_data().avg_ms, 43);
}
