use usb_bulk::config::{
    DISCOVERY_INTERVAL_MS, ECHO_DELAY_SECS, IN_BUFFER_SIZE, PRODUCT_ID, TRANSFER_TIMEOUT_MS,
    VENDOR_ID,
};
use usb_bulk::device::{link_step, LinkAction, LinkEvent, LinkNote, LinkState};
use usb_bulk::host::{find_device, host_step, DeviceId, HostAction, HostEvent, HostNote, HostState};
use usb_bulk::payload::{payload_for, push_decimal};
use usb_bulk::pump::{inbound_event, PumpAction, PumpEvent, PumpNote, PumpPhase, TransferPump};

fn echo_cycle(state: LinkState, data: &[u8]) -> (LinkState, Vec<u8>) {
    let s1 = link_step(state, LinkEvent::ReadOk { data: data.to_vec() });
    assert_eq!(s1.action, LinkAction::Delay { secs: 1 });
    assert_eq!(s1.note, LinkNote::Received);
    let s2 = link_step(s1.state, LinkEvent::DelayElapsed);
    let written = match s2.action {
        LinkAction::Write { data } => data,
        other => panic!("expected a write, got {:?}", other),
    };
    let s3 = link_step(s2.state, LinkEvent::WriteDone { ok: true });
    assert_eq!(s3.action, LinkAction::Read);
    (s3.state, written)
}

#[test]
fn payload_is_text_and_decimal_counter() {
    assert_eq!(payload_for(0), b"text 0".to_vec());
    assert_eq!(payload_for(7), b"text 7".to_vec());
    assert_eq!(payload_for(10), b"text 10".to_vec());
    assert_eq!(payload_for(99999), b"text 99999".to_vec());
    assert_eq!(payload_for(u64::MAX), format!("text {}", u64::MAX).into_bytes());
}

#[test]
fn push_decimal_appends() {
    let mut out = b"n=".to_vec();
    push_decimal(120, &mut out);
    assert_eq!(out, b"n=120".to_vec());
}

#[test]
fn device_connects_on_enable() {
    let s = link_step(LinkState::WaitingForEnable, LinkEvent::Enabled);
    assert_eq!(s.state, LinkState::Connected);
    assert_eq!(s.action, LinkAction::Read);
    assert_eq!(s.note, LinkNote::Connected);
}

#[test]
fn device_echoes_text_zero_after_one_second() {
    assert_eq!(ECHO_DELAY_SECS, 1);
    let (state, written) = echo_cycle(LinkState::Connected, b"text 0");
    assert_eq!(written, b"text 0".to_vec());
    assert_eq!(state, LinkState::Connected);
}

#[test]
fn device_echoes_every_payload_exactly() {
    let full: Vec<u8> = (0..64u8).collect();
    let payloads: Vec<Vec<u8>> = vec![vec![], vec![0], vec![255, 0, 128], full];
    let mut state = LinkState::Connected;
    for p in payloads {
        let (next, written) = echo_cycle(state, &p);
        assert_eq!(written, p);
        state = next;
    }
}

#[test]
fn device_failed_write_keeps_session() {
    let s1 = link_step(LinkState::Connected, LinkEvent::ReadOk { data: b"x".to_vec() });
    let s2 = link_step(s1.state, LinkEvent::DelayElapsed);
    let s3 = link_step(s2.state, LinkEvent::WriteDone { ok: false });
    assert_eq!(s3.state, LinkState::Connected);
    assert_eq!(s3.action, LinkAction::Read);
    assert_eq!(s3.note, LinkNote::Silent);
}

#[test]
fn device_disable_mid_session_then_reconnect() {
    let mut state = LinkState::Connected;
    for _ in 0..3 {
        let d = link_step(state, LinkEvent::ReadFailed);
        assert_eq!(d.state, LinkState::WaitingForEnable);
        assert_eq!(d.action, LinkAction::WaitEnabled);
        assert_eq!(d.note, LinkNote::Disconnected);
        let c = link_step(d.state, LinkEvent::Enabled);
        assert_eq!(c.state, LinkState::Connected);
        assert_eq!(c.note, LinkNote::Connected);
        let (next, written) = echo_cycle(c.state, b"again");
        assert_eq!(written, b"again".to_vec());
        state = next;
    }
}

#[test]
fn device_ignores_event_out_of_turn() {
    let s = link_step(LinkState::WaitingForEnable, LinkEvent::DelayElapsed);
    assert_eq!(s.state, LinkState::WaitingForEnable);
    assert_eq!(s.action, LinkAction::WaitEnabled);
    let held = LinkState::Echoing { data: vec![1, 2] };
    let s = link_step(held.clone(), LinkEvent::Enabled);
    assert_eq!(s.state, held);
    assert_eq!(s.action, LinkAction::Write { data: vec![1, 2] });
    assert_eq!(s.note, LinkNote::Silent);
}

#[test]
fn find_device_picks_first_match() {
    let other = DeviceId { vendor_id: 0x1234, product_id: 0xCAFE };
    let half = DeviceId { vendor_id: 0xC0DE, product_id: 0x0001 };
    let target = DeviceId { vendor_id: VENDOR_ID, product_id: PRODUCT_ID };
    assert_eq!(VENDOR_ID, 0xC0DE);
    assert_eq!(PRODUCT_ID, 0xCAFE);
    assert_eq!(find_device(&vec![]), None);
    assert_eq!(find_device(&vec![other, half]), None);
    assert_eq!(find_device(&vec![other, target, half, target]), Some(1));
    assert_eq!(find_device(&vec![target]), Some(0));
}

#[test]
fn host_polls_once_per_interval_until_found() {
    let mut state = HostState::Searching;
    for _ in 0..3 {
        let s = host_step(state, HostEvent::Scanned { found: false });
        assert_eq!(s.state, HostState::Sleeping);
        assert_eq!(s.action, HostAction::Sleep { ms: 1000 });
        assert_eq!(s.note, HostNote::NotFound);
        let s = host_step(s.state, HostEvent::Slept);
        assert_eq!(s.action, HostAction::Scan);
        state = s.state;
    }
    assert_eq!(DISCOVERY_INTERVAL_MS, 1000);
    let s = host_step(state, HostEvent::Scanned { found: true });
    assert_eq!(s.state, HostState::Connecting);
    assert_eq!(s.action, HostAction::Connect);
    assert_eq!(s.note, HostNote::DeviceConnected);
}

#[test]
fn host_connect_failure_rediscovers() {
    let s = host_step(HostState::Connecting, HostEvent::Connected { ok: false });
    assert_eq!(s.state, HostState::Searching);
    assert_eq!(s.action, HostAction::Scan);
    assert_eq!(s.note, HostNote::ConnectFailed);
    let s = host_step(HostState::Connecting, HostEvent::Connected { ok: true });
    assert_eq!(s.state, HostState::Active);
    assert_eq!(s.action, HostAction::RunSession);
}

#[test]
fn host_session_end() {
    let s = host_step(HostState::Active, HostEvent::SessionEnded { ok: false });
    assert_eq!(s.state, HostState::Searching);
    assert_eq!(s.action, HostAction::Scan);
    assert_eq!(s.note, HostNote::SessionFailed);
    let s = host_step(HostState::Active, HostEvent::SessionEnded { ok: true });
    assert_eq!(s.state, HostState::Finished);
    assert_eq!(s.action, HostAction::Stop);
    assert_eq!(s.note, HostNote::SessionDone);
}

#[test]
fn pump_runs_two_clean_cycles() {
    let mut p = TransferPump::new(2);
    assert_eq!(p.pending_action(), PumpAction::SubmitIn { len: IN_BUFFER_SIZE });
    assert_eq!(IN_BUFFER_SIZE, 4096);
    assert_eq!(TRANSFER_TIMEOUT_MS, 1000);
    let (a, _) = p.step(PumpEvent::Submitted);
    assert_eq!(a, PumpAction::SubmitOut { data: b"text 0".to_vec() });
    assert_eq!(p.in_flight, 1);
    let (a, _) = p.step(PumpEvent::Submitted);
    assert_eq!(a, PumpAction::WaitOut { timeout_ms: 1000 });
    let (a, _) = p.step(PumpEvent::OutCompleted { ok: true });
    assert_eq!(a, PumpAction::WaitIn { timeout_ms: 1000 });
    let (a, n) = p.step(PumpEvent::InCompleted { ok: true, text: true });
    assert_eq!(a, PumpAction::ResubmitIn);
    assert_eq!(n, PumpNote::Received);
    assert_eq!(p.in_flight, 0);
    let (a, _) = p.step(PumpEvent::Submitted);
    assert_eq!(a, PumpAction::SubmitOut { data: b"text 1".to_vec() });
    assert_eq!(p.cycle, 1);
    assert_eq!(p.in_flight, 1);
    p.step(PumpEvent::Submitted);
    p.step(PumpEvent::OutCompleted { ok: true });
    p.step(PumpEvent::InCompleted { ok: true, text: true });
    let (a, _) = p.step(PumpEvent::Submitted);
    assert_eq!(a, PumpAction::Finish);
    assert_eq!(p.phase, PumpPhase::Done);
    assert_eq!(p.in_flight, 1);
}

#[test]
fn pump_with_no_cycles_finishes_after_priming() {
    let mut p = TransferPump::new(0);
    let (a, _) = p.step(PumpEvent::Submitted);
    assert_eq!(a, PumpAction::Finish);
}

#[test]
fn pump_timeouts_are_not_fatal() {
    let mut p = TransferPump::new(3);
    p.step(PumpEvent::Submitted);
    p.step(PumpEvent::Submitted);
    let (a, n) = p.step(PumpEvent::TimedOut);
    assert_eq!(a, PumpAction::WaitIn { timeout_ms: 1000 });
    assert_eq!(n, PumpNote::OutTimeout);
    let (a, n) = p.step(PumpEvent::TimedOut);
    assert_eq!(a, PumpAction::SubmitOut { data: b"text 1".to_vec() });
    assert_eq!(n, PumpNote::InTimeout);
    assert_eq!(p.in_flight, 1);
    assert_eq!(p.phase, PumpPhase::Sending);
}

#[test]
fn pump_error_status_fails_session() {
    let mut p = TransferPump::new(3);
    p.step(PumpEvent::Submitted);
    p.step(PumpEvent::Submitted);
    let (a, n) = p.step(PumpEvent::OutCompleted { ok: false });
    assert_eq!(a, PumpAction::Fail);
    assert_eq!(n, PumpNote::TransferFailed);

    let mut p = TransferPump::new(3);
    p.step(PumpEvent::Submitted);
    p.step(PumpEvent::Submitted);
    p.step(PumpEvent::OutCompleted { ok: true });
    let (a, _) = p.step(PumpEvent::InCompleted { ok: false, text: false });
    assert_eq!(a, PumpAction::Fail);
    assert_eq!(p.phase, PumpPhase::Failed);
    assert_eq!(p.in_flight, 0);

    let mut p = TransferPump::new(3);
    p.step(PumpEvent::Submitted);
    p.step(PumpEvent::Submitted);
    p.step(PumpEvent::OutCompleted { ok: true });
    let (a, _) = p.step(PumpEvent::InCompleted { ok: true, text: false });
    assert_eq!(a, PumpAction::Fail);
}

#[test]
fn pump_keeps_one_inbound_buffer_outstanding() {
    let mut p = TransferPump::new(20);
    p.step(PumpEvent::Submitted);
    let mut k: u32 = 0;
    while p.phase != PumpPhase::Done {
        let steady = matches!(
            p.phase,
            PumpPhase::Sending | PumpPhase::AwaitingOut | PumpPhase::AwaitingIn
        );
        if steady {
            assert_eq!(p.in_flight, 1);
        }
        let event = match p.phase {
            PumpPhase::AwaitingOut if k % 3 == 0 => PumpEvent::TimedOut,
            PumpPhase::AwaitingOut => PumpEvent::OutCompleted { ok: true },
            PumpPhase::AwaitingIn if k % 4 == 1 => PumpEvent::TimedOut,
            PumpPhase::AwaitingIn => PumpEvent::InCompleted { ok: true, text: true },
            _ => PumpEvent::Submitted,
        };
        let (a, _) = p.step(event);
        if a == PumpAction::ResubmitIn {
            assert_eq!(p.in_flight, 0);
        }
        k += 1;
    }
    assert_eq!(p.cycle, 20);
}

#[test]
fn pump_ignores_event_out_of_turn() {
    let mut p = TransferPump::new(2);
    let before = p;
    let (a, n) = p.step(PumpEvent::TimedOut);
    assert_eq!(p, before);
    assert_eq!(a, PumpAction::SubmitIn { len: 4096 });
    assert_eq!(n, PumpNote::Silent);
}

#[test]
fn inbound_event_validates_text() {
    assert_eq!(
        inbound_event(true, &b"text 0".to_vec()),
        PumpEvent::InCompleted { ok: true, text: true }
    );
    assert_eq!(
        inbound_event(true, &vec![0xff, 0xfe]),
        PumpEvent::InCompleted { ok: true, text: false }
    );
    assert_eq!(
        inbound_event(false, &b"text 0".to_vec()),
        PumpEvent::InCompleted { ok: false, text: false }
    );
}
