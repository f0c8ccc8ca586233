use dfu_core::error::{DfuError, UsbError};
use dfu_core::firmware::Firmware;
use dfu_core::protocol::DfuStatusResponse;
use dfu_core::state_machine::{DfuState, DfuStatus};
use dfu_core::transfer::{
    entry_step, poll_after_command, poll_during_download, poll_during_manifest, Action,
    DownloadSession, EntryStep, Event, Poll, TransferProgress,
};

fn status(state: DfuState, st: DfuStatus, ms: u32) -> DfuStatusResponse {
    DfuStatusResponse { status: st, poll_timeout_ms: ms, state, string_index: 0 }
}

fn idle(state: DfuState) -> Event {
    Event::Status(status(state, DfuStatus::NoError, 0))
}

fn image(len: usize) -> Firmware {
    let data: Vec<u8> = (0..len).map(|i| (i % 253) as u8).collect();
    Firmware::load("fw.bin".to_string(), Ok(data)).unwrap()
}

/// Feeds the session one event after another and collects the actions.
fn run(session: &mut DownloadSession, events: Vec<Event>) -> Vec<Action> {
    let mut out = Vec::new();
    for e in events {
        assert!(session.accepts(&e), "event {:?} not expected", e);
        out.push(session.step(e));
    }
    out
}

fn download(a: &Action) -> (u16, Vec<u8>) {
    match a {
        Action::Download { block, payload } => (*block, payload.clone()),
        other => panic!("expected a download, got {:?}", other),
    }
}

fn finish_err(a: Action) -> DfuError {
    match a {
        Action::Finish(Err(e)) => e,
        other => panic!("expected a failure, got {:?}", other),
    }
}

#[test]
fn full_download_with_erase() {
    let fw = image(5000);
    let mut s = DownloadSession::new(&fw, 0x0800_0000, true);
    let mut acts = run(
        &mut s,
        vec![
            Event::Done,
            idle(DfuState::DfuIdle),
            Event::Done,
            Event::Status(status(DfuState::DfuDownloadBusy, DfuStatus::NoError, 25)),
            Event::Done,
            idle(DfuState::DfuDownloadIdle),
            Event::Done,
            idle(DfuState::DfuDownloadIdle),
        ],
    );
    assert!(matches!(acts[0], Action::GetStatus));
    assert_eq!(download(&acts[1]), (0, vec![0x41]));
    assert!(matches!(acts[2], Action::GetStatus));
    assert!(matches!(acts[3], Action::Sleep { ms: 25 }));
    assert!(matches!(acts[4], Action::GetStatus));
    assert_eq!(download(&acts[5]), (0, vec![0x21, 0x00, 0x00, 0x00, 0x08]));
    assert!(matches!(acts[6], Action::GetStatus));
    assert_eq!(download(&acts[7]), (2, fw.data[0..2048].to_vec()));

    let mut payloads = Vec::new();
    let mut progress = Vec::new();
    payloads.extend(download(&acts[7]).1);
    for k in 0..3usize {
        acts = run(&mut s, vec![Event::Done, idle(DfuState::DfuDownloadIdle), Event::Done]);
        assert!(matches!(acts[0], Action::GetStatus));
        match acts[1] {
            Action::Progress(p) => progress.push(p),
            ref other => panic!("expected progress, got {:?}", other),
        }
        let (block, payload) = download(&acts[2]);
        assert_eq!(block as usize, k + 3);
        if k < 2 {
            assert!(!payload.is_empty());
        } else {
            assert!(payload.is_empty());
        }
        payloads.extend(payload);
    }
    assert_eq!(payloads, fw.data);
    assert_eq!(
        progress,
        vec![
            TransferProgress { bytes_sent: 2048, total_bytes: 5000, block_num: 3 },
            TransferProgress { bytes_sent: 4096, total_bytes: 5000, block_num: 4 },
            TransferProgress { bytes_sent: 5000, total_bytes: 5000, block_num: 5 },
        ]
    );
    acts = run(
        &mut s,
        vec![
            Event::Done,
            Event::Status(status(DfuState::DfuManifestSync, DfuStatus::NoError, 40)),
            Event::Done,
            idle(DfuState::DfuManifestWaitReset),
        ],
    );
    assert!(matches!(acts[0], Action::GetStatus));
    assert!(matches!(acts[1], Action::Sleep { ms: 40 }));
    assert!(matches!(acts[2], Action::GetStatus));
    assert!(matches!(acts[3], Action::Finish(Ok(()))));
    assert!(!s.accepts(&Event::Done));
    assert!(!s.accepts(&idle(DfuState::DfuIdle)));
}

#[test]
fn without_erase_the_address_comes_first() {
    let fw = image(10);
    let mut s = DownloadSession::new(&fw, 0x0801_0000, false);
    let acts = run(&mut s, vec![Event::Done, idle(DfuState::DfuIdle), Event::Done, idle(DfuState::DfuDownloadIdle)]);
    assert_eq!(download(&acts[1]), (0, vec![0x21, 0x00, 0x00, 0x01, 0x08]));
    assert_eq!(download(&acts[3]), (2, fw.data.clone()));
}

#[test]
fn error_state_is_cleared_first() {
    let fw = image(10);
    let mut s = DownloadSession::new(&fw, 0x0800_0000, false);
    let acts = run(
        &mut s,
        vec![Event::Done, idle(DfuState::DfuError), Event::Done, idle(DfuState::DfuIdle)],
    );
    assert!(matches!(acts[1], Action::ClearStatus));
    assert!(matches!(acts[2], Action::GetStatus));
    assert_eq!(download(&acts[3]).0, 0);
}

#[test]
fn clear_that_does_not_reach_idle_fails() {
    let fw = image(10);
    let mut s = DownloadSession::new(&fw, 0x0800_0000, false);
    let mut acts = run(
        &mut s,
        vec![Event::Done, idle(DfuState::DfuError), Event::Done, idle(DfuState::DfuError)],
    );
    match finish_err(acts.pop().unwrap()) {
        DfuError::Protocol(m) => assert_eq!(m, "device did not return to idle after clear"),
        other => panic!("unexpected {:?}", other),
    }
}

#[test]
fn application_mode_detaches_and_stops() {
    let fw = image(10);
    let mut s = DownloadSession::new(&fw, 0x0800_0000, false);
    let mut acts = run(&mut s, vec![Event::Done, idle(DfuState::AppIdle), Event::Done]);
    assert!(matches!(acts[1], Action::Detach));
    match finish_err(acts.pop().unwrap()) {
        DfuError::Protocol(m) => assert_eq!(
            m,
            "device must re-enumerate as DFU device after detach, please re-run"
        ),
        other => panic!("unexpected {:?}", other),
    }
}

#[test]
fn other_start_state_aborts_and_stops() {
    let fw = image(10);
    let mut s = DownloadSession::new(&fw, 0x0800_0000, false);
    let mut acts = run(&mut s, vec![Event::Done, idle(DfuState::DfuDownloadIdle), Event::Done]);
    assert!(matches!(acts[1], Action::Abort));
    match finish_err(acts.pop().unwrap()) {
        DfuError::Protocol(m) => assert_eq!(m, "unexpected state at start of download: DfuDownloadIdle"),
        other => panic!("unexpected {:?}", other),
    }
}

fn at_first_block(len: usize) -> DownloadSession {
    let fw = image(len);
    let mut s = DownloadSession::new(&fw, 0x0800_0000, false);
    let acts = run(
        &mut s,
        vec![Event::Done, idle(DfuState::DfuIdle), Event::Done, idle(DfuState::DfuDownloadIdle), Event::Done],
    );
    assert!(matches!(acts[4], Action::GetStatus));
    s
}

#[test]
fn busy_block_with_bad_status_waits_then_fails() {
    let mut s = at_first_block(100);
    let mut acts = run(
        &mut s,
        vec![Event::Status(status(DfuState::DfuDownloadBusy, DfuStatus::ErrWrite, 7)), Event::Done],
    );
    assert!(matches!(acts[0], Action::Sleep { ms: 7 }));
    match finish_err(acts.pop().unwrap()) {
        DfuError::TransferFailed { block, reason } => {
            assert_eq!(block, 2);
            assert_eq!(reason, "bad status: ErrWrite");
        }
        other => panic!("unexpected {:?}", other),
    }
}

#[test]
fn block_rejected_by_device() {
    let mut s = at_first_block(100);
    let mut acts =
        run(&mut s, vec![Event::Status(status(DfuState::DfuError, DfuStatus::ErrProg, 0))]);
    match finish_err(acts.pop().unwrap()) {
        DfuError::TransferFailed { block, reason } => {
            assert_eq!(block, 2);
            assert_eq!(reason, "device entered error state: ErrProg");
        }
        other => panic!("unexpected {:?}", other),
    }
}

#[test]
fn block_in_unexpected_state() {
    let mut s = at_first_block(100);
    let mut acts = run(&mut s, vec![idle(DfuState::DfuIdle)]);
    match finish_err(acts.pop().unwrap()) {
        DfuError::Protocol(m) => assert_eq!(m, "unexpected state during download: DfuIdle"),
        other => panic!("unexpected {:?}", other),
    }
}

fn at_manifest() -> DownloadSession {
    let mut s = at_first_block(100);
    let acts = run(&mut s, vec![idle(DfuState::DfuDownloadIdle), Event::Done]);
    assert_eq!(download(&acts[1]), (3, Vec::new()));
    s
}

#[test]
fn reset_after_last_block_counts_as_success() {
    let mut s = at_manifest();
    let acts = run(&mut s, vec![Event::Failed(DfuError::Usb(UsbError::Io))]);
    assert!(matches!(acts[0], Action::Finish(Ok(()))));

    let mut s = at_manifest();
    let acts = run(&mut s, vec![Event::Done, Event::Failed(DfuError::Usb(UsbError::Io))]);
    assert!(matches!(acts[1], Action::Finish(Ok(()))));
}

#[test]
fn other_failures_stop_the_download() {
    let mut s = at_manifest();
    let mut acts = run(&mut s, vec![Event::Failed(DfuError::Usb(UsbError::Pipe))]);
    assert!(matches!(finish_err(acts.pop().unwrap()), DfuError::Usb(UsbError::Pipe)));

    let mut s = at_first_block(10);
    let mut acts = run(&mut s, vec![Event::Failed(DfuError::Usb(UsbError::Io))]);
    assert!(matches!(finish_err(acts.pop().unwrap()), DfuError::Usb(UsbError::Io)));
}

#[test]
fn manifest_error_is_a_device_error() {
    let mut s = at_manifest();
    let mut acts = run(
        &mut s,
        vec![Event::Done, Event::Status(status(DfuState::DfuError, DfuStatus::ErrFirmware, 0))],
    );
    match finish_err(acts.pop().unwrap()) {
        DfuError::DeviceError(m) => {
            assert_eq!(m, "device entered error state during manifest: ErrFirmware")
        }
        other => panic!("unexpected {:?}", other),
    }
}

#[test]
fn manifest_idle_finishes() {
    let mut s = at_manifest();
    let acts = run(&mut s, vec![Event::Done, idle(DfuState::DfuIdle)]);
    assert!(matches!(acts[1], Action::Finish(Ok(()))));
}

#[test]
fn command_failures() {
    let fw = image(10);
    let mut s = DownloadSession::new(&fw, 0x0800_0000, true);
    let mut acts = run(
        &mut s,
        vec![
            Event::Done,
            idle(DfuState::DfuIdle),
            Event::Done,
            Event::Status(status(DfuState::DfuError, DfuStatus::ErrTarget, 0)),
        ],
    );
    match finish_err(acts.pop().unwrap()) {
        DfuError::Protocol(m) => assert_eq!(m, "device error after command: ErrTarget"),
        other => panic!("unexpected {:?}", other),
    }
}

#[test]
fn session_expects_matching_reports() {
    let fw = image(10);
    let mut s = DownloadSession::new(&fw, 0, false);
    assert!(s.accepts(&Event::Done));
    assert!(!s.accepts(&idle(DfuState::DfuIdle)));
    run(&mut s, vec![Event::Done]);
    assert!(!s.accepts(&Event::Done));
    assert!(s.accepts(&idle(DfuState::DfuIdle)));
    assert!(s.accepts(&Event::Failed(DfuError::DeviceNotFound)));
}

#[test]
fn entry_decisions() {
    assert_eq!(entry_step(DfuState::DfuIdle), EntryStep::Ready);
    assert_eq!(entry_step(DfuState::DfuError), EntryStep::ClearError);
    assert_eq!(entry_step(DfuState::AppIdle), EntryStep::Detach);
    assert_eq!(entry_step(DfuState::AppDetach), EntryStep::Abort);
    assert_eq!(entry_step(DfuState::DfuManifest), EntryStep::Abort);
}

#[test]
fn poll_decisions() {
    let busy = status(DfuState::DfuDownloadBusy, DfuStatus::NoError, 12);
    assert!(matches!(poll_after_command(&busy), Poll::Wait { ms: 12 }));
    assert!(matches!(poll_during_download(&busy, 9), Poll::Wait { ms: 12 }));
    assert!(matches!(
        poll_after_command(&status(DfuState::DfuDownloadIdle, DfuStatus::NoError, 0)),
        Poll::Ready
    ));
    match poll_after_command(&status(DfuState::DfuManifest, DfuStatus::NoError, 0)) {
        Poll::Fail(DfuError::Protocol(m)) => assert_eq!(m, "unexpected state after command: DfuManifest"),
        other => panic!("unexpected {:?}", other),
    }
    match poll_during_manifest(&status(DfuState::DfuDownloadIdle, DfuStatus::NoError, 0)) {
        Poll::Fail(DfuError::Protocol(m)) => {
            assert_eq!(m, "unexpected state during manifest: DfuDownloadIdle")
        }
        other => panic!("unexpected {:?}", other),
    }
    assert!(matches!(
        poll_during_manifest(&status(DfuState::DfuManifest, DfuStatus::NoError, 3)),
        Poll::Wait { ms: 3 }
    ));
    match poll_during_download(&status(DfuState::DfuDownloadBusy, DfuStatus::ErrVerify, 4), 9) {
        Poll::WaitThenFail { ms: 4, error: DfuError::TransferFailed { block: 9, reason } } => {
            assert_eq!(reason, "bad status: ErrVerify")
        }
        other => panic!("unexpected {:?}", other),
    }
}
