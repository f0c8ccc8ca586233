//! The DFU download procedure. The decisions are made here, as a state
//! machine that is told what the device answered and says what to do next;
//! the transfers and the pauses are left to the caller.
use vstd::prelude::*;
use vstd::seq_lib::lemma_flatten_concat;
use crate::error::{DfuError, DfuErrorView, UsbError, viewed};
use crate::firmware::{
    Firmware, byte_views, copy_range, spec_chunks, lemma_chunk_count, lemma_chunks_partition,
};
use crate::protocol::{
    DfuStatusResponse, mass_erase_command, set_address_command, spec_set_address_command,
    STM32_CMD_ERASE_ALL,
};
use crate::state_machine::{DfuState, DfuStatus};
use crate::text::joined;

verus! {

/// Bytes of firmware carried by one download block.
pub const DFU_BLOCK_SIZE: usize = 2048;

/// Block number of the first firmware block; blocks 0 and 1 are reserved
/// for DfuSe commands.
pub const FIRST_DATA_BLOCK: u16 = 2;

/// The largest number of firmware blocks whose numbers, and that of the
/// closing empty block, fit in a `u16`.
pub const MAX_DATA_BLOCKS: usize = 65533;

/// Where a download stands, reported after each firmware block.
#[derive(Debug, Clone, Copy, PartialEq, Eq, Structural)]
pub struct TransferProgress {
    /// Firmware bytes that the device has accepted so far.
    pub bytes_sent: usize,
    /// Size of the whole image.
    pub total_bytes: usize,
    /// Number of the block that comes next.
    pub block_num: u16,
}

// ---------------------------------------------------------------------------
// Reading one status reply
// ---------------------------------------------------------------------------

/// What to do about the device's state when a download starts.
#[derive(Debug, Clone, Copy, PartialEq, Eq, Structural)]
pub enum EntryStep {
    /// The device is idle in DFU mode: go on.
    Ready,
    /// The device is in its error state: clear the status and look again.
    ClearError,
    /// The device runs its application: ask it to detach, then stop.
    Detach,
    /// The device is busy with something else: abort that, then stop.
    Abort,
}

pub open spec fn spec_entry_step(state: DfuState) -> EntryStep {
    match state {
        DfuState::DfuIdle => EntryStep::Ready,
        DfuState::DfuError => EntryStep::ClearError,
        DfuState::AppIdle => EntryStep::Detach,
        _ => EntryStep::Abort,
    }
}

/// Decides how to bring the device to the start of a download.
pub fn entry_step(state: DfuState) -> (res: EntryStep)
    ensures
        res == spec_entry_step(state),
{
    match state {
        DfuState::DfuIdle => EntryStep::Ready,
        DfuState::DfuError => EntryStep::ClearError,
        DfuState::AppIdle => EntryStep::Detach,
        _ => EntryStep::Abort,
    }
}

/// The verdict on one status reply while waiting for the device.
#[derive(Debug)]
pub enum Poll {
    /// The device is done; go on.
    Ready,
    /// Ask again after `ms` milliseconds.
    Wait { ms: u32 },
    /// Wait `ms` milliseconds, then give up with `error`.
    WaitThenFail { ms: u32, error: DfuError },
    /// Give up with the error.
    Fail(DfuError),
}

/// A `Poll` with its error taken by its view.
pub enum PollView {
    Ready,
    Wait { ms: u32 },
    WaitThenFail { ms: u32, error: DfuErrorView },
    Fail(DfuErrorView),
}

impl View for Poll {
    type V = PollView;

    open spec fn view(&self) -> PollView {
        match self {
            Poll::Ready => PollView::Ready,
            Poll::Wait { ms } => PollView::Wait { ms: *ms },
            Poll::WaitThenFail { ms, error } => PollView::WaitThenFail { ms: *ms, error: error@ },
            Poll::Fail(e) => PollView::Fail(e@),
        }
    }
}

pub open spec fn command_error_message(status: DfuStatus) -> Seq<char> {
    "device error after command: "@ + status.spec_name()
}

pub open spec fn command_state_message(state: DfuState) -> Seq<char> {
    "unexpected state after command: "@ + state.spec_name()
}

pub open spec fn block_error_message(status: DfuStatus) -> Seq<char> {
    "device entered error state: "@ + status.spec_name()
}

pub open spec fn bad_status_message(status: DfuStatus) -> Seq<char> {
    "bad status: "@ + status.spec_name()
}

pub open spec fn download_state_message(state: DfuState) -> Seq<char> {
    "unexpected state during download: "@ + state.spec_name()
}

pub open spec fn manifest_error_message(status: DfuStatus) -> Seq<char> {
    "device entered error state during manifest: "@ + status.spec_name()
}

pub open spec fn manifest_state_message(state: DfuState) -> Seq<char> {
    "unexpected state during manifest: "@ + state.spec_name()
}

pub open spec fn not_idle_after_clear_message() -> Seq<char> {
    "device did not return to idle after clear"@
}

pub open spec fn detach_message() -> Seq<char> {
    "device must re-enumerate as DFU device after detach, please re-run"@
}

pub open spec fn start_state_message(state: DfuState) -> Seq<char> {
    "unexpected state at start of download: "@ + state.spec_name()
}

/// Waiting for a DfuSe command (block 0) to complete.
pub open spec fn spec_poll_after_command(r: DfuStatusResponse) -> PollView {
    match r.state {
        DfuState::DfuDownloadBusy => PollView::Wait { ms: r.poll_timeout_ms },
        DfuState::DfuDownloadIdle => PollView::Ready,
        DfuState::DfuError => PollView::Fail(DfuErrorView::Protocol(command_error_message(r.status))),
        _ => PollView::Fail(DfuErrorView::Protocol(command_state_message(r.state))),
    }
}

/// Waiting for the firmware block numbered `block` to be written. A busy
/// device that reports a bad status is waited for once more, then given up.
pub open spec fn spec_poll_during_download(r: DfuStatusResponse, block: u16) -> PollView {
    match r.state {
        DfuState::DfuDownloadIdle => PollView::Ready,
        DfuState::DfuDownloadBusy => if r.status == DfuStatus::NoError {
            PollView::Wait { ms: r.poll_timeout_ms }
        } else {
            PollView::WaitThenFail {
                ms: r.poll_timeout_ms,
                error: DfuErrorView::TransferFailed {
                    block: block as u32,
                    reason: bad_status_message(r.status),
                },
            }
        },
        DfuState::DfuError => PollView::Fail(
            DfuErrorView::TransferFailed { block: block as u32, reason: block_error_message(r.status) },
        ),
        _ => PollView::Fail(DfuErrorView::Protocol(download_state_message(r.state))),
    }
}

/// Waiting for the device to manifest the new firmware.
pub open spec fn spec_poll_during_manifest(r: DfuStatusResponse) -> PollView {
    match r.state {
        DfuState::DfuManifest | DfuState::DfuManifestSync => PollView::Wait {
            ms: r.poll_timeout_ms,
        },
        DfuState::DfuManifestWaitReset | DfuState::DfuIdle => PollView::Ready,
        DfuState::DfuError => PollView::Fail(
            DfuErrorView::DeviceError(manifest_error_message(r.status)),
        ),
        _ => PollView::Fail(DfuErrorView::Protocol(manifest_state_message(r.state))),
    }
}

/// Reads a status reply while a DfuSe command completes.
pub fn poll_after_command(r: &DfuStatusResponse) -> (res: Poll)
    ensures
        res@ == spec_poll_after_command(*r),
{
    match r.state {
        DfuState::DfuDownloadBusy => Poll::Wait { ms: r.poll_timeout_ms },
        DfuState::DfuDownloadIdle => Poll::Ready,
        DfuState::DfuError => Poll::Fail(
            DfuError::Protocol(joined("device error after command: ", r.status.name())),
        ),
        _ => Poll::Fail(DfuError::Protocol(joined("unexpected state after command: ", r.state.name()))),
    }
}

/// Reads a status reply while the firmware block numbered `block` is
/// written.
pub fn poll_during_download(r: &DfuStatusResponse, block: u16) -> (res: Poll)
    ensures
        res@ == spec_poll_during_download(*r, block),
{
    match r.state {
        DfuState::DfuDownloadIdle => Poll::Ready,
        DfuState::DfuDownloadBusy => {
            if r.status == DfuStatus::NoError {
                Poll::Wait { ms: r.poll_timeout_ms }
            } else {
                Poll::WaitThenFail {
                    ms: r.poll_timeout_ms,
                    error: DfuError::TransferFailed {
                        block: block as u32,
                        reason: joined("bad status: ", r.status.name()),
                    },
                }
            }
        },
        DfuState::DfuError => Poll::Fail(
            DfuError::TransferFailed {
                block: block as u32,
                reason: joined("device entered error state: ", r.status.name()),
            },
        ),
        _ => Poll::Fail(
            DfuError::Protocol(joined("unexpected state during download: ", r.state.name())),
        ),
    }
}

/// Reads a status reply while the device manifests the new firmware.
pub fn poll_during_manifest(r: &DfuStatusResponse) -> (res: Poll)
    ensures
        res@ == spec_poll_during_manifest(*r),
{
    match r.state {
        DfuState::DfuManifest | DfuState::DfuManifestSync => Poll::Wait { ms: r.poll_timeout_ms },
        DfuState::DfuManifestWaitReset | DfuState::DfuIdle => Poll::Ready,
        DfuState::DfuError => Poll::Fail(
            DfuError::DeviceError(
                joined("device entered error state during manifest: ", r.status.name()),
            ),
        ),
        _ => Poll::Fail(
            DfuError::Protocol(joined("unexpected state during manifest: ", r.state.name())),
        ),
    }
}

} // verus!

verus! {

// ---------------------------------------------------------------------------
// The download session
// ---------------------------------------------------------------------------

/// A DfuSe command sent as a download of block 0.
#[derive(Debug, Clone, Copy, PartialEq, Eq, Structural)]
pub enum Command {
    MassErase,
    SetAddress,
}

/// Where a download session stands: what it last asked for.
#[derive(Debug, Clone, Copy, PartialEq, Eq, Structural)]
pub enum Phase {
    /// Nothing asked yet.
    Start,
    /// Asked for the status before the download.
    Entering,
    /// Asked to clear the error status.
    Clearing,
    /// Asked for the status after clearing it.
    Rechecking,
    /// Asked the application to detach.
    Detaching,
    /// Asked to abort, having found the device in the given state.
    Aborting(DfuState),
    /// Sent the command.
    Commanding(Command),
    /// Asked for the status while the command completes.
    CommandPolling(Command),
    /// Asked for a pause while the command completes.
    CommandWaiting(Command),
    /// Sent the firmware block with this index.
    Sending(usize),
    /// Asked for the status while that block is written.
    Polling(usize),
    /// Asked for a pause while that block is written.
    Waiting(usize),
    /// Asked for a last pause before giving up on that block, whose status
    /// was bad.
    Failing(usize, DfuStatus),
    /// Reported the progress after that block.
    Reporting(usize),
    /// Sent the empty block that ends the firmware.
    Ending,
    /// Asked for the status while the device manifests.
    Manifesting,
    /// Asked for a pause while the device manifests.
    ManifestWaiting,
    /// Done, for good or bad.
    Finished,
}

/// What the session asks its caller to do next.
#[derive(Debug)]
pub enum Action {
    /// Issue `DFU_GETSTATUS` and report the decoded reply.
    GetStatus,
    /// Issue `DFU_CLRSTATUS`.
    ClearStatus,
    /// Issue `DFU_DETACH`.
    Detach,
    /// Issue `DFU_ABORT`.
    Abort,
    /// Issue `DFU_DNLOAD` of block `block` carrying `payload`.
    Download { block: u16, payload: Vec<u8> },
    /// Pause for `ms` milliseconds.
    Sleep { ms: u32 },
    /// Tell the user how far the download is.
    Progress(TransferProgress),
    /// Stop: the download succeeded or failed.
    Finish(Result<(), DfuError>),
}

/// What the caller reports back after doing what was asked.
#[derive(Debug)]
pub enum Event {
    /// The action was carried out.
    Done,
    /// `DFU_GETSTATUS` was answered with this reply.
    Status(DfuStatusResponse),
    /// The action failed.
    Failed(DfuError),
}

pub enum ActionView {
    GetStatus,
    ClearStatus,
    Detach,
    Abort,
    Download { block: u16, payload: Seq<u8> },
    Sleep { ms: u32 },
    Progress(TransferProgress),
    Finish(Result<(), DfuErrorView>),
}

pub enum EventView {
    Done,
    Status(DfuStatusResponse),
    Failed(DfuErrorView),
}

impl View for Action {
    type V = ActionView;

    open spec fn view(&self) -> ActionView {
        match self {
            Action::GetStatus => ActionView::GetStatus,
            Action::ClearStatus => ActionView::ClearStatus,
            Action::Detach => ActionView::Detach,
            Action::Abort => ActionView::Abort,
            Action::Download { block, payload } => ActionView::Download {
                block: *block,
                payload: payload@,
            },
            Action::Sleep { ms } => ActionView::Sleep { ms: *ms },
            Action::Progress(p) => ActionView::Progress(*p),
            Action::Finish(r) => ActionView::Finish(viewed(*r)),
        }
    }
}

impl View for Event {
    type V = EventView;

    open spec fn view(&self) -> EventView {
        match self {
            Event::Done => EventView::Done,
            Event::Status(r) => EventView::Status(*r),
            Event::Failed(e) => EventView::Failed(e@),
        }
    }
}

/// The abstract state of a download session.
pub struct SessionView {
    /// The firmware blocks, in order.
    pub chunks: Seq<Seq<u8>>,
    /// Size of the image.
    pub total: nat,
    /// Flash address where the image goes.
    pub address: u32,
    /// Whether the flash is erased first.
    pub erase: bool,
    pub phase: Phase,
    /// Firmware bytes accepted by the device so far.
    pub sent: nat,
}

impl SessionView {
    /// The session's bookkeeping is consistent: block numbers fit, the
    /// byte counts add up, and an indexed phase names an existing block.
    pub open spec fn wf(self) -> bool {
        &&& self.chunks.len() <= MAX_DATA_BLOCKS
        &&& self.total == self.chunks.flatten().len()
        &&& self.total <= usize::MAX
        &&& self.sent <= self.total
        &&& match self.phase {
            Phase::Sending(i) | Phase::Polling(i) | Phase::Waiting(i) | Phase::Failing(i, _) => {
                &&& i < self.chunks.len()
                &&& self.sent == self.chunks.take(i as int).flatten().len()
            },
            Phase::Reporting(i) => {
                &&& i < self.chunks.len()
                &&& self.sent == self.chunks.take(i + 1).flatten().len()
            },
            Phase::Ending | Phase::Manifesting | Phase::ManifestWaiting => self.sent == self.total,
            Phase::Finished => true,
            _ => self.sent == 0,
        }
    }

    /// Whether the session expects this kind of report now: a status reply
    /// after asking for one, a plain completion after anything else, a
    /// failure at any time before it finished.
    pub open spec fn accepts(self, e: EventView) -> bool {
        match self.phase {
            Phase::Finished => false,
            Phase::Entering | Phase::Rechecking | Phase::CommandPolling(_) | Phase::Polling(_)
            | Phase::Manifesting => e is Status || e is Failed,
            _ => e is Done || e is Failed,
        }
    }

    pub open spec fn with(self, phase: Phase, sent: nat) -> SessionView {
        SessionView { phase, sent, ..self }
    }

    /// Send the firmware block with index `i`, or the closing empty block
    /// after the last one.
    pub open spec fn send_block(self, i: nat) -> (SessionView, ActionView) {
        if i < self.chunks.len() {
            (
                self.with(Phase::Sending(i as usize), self.sent),
                ActionView::Download { block: (i + 2) as u16, payload: self.chunks[i as int] },
            )
        } else {
            (
                self.with(Phase::Ending, self.sent),
                ActionView::Download {
                    block: (self.chunks.len() + 2) as u16,
                    payload: Seq::empty(),
                },
            )
        }
    }

    /// Send a DfuSe command.
    pub open spec fn command(self, c: Command) -> (SessionView, ActionView) {
        (
            self.with(Phase::Commanding(c), self.sent),
            ActionView::Download {
                block: 0,
                payload: match c {
                    Command::MassErase => seq![STM32_CMD_ERASE_ALL],
                    Command::SetAddress => spec_set_address_command(self.address),
                },
            },
        )
    }

    /// The device is idle in DFU mode: erase if asked, then set the address.
    pub open spec fn after_entry(self) -> (SessionView, ActionView) {
        if self.erase {
            self.command(Command::MassErase)
        } else {
            self.command(Command::SetAddress)
        }
    }

    /// A command completed: after the erase comes the address, after the
    /// address the first firmware block.
    pub open spec fn after_command(self, c: Command) -> (SessionView, ActionView) {
        match c {
            Command::MassErase => self.command(Command::SetAddress),
            Command::SetAddress => self.send_block(0),
        }
    }

    pub open spec fn finish(self, r: Result<(), DfuErrorView>) -> (SessionView, ActionView) {
        (self.with(Phase::Finished, self.sent), ActionView::Finish(r))
    }

    pub open spec fn ask_status(self, phase: Phase) -> (SessionView, ActionView) {
        (self.with(phase, self.sent), ActionView::GetStatus)
    }

    /// One step: the next state and the next action, given what the caller
    /// reports.
    pub open spec fn step(self, e: EventView) -> (SessionView, ActionView) {
        match e {
            EventView::Failed(err) => if (self.phase is Ending || self.phase is Manifesting) && err
                == DfuErrorView::Usb(UsbError::Io) {
                // The device resets once it has the whole image; the host
                // sees that as an I/O error.
                self.finish(Ok(()))
            } else {
                self.finish(Err(err))
            },
            EventView::Done => match self.phase {
                Phase::Start => self.ask_status(Phase::Entering),
                Phase::Clearing => self.ask_status(Phase::Rechecking),
                Phase::Detaching => self.finish(Err(DfuErrorView::Protocol(detach_message()))),
                Phase::Aborting(st) => self.finish(
                    Err(DfuErrorView::Protocol(start_state_message(st))),
                ),
                Phase::Commanding(c) => self.ask_status(Phase::CommandPolling(c)),
                Phase::CommandWaiting(c) => self.ask_status(Phase::CommandPolling(c)),
                Phase::Sending(i) => self.ask_status(Phase::Polling(i)),
                Phase::Waiting(i) => self.ask_status(Phase::Polling(i)),
                Phase::Failing(i, st) => self.finish(
                    Err(
                        DfuErrorView::TransferFailed {
                            block: (i + 2) as u32,
                            reason: bad_status_message(st),
                        },
                    ),
                ),
                Phase::Reporting(i) => self.send_block((i + 1) as nat),
                Phase::Ending => self.ask_status(Phase::Manifesting),
                Phase::ManifestWaiting => self.ask_status(Phase::Manifesting),
                _ => self.finish(Ok(())),
            },
            EventView::Status(r) => match self.phase {
                Phase::Entering => match spec_entry_step(r.state) {
                    EntryStep::Ready => self.after_entry(),
                    EntryStep::ClearError => (
                        self.with(Phase::Clearing, self.sent),
                        ActionView::ClearStatus,
                    ),
                    EntryStep::Detach => (self.with(Phase::Detaching, self.sent), ActionView::Detach),
                    EntryStep::Abort => (
                        self.with(Phase::Aborting(r.state), self.sent),
                        ActionView::Abort,
                    ),
                },
                Phase::Rechecking => if r.state == DfuState::DfuIdle {
                    self.after_entry()
                } else {
                    self.finish(Err(DfuErrorView::Protocol(not_idle_after_clear_message())))
                },
                Phase::CommandPolling(c) => match spec_poll_after_command(r) {
                    PollView::Ready => self.after_command(c),
                    PollView::Wait { ms } => (
                        self.with(Phase::CommandWaiting(c), self.sent),
                        ActionView::Sleep { ms },
                    ),
                    PollView::WaitThenFail { ms, error } => self.finish(Err(error)),
                    PollView::Fail(error) => self.finish(Err(error)),
                },
                Phase::Polling(i) => match spec_poll_during_download(r, (i + 2) as u16) {
                    PollView::Ready => {
                        let sent = self.sent + self.chunks[i as int].len();
                        (
                            self.with(Phase::Reporting(i), sent),
                            ActionView::Progress(
                                TransferProgress {
                                    bytes_sent: sent as usize,
                                    total_bytes: self.total as usize,
                                    block_num: (i + 3) as u16,
                                },
                            ),
                        )
                    },
                    PollView::Wait { ms } => (
                        self.with(Phase::Waiting(i), self.sent),
                        ActionView::Sleep { ms },
                    ),
                    PollView::WaitThenFail { ms, error } => (
                        self.with(Phase::Failing(i, r.status), self.sent),
                        ActionView::Sleep { ms },
                    ),
                    PollView::Fail(error) => self.finish(Err(error)),
                },
                Phase::Manifesting => match spec_poll_during_manifest(r) {
                    PollView::Ready => self.finish(Ok(())),
                    PollView::Wait { ms } => (
                        self.with(Phase::ManifestWaiting, self.sent),
                        ActionView::Sleep { ms },
                    ),
                    PollView::WaitThenFail { ms, error } => self.finish(Err(error)),
                    PollView::Fail(error) => self.finish(Err(error)),
                },
                _ => self.finish(Ok(())),
            },
        }
    }
}

/// Every step keeps a consistent session consistent.
pub proof fn lemma_step_preserves_wf(s: SessionView, e: EventView)
    requires
        s.wf(),
        s.accepts(e),
    ensures
        s.step(e).0.wf(),
{
    let chunks = s.chunks;
    assert(chunks.take(0) == Seq::<Seq<u8>>::empty());
    assert(chunks.take(chunks.len() as int) == chunks);
    match s.phase {
        Phase::Reporting(i) => {
            if i + 1 < chunks.len() {
                lemma_prefix_bytes(chunks, i + 1);
            }
        },
        Phase::Polling(i) => {
            lemma_prefix_bytes(chunks, i as int);
        },
        _ => {},
    }
}

/// A session finishes exactly when it says `Finish`, and a finished session
/// takes no further report.
pub proof fn lemma_finish_is_final(s: SessionView, e: EventView, later: EventView)
    requires
        s.accepts(e),
    ensures
        (s.step(e).1 is Finish) <==> (s.step(e).0.phase is Finished),
        s.step(e).0.phase is Finished ==> !s.step(e).0.accepts(later),
{
}

/// What a session downloads: DfuSe commands as block 0, never block 1, the
/// firmware block with index `k` as block `k + 2`, and after the last one an
/// empty block. The blocks themselves never change.
pub proof fn lemma_download_payloads(s: SessionView, e: EventView)
    requires
        s.wf(),
        s.accepts(e),
    ensures
        s.step(e).0.chunks == s.chunks,
        s.step(e).0.total == s.total,
        s.step(e).1 matches ActionView::Download { block, payload } ==> {
            &&& block != 1
            &&& block == 0 ==> (payload == seq![STM32_CMD_ERASE_ALL] || payload
                == spec_set_address_command(s.address))
            &&& block >= 2 ==> {
                ||| (block - 2 < s.chunks.len() && payload == s.chunks[block - 2])
                ||| (block - 2 == s.chunks.len() && payload.len() == 0)
            }
        },
{
}

/// Progress is reported after each firmware block: the bytes of all blocks
/// up to and including it, out of the image's size; after the last block
/// that is the whole image.
pub proof fn lemma_progress_reports(s: SessionView, e: EventView)
    requires
        s.wf(),
        s.accepts(e),
    ensures
        s.step(e).1 matches ActionView::Progress(p) ==> {
            &&& 3 <= p.block_num <= s.chunks.len() + 2
            &&& p.bytes_sent == s.chunks.take(p.block_num - 2).flatten().len()
            &&& p.bytes_sent <= p.total_bytes
            &&& p.total_bytes == s.total
            &&& p.block_num == s.chunks.len() + 2 ==> p.bytes_sent == p.total_bytes
        },
{
    if let Phase::Polling(i) = s.phase {
        lemma_prefix_bytes(s.chunks, i as int);
        assert(s.chunks.take(s.chunks.len() as int) == s.chunks);
    }
}

/// Once the last block is out, the device resets to run the new firmware,
/// which the host sees as an I/O error: that error ends the download
/// successfully. Any other failure ends it with that failure.
pub proof fn lemma_failures(s: SessionView, err: DfuErrorView)
    requires
        s.accepts(EventView::Failed(err)),
    ensures
        s.step(EventView::Failed(err)).1 == if (s.phase is Ending || s.phase is Manifesting) && err
            == DfuErrorView::Usb(UsbError::Io) {
            ActionView::Finish(Ok(()))
        } else {
            ActionView::Finish(Err(err))
        },
{
}

/// At the start of a download, a device in dfuIDLE is used as it is, one
/// in dfuERROR is cleared, one running its application (appIDLE) is asked
/// to detach, and one in any other state is aborted.
pub proof fn lemma_entry_decisions(state: DfuState)
    ensures
        (spec_entry_step(state) == EntryStep::Ready) <==> (state == DfuState::DfuIdle),
        (spec_entry_step(state) == EntryStep::ClearError) <==> (state == DfuState::DfuError),
        (spec_entry_step(state) == EntryStep::Detach) <==> (state == DfuState::AppIdle),
        (spec_entry_step(state) == EntryStep::Abort) <==> (state != DfuState::DfuIdle && state
            != DfuState::DfuError && state != DfuState::AppIdle),
{
}

/// What a session does with the status reply that it asked for before the
/// download: a DfuSe command to block 0 only from dfuIDLE, a clear from
/// dfuERROR, a detach from appIDLE, an abort from any other state.
pub proof fn lemma_entry_actions(s: SessionView, r: DfuStatusResponse)
    requires
        s.phase == Phase::Entering,
    ensures
        s.step(EventView::Status(r)).1 matches ActionView::Download { block, .. } ==> block == 0
            && r.state == DfuState::DfuIdle,
        s.step(EventView::Status(r)).1 is ClearStatus <==> r.state == DfuState::DfuError,
        s.step(EventView::Status(r)).1 is Detach <==> r.state == DfuState::AppIdle,
        s.step(EventView::Status(r)).1 is Abort <==> (r.state != DfuState::DfuIdle && r.state
            != DfuState::DfuError && r.state != DfuState::AppIdle),
        r.state == DfuState::DfuIdle ==> s.step(EventView::Status(r)).1 is Download,
{
}

/// A firmware block that the device is still writing (dfuDNBUSY, status
/// OK) is waited for as long as the device asks, and then its status is
/// asked for again; nothing else happens meanwhile.
pub proof fn lemma_busy_block_is_waited_for(s: SessionView, i: usize, r: DfuStatusResponse)
    requires
        s.phase == Phase::Polling(i),
        r.state == DfuState::DfuDownloadBusy,
        r.status == DfuStatus::NoError,
    ensures
        s.step(EventView::Status(r)).1 == (ActionView::Sleep { ms: r.poll_timeout_ms }),
        s.step(EventView::Status(r)).0.phase == Phase::Waiting(i),
        s.step(EventView::Status(r)).0.sent == s.sent,
        s.step(EventView::Status(r)).0.step(EventView::Done).1 == ActionView::GetStatus,
        s.step(EventView::Status(r)).0.step(EventView::Done).0.phase == Phase::Polling(i),
{
}

/// Progress for a firmware block is reported only on a dfuDNLOAD-IDLE reply
/// while that block's status is asked for, and the next block (or the
/// closing empty block) goes out only after that report: a block numbered
/// `b >= 3` is sent only from the report on block `b - 1`.
pub proof fn lemma_blocks_follow_idle(s: SessionView, e: EventView)
    requires
        s.wf(),
        s.accepts(e),
    ensures
        s.step(e).1 is Progress ==> (s.phase is Polling && e is Status && e->Status_0.state
            == DfuState::DfuDownloadIdle),
        s.step(e).0.phase is Reporting ==> (s.phase is Polling && e is Status && e->Status_0.state
            == DfuState::DfuDownloadIdle && s.step(e).0.phase == Phase::Reporting(
            s.phase->Polling_0,
        )),
        s.step(e).1 is Download && s.step(e).1->Download_block >= 3 ==> (s.phase
            == Phase::Reporting((s.step(e).1->Download_block - 3) as usize) && e is Done),
{
}

/// The flash is erased only when the session was asked to: without `erase`
/// no step sends the mass-erase command. After an error state was cleared
/// and the device is idle again, the session goes on exactly as it would
/// from an idle device at the start.
pub proof fn lemma_erase_only_when_asked(s: SessionView, e: EventView)
    requires
        s.wf(),
        s.accepts(e),
    ensures
        !s.erase ==> s.step(e).1 != (ActionView::Download {
            block: 0,
            payload: seq![STM32_CMD_ERASE_ALL],
        }),
        (s.phase == Phase::Rechecking && e is Status && e->Status_0.state == DfuState::DfuIdle)
            ==> s.step(e) == s.with(Phase::Entering, s.sent).step(e),
{
    if !s.erase {
        assert(spec_set_address_command(s.address).len() == 5);
        assert(seq![STM32_CMD_ERASE_ALL].len() == 1);
    }
}

/// While a DfuSe command completes, dfuDNBUSY means wait as long as the
/// device asks, dfuDNLOAD-IDLE means done, dfuERROR is a protocol error
/// naming the status, and any other state a protocol error naming it.
pub proof fn lemma_command_poll_table(r: DfuStatusResponse)
    ensures
        (spec_poll_after_command(r) is Ready) <==> r.state == DfuState::DfuDownloadIdle,
        (spec_poll_after_command(r) is Wait) <==> r.state == DfuState::DfuDownloadBusy,
        spec_poll_after_command(r) is Wait ==> spec_poll_after_command(r)->Wait_ms
            == r.poll_timeout_ms,
        !(spec_poll_after_command(r) is WaitThenFail),
        r.state == DfuState::DfuError ==> spec_poll_after_command(r) == PollView::Fail(
            DfuErrorView::Protocol("device error after command: "@ + r.status.spec_name()),
        ),
        (r.state != DfuState::DfuError && r.state != DfuState::DfuDownloadIdle && r.state
            != DfuState::DfuDownloadBusy) ==> spec_poll_after_command(r) == PollView::Fail(
            DfuErrorView::Protocol("unexpected state after command: "@ + r.state.spec_name()),
        ),
{
}

/// While firmware block `block` is written: dfuDNLOAD-IDLE means done;
/// dfuDNBUSY means wait as long as the device asks, and, when the status is
/// not OK, give up on that block after the wait; dfuERROR fails that block
/// naming the status; any other state is a protocol error naming it.
pub proof fn lemma_download_poll_table(r: DfuStatusResponse, block: u16)
    ensures
        (spec_poll_during_download(r, block) is Ready) <==> r.state == DfuState::DfuDownloadIdle,
        (spec_poll_during_download(r, block) is Wait) <==> (r.state == DfuState::DfuDownloadBusy
            && r.status == DfuStatus::NoError),
        (spec_poll_during_download(r, block) is WaitThenFail) <==> (r.state
            == DfuState::DfuDownloadBusy && r.status != DfuStatus::NoError),
        spec_poll_during_download(r, block) is Wait ==> spec_poll_during_download(r, block)->Wait_ms
            == r.poll_timeout_ms,
        spec_poll_during_download(r, block) is WaitThenFail ==> spec_poll_during_download(
            r,
            block,
        ) == (PollView::WaitThenFail {
            ms: r.poll_timeout_ms,
            error: DfuErrorView::TransferFailed {
                block: block as u32,
                reason: "bad status: "@ + r.status.spec_name(),
            },
        }),
        r.state == DfuState::DfuError ==> spec_poll_during_download(r, block) == PollView::Fail(
            DfuErrorView::TransferFailed {
                block: block as u32,
                reason: "device entered error state: "@ + r.status.spec_name(),
            },
        ),
        (r.state != DfuState::DfuError && r.state != DfuState::DfuDownloadIdle && r.state
            != DfuState::DfuDownloadBusy) ==> spec_poll_during_download(r, block) == PollView::Fail(
            DfuErrorView::Protocol("unexpected state during download: "@ + r.state.spec_name()),
        ),
{
}

/// While the device manifests: dfuMANIFEST and dfuMANIFEST-SYNC mean wait
/// as long as the device asks, dfuMANIFEST-WAIT-RESET and dfuIDLE mean
/// done, dfuERROR is a device error naming the status, any other state a
/// protocol error naming it.
pub proof fn lemma_manifest_poll_table(r: DfuStatusResponse)
    ensures
        (spec_poll_during_manifest(r) is Ready) <==> (r.state == DfuState::DfuManifestWaitReset
            || r.state == DfuState::DfuIdle),
        (spec_poll_during_manifest(r) is Wait) <==> (r.state == DfuState::DfuManifest || r.state
            == DfuState::DfuManifestSync),
        spec_poll_during_manifest(r) is Wait ==> spec_poll_during_manifest(r)->Wait_ms
            == r.poll_timeout_ms,
        !(spec_poll_during_manifest(r) is WaitThenFail),
        r.state == DfuState::DfuError ==> spec_poll_during_manifest(r) == PollView::Fail(
            DfuErrorView::DeviceError(
                "device entered error state during manifest: "@ + r.status.spec_name(),
            ),
        ),
        (r.state != DfuState::DfuError && !(spec_poll_during_manifest(r) is Ready)
            && !(spec_poll_during_manifest(r) is Wait)) ==> spec_poll_during_manifest(r)
            == PollView::Fail(
            DfuErrorView::Protocol("unexpected state during manifest: "@ + r.state.spec_name()),
        ),
{
}

/// How a session answers status replies after it sent a command or the
/// closing block: a busy command is waited for and asked about again, a
/// finished one is followed by the next command or the first firmware
/// block; a manifesting device is waited for, and a device that waits for
/// its reset or is idle ends the download successfully.
pub proof fn lemma_command_and_manifest_steps(s: SessionView, r: DfuStatusResponse)
    requires
        s.wf(),
    ensures
        s.phase is CommandPolling && r.state == DfuState::DfuDownloadBusy ==> {
            &&& s.step(EventView::Status(r)).1 == (ActionView::Sleep { ms: r.poll_timeout_ms })
            &&& s.step(EventView::Status(r)).0.phase == Phase::CommandWaiting(
                s.phase->CommandPolling_0,
            )
        },
        s.phase == Phase::CommandPolling(Command::MassErase) && r.state
            == DfuState::DfuDownloadIdle ==> s.step(EventView::Status(r)).1 == (
        ActionView::Download { block: 0, payload: spec_set_address_command(s.address) }),
        s.phase == Phase::CommandPolling(Command::SetAddress) && r.state
            == DfuState::DfuDownloadIdle ==> s.step(EventView::Status(r)).1 is Download
            && s.step(EventView::Status(r)).1->Download_block == FIRST_DATA_BLOCK,
        s.phase == Phase::Manifesting && (r.state == DfuState::DfuManifest || r.state
            == DfuState::DfuManifestSync) ==> s.step(EventView::Status(r)).1 == (ActionView::Sleep {
            ms: r.poll_timeout_ms,
        }) && s.step(EventView::Status(r)).0.phase == Phase::ManifestWaiting,
        s.phase == Phase::Manifesting && (r.state == DfuState::DfuManifestWaitReset || r.state
            == DfuState::DfuIdle) ==> s.step(EventView::Status(r)).1 == ActionView::Finish(Ok(())),
        s.phase == Phase::ManifestWaiting ==> s.step(EventView::Done).1 == ActionView::GetStatus
            && s.step(EventView::Done).0.phase == Phase::Manifesting,
{
}

/// The state and the actions after a sequence of reports, one step each.
pub open spec fn run(s: SessionView, events: Seq<EventView>) -> (SessionView, Seq<ActionView>)
    decreases events.len(),
{
    if events.len() == 0 {
        (s, Seq::empty())
    } else {
        let (mid, acts) = run(s, events.drop_last());
        let (next, a) = mid.step(events.last());
        (next, acts.push(a))
    }
}

/// Every report of the sequence was one that the session expected.
pub open spec fn accepted_run(s: SessionView, events: Seq<EventView>) -> bool
    decreases events.len(),
{
    events.len() == 0 || (accepted_run(s, events.drop_last()) && run(
        s,
        events.drop_last(),
    ).0.accepts(events.last()))
}

pub open spec fn is_data_download(a: ActionView) -> bool {
    a matches ActionView::Download { block, .. } && block >= 2
}

pub open spec fn is_set_address(a: ActionView, address: u32) -> bool {
    a == ActionView::Download { block: 0, payload: spec_set_address_command(address) }
}

pub open spec fn is_mass_erase(a: ActionView) -> bool {
    a == ActionView::Download { block: 0, payload: seq![STM32_CMD_ERASE_ALL] }
}

pub open spec fn set_address_before(acts: Seq<ActionView>, j: int, address: u32) -> bool {
    exists|k: int| 0 <= k < j && #[trigger] is_set_address(acts[k], address)
}

pub open spec fn mass_erase_before(acts: Seq<ActionView>, j: int) -> bool {
    exists|k: int| 0 <= k < j && #[trigger] is_mass_erase(acts[k])
}

/// Phases reached only after the address command went out.
pub open spec fn address_sent_phase(p: Phase) -> bool {
    match p {
        Phase::Commanding(c) | Phase::CommandPolling(c) | Phase::CommandWaiting(c) => c
            == Command::SetAddress,
        Phase::Sending(_) | Phase::Polling(_) | Phase::Waiting(_) | Phase::Failing(_, _)
        | Phase::Reporting(_) | Phase::Ending | Phase::Manifesting | Phase::ManifestWaiting => true,
        _ => false,
    }
}

/// Phases reached only after the erase command went out, when erasing.
pub open spec fn erase_sent_phase(p: Phase) -> bool {
    address_sent_phase(p) || p == Phase::Commanding(Command::MassErase) || p
        == Phase::CommandPolling(Command::MassErase) || p == Phase::CommandWaiting(
        Command::MassErase,
    )
}

pub open spec fn ordering_inv(s0: SessionView, s: SessionView, acts: Seq<ActionView>) -> bool {
    &&& s.address == s0.address
    &&& s.erase == s0.erase
    &&& forall|j: int|
        0 <= j < acts.len() && #[trigger] is_data_download(acts[j]) ==> set_address_before(
            acts,
            j,
            s.address,
        )
    &&& address_sent_phase(s.phase) ==> set_address_before(acts, acts.len() as int, s.address)
    &&& s.erase ==> forall|j: int|
        0 <= j < acts.len() && #[trigger] is_set_address(acts[j], s.address) ==> mass_erase_before(
            acts,
            j,
        )
    &&& s.erase && erase_sent_phase(s.phase) ==> mass_erase_before(acts, acts.len() as int)
}

proof fn lemma_ordering_step(s0: SessionView, s: SessionView, acts: Seq<ActionView>, e: EventView)
    requires
        ordering_inv(s0, s, acts),
        s.accepts(e),
    ensures
        ordering_inv(s0, s.step(e).0, acts.push(s.step(e).1)),
{
    let (next, a) = s.step(e);
    let acts2 = acts.push(a);
    let n = acts.len() as int;
    assert forall|k: int| 0 <= k < n implies acts2[k] == acts[k] by {}
    assert(acts2[n] == a);
    // Witnesses found among the old actions stay witnesses.
    if set_address_before(acts, n, s.address) {
        let k = choose|k: int| 0 <= k < n && #[trigger] is_set_address(acts[k], s.address);
        assert(is_set_address(acts2[k], s.address));
    }
    if mass_erase_before(acts, n) {
        let k = choose|k: int| 0 <= k < n && #[trigger] is_mass_erase(acts[k]);
        assert(is_mass_erase(acts2[k]));
    }
    assert forall|j: int|
        0 <= j < acts2.len() && #[trigger] is_data_download(acts2[j]) implies set_address_before(
        acts2,
        j,
        next.address,
    ) by {
        if j < n {
            assert(is_data_download(acts[j]));
            let k = choose|k: int| 0 <= k < j && #[trigger] is_set_address(acts[k], s.address);
            assert(is_set_address(acts2[k], s.address));
        }
    }
    if next.erase {
        assert forall|j: int|
            0 <= j < acts2.len() && #[trigger] is_set_address(acts2[j], next.address) implies mass_erase_before(
            acts2,
            j,
        ) by {
            if j < n {
                assert(is_set_address(acts[j], s.address));
                let k = choose|k: int| 0 <= k < j && #[trigger] is_mass_erase(acts[k]);
                assert(is_mass_erase(acts2[k]));
            } else {
                assert(!is_set_address(a, s.address) || erase_sent_phase(s.phase)) by {
                    if is_set_address(a, s.address) {
                        assert(spec_set_address_command(s.address).len() == 5);
                        assert(seq![STM32_CMD_ERASE_ALL].len() == 1);
                    }
                }
            }
        }
    }
    if address_sent_phase(next.phase) && !address_sent_phase(s.phase) {
        assert(is_set_address(a, s.address));
        assert(is_set_address(acts2[n], s.address));
    }
    if next.erase && erase_sent_phase(next.phase) && !erase_sent_phase(s.phase) {
        assert(is_mass_erase(a));
        assert(is_mass_erase(acts2[n]));
    }
}

proof fn lemma_ordering_run(s0: SessionView, events: Seq<EventView>)
    requires
        s0.phase == Phase::Start,
        accepted_run(s0, events),
    ensures
        ordering_inv(s0, run(s0, events).0, run(s0, events).1),
    decreases events.len(),
{
    if events.len() > 0 {
        lemma_ordering_run(s0, events.drop_last());
        let (mid, acts) = run(s0, events.drop_last());
        lemma_ordering_step(s0, mid, acts, events.last());
    }
}

/// Over any run from the start, firmware blocks go out only after the
/// command that sets the flash address, and when the session erases, the
/// address is set only after the erase command.
pub proof fn lemma_commands_precede_data(s0: SessionView, events: Seq<EventView>)
    requires
        s0.phase == Phase::Start,
        accepted_run(s0, events),
    ensures
        forall|j: int|
            0 <= j < run(s0, events).1.len() && #[trigger] is_data_download(run(s0, events).1[j])
                ==> set_address_before(run(s0, events).1, j, s0.address),
        s0.erase ==> forall|j: int|
            0 <= j < run(s0, events).1.len() && #[trigger] is_set_address(
                run(s0, events).1[j],
                s0.address,
            ) ==> mass_erase_before(run(s0, events).1, j),
{
    lemma_ordering_run(s0, events);
}

/// Each action of a run is the step, on that action's report, of the state
/// that the earlier reports led to; a consistent start stays consistent.
pub proof fn lemma_run_steps(s0: SessionView, events: Seq<EventView>, j: int)
    requires
        s0.wf(),
        accepted_run(s0, events),
        0 <= j < events.len(),
    ensures
        run(s0, events).1.len() == events.len(),
        run(s0, events.take(j)).0.wf(),
        run(s0, events.take(j)).0.accepts(events[j]),
        run(s0, events).1[j] == run(s0, events.take(j)).0.step(events[j]).1,
    decreases events.len(),
{
    let prefix = events.drop_last();
    lemma_run_len(s0, events);
    if j < events.len() - 1 {
        lemma_run_steps(s0, prefix, j);
        assert(prefix.take(j) == events.take(j));
        assert(prefix[j] == events[j]);
    } else {
        assert(events.take(j) == prefix);
        lemma_run_wf(s0, prefix);
    }
}

proof fn lemma_run_len(s0: SessionView, events: Seq<EventView>)
    ensures
        run(s0, events).1.len() == events.len(),
    decreases events.len(),
{
    if events.len() > 0 {
        lemma_run_len(s0, events.drop_last());
    }
}

proof fn lemma_run_wf(s0: SessionView, events: Seq<EventView>)
    requires
        s0.wf(),
        accepted_run(s0, events),
    ensures
        run(s0, events).0.wf(),
    decreases events.len(),
{
    if events.len() > 0 {
        lemma_run_wf(s0, events.drop_last());
        lemma_step_preserves_wf(run(s0, events.drop_last()).0, events.last());
    }
}

/// Over any run of a session that was not asked to erase, the mass-erase
/// command is never sent; and progress is only ever reported in answer to
/// a dfuDNLOAD-IDLE status reply.
pub proof fn lemma_run_erase_and_progress(s0: SessionView, events: Seq<EventView>)
    requires
        s0.wf(),
        accepted_run(s0, events),
    ensures
        !s0.erase ==> forall|j: int|
            0 <= j < run(s0, events).1.len() ==> !is_mass_erase(#[trigger] run(s0, events).1[j]),
        forall|j: int|
            0 <= j < run(s0, events).1.len() && #[trigger] run(s0, events).1[j] is Progress
                ==> events[j] is Status && events[j]->Status_0.state == DfuState::DfuDownloadIdle,
{
    lemma_run_len(s0, events);
    assert forall|j: int| 0 <= j < run(s0, events).1.len() implies {
        &&& (!s0.erase ==> !is_mass_erase(#[trigger] run(s0, events).1[j]))
        &&& (run(s0, events).1[j] is Progress ==> events[j] is Status && events[j]->Status_0.state
            == DfuState::DfuDownloadIdle)
    } by {
        lemma_run_steps(s0, events, j);
        let mid = run(s0, events.take(j)).0;
        lemma_run_keeps_settings(s0, events.take(j));
        lemma_erase_only_when_asked(mid, events[j]);
        lemma_blocks_follow_idle(mid, events[j]);
    }
}

proof fn lemma_run_keeps_settings(s0: SessionView, events: Seq<EventView>)
    ensures
        run(s0, events).0.erase == s0.erase,
        run(s0, events).0.address == s0.address,
    decreases events.len(),
{
    if events.len() > 0 {
        lemma_run_keeps_settings(s0, events.drop_last());
    }
}

/// The state of a new session for `data`, written at `address`.
pub open spec fn initial_session(data: Seq<u8>, address: u32, erase: bool) -> SessionView {
    SessionView {
        chunks: spec_chunks(data, DFU_BLOCK_SIZE as nat),
        total: data.len(),
        address,
        erase,
        phase: Phase::Start,
        sent: 0,
    }
}

/// The blocks of a new session hold the image, in order and nothing else;
/// every step keeps them, so the firmware blocks that a session downloads
/// are the image cut into consecutive pieces.
pub proof fn lemma_session_blocks_hold_image(data: Seq<u8>, address: u32, erase: bool)
    ensures
        initial_session(data, address, erase).chunks.flatten() == data,
        forall|k: int|
            0 <= k < initial_session(data, address, erase).chunks.len() ==> 1 <= (
            #[trigger] initial_session(data, address, erase).chunks[k]).len() <= DFU_BLOCK_SIZE,
{
    lemma_chunks_partition(data, DFU_BLOCK_SIZE as nat);
}

#[derive(Clone, Copy)]
struct Cursor {
    phase: Phase,
    sent: usize,
}

/// One download of a firmware image, driven by the caller: the session
/// says what to do, the caller does it and reports back.
pub struct DownloadSession {
    chunks: Vec<Vec<u8>>,
    total_bytes: usize,
    address: u32,
    erase: bool,
    cursor: Cursor,
}

impl View for DownloadSession {
    type V = SessionView;

    closed spec fn view(&self) -> SessionView {
        SessionView {
            chunks: byte_views(self.chunks@),
            total: self.total_bytes as nat,
            address: self.address,
            erase: self.erase,
            phase: self.cursor.phase,
            sent: self.cursor.sent as nat,
        }
    }
}

/// Bytes in the first `i` blocks, and in the first `i + 1`.
proof fn lemma_prefix_bytes(chunks: Seq<Seq<u8>>, i: int)
    requires
        0 <= i < chunks.len(),
    ensures
        chunks.take(i + 1).flatten().len() == chunks.take(i).flatten().len() + chunks[i].len(),
        chunks.take(i + 1).flatten().len() <= chunks.flatten().len(),
{
    assert(chunks.take(i + 1) == chunks.take(i).push(chunks[i]));
    chunks.take(i).lemma_flatten_push(chunks[i]);
    assert(chunks == chunks.take(i + 1) + chunks.skip(i + 1));
    lemma_flatten_concat(chunks.take(i + 1), chunks.skip(i + 1));
}

impl DownloadSession {
    #[verifier::type_invariant]
    spec fn inv(self) -> bool {
        self@.wf()
    }

    /// A session that writes `firmware` at `address`, erasing the flash first
    /// when `erase` is set. The image must fit in the block numbers.
    pub fn new(firmware: &Firmware, address: u32, erase: bool) -> (res: DownloadSession)
        requires
            firmware.data@.len() <= MAX_DATA_BLOCKS * DFU_BLOCK_SIZE,
        ensures
            res@ == initial_session(firmware.data@, address, erase),
    {
        let chunks = firmware.chunks(DFU_BLOCK_SIZE);
        proof {
            lemma_chunk_count(firmware.data@, DFU_BLOCK_SIZE as nat, MAX_DATA_BLOCKS as nat);
            lemma_chunks_partition(firmware.data@, DFU_BLOCK_SIZE as nat);
        }
        DownloadSession {
            chunks,
            total_bytes: firmware.size(),
            address,
            erase,
            cursor: Cursor { phase: Phase::Start, sent: 0 },
        }
    }

    /// Whether the session expects `event` now.
    pub fn accepts(&self, event: &Event) -> (res: bool)
        ensures
            res == self@.accepts(event@),
    {
        match self.cursor.phase {
            Phase::Finished => false,
            Phase::Entering | Phase::Rechecking | Phase::CommandPolling(_) | Phase::Polling(_)
            | Phase::Manifesting => match event {
                Event::Done => false,
                _ => true,
            },
            _ => match event {
                Event::Status(_) => false,
                _ => true,
            },
        }
    }

    fn send_block(&self, i: usize) -> (res: (Cursor, Action))
        requires
            self@.wf(),
            i <= self@.chunks.len(),
            i < self@.chunks.len() ==> self.cursor.sent == self@.chunks.take(i as int).flatten().len(),
        ensures
            ({
                let (v, a) = self@.send_block(i as nat);
                res.0.phase == v.phase && res.0.sent == v.sent && res.1@ == a
            }),
    {
        let n = self.chunks.len();
        if i < n {
            let len = self.chunks[i].len();
            let payload = copy_range(self.chunks[i].as_slice(), 0, len);
            proof {
                assert(payload@ == self.chunks@[i as int]@);
            }
            (
                Cursor { phase: Phase::Sending(i), sent: self.cursor.sent },
                Action::Download { block: (i + 2) as u16, payload },
            )
        } else {
            (
                Cursor { phase: Phase::Ending, sent: self.cursor.sent },
                Action::Download { block: (n + 2) as u16, payload: Vec::new() },
            )
        }
    }

    fn command(&self, c: Command) -> (res: (Cursor, Action))
        ensures
            ({
                let (v, a) = self@.command(c);
                res.0.phase == v.phase && res.0.sent == v.sent && res.1@ == a
            }),
    {
        let payload = match c {
            Command::MassErase => mass_erase_command(),
            Command::SetAddress => set_address_command(self.address),
        };
        (Cursor { phase: Phase::Commanding(c), sent: self.cursor.sent }, Action::Download { block: 0, payload })
    }

    fn after_entry(&self) -> (res: (Cursor, Action))
        ensures
            ({
                let (v, a) = self@.after_entry();
                res.0.phase == v.phase && res.0.sent == v.sent && res.1@ == a
            }),
    {
        if self.erase {
            self.command(Command::MassErase)
        } else {
            self.command(Command::SetAddress)
        }
    }

    fn finish(&self, r: Result<(), DfuError>) -> (res: (Cursor, Action))
        ensures
            ({
                let (v, a) = self@.finish(viewed(r));
                res.0.phase == v.phase && res.0.sent == v.sent && res.1@ == a
            }),
    {
        (Cursor { phase: Phase::Finished, sent: self.cursor.sent }, Action::Finish(r))
    }

    fn ask_status(&self, phase: Phase) -> (res: (Cursor, Action))
        ensures
            ({
                let (v, a) = self@.ask_status(phase);
                res.0.phase == v.phase && res.0.sent == v.sent && res.1@ == a
            }),
    {
        (Cursor { phase, sent: self.cursor.sent }, Action::GetStatus)
    }

    /// Takes the caller's report on the last action and says what to do
    /// next.
    pub fn step(&mut self, event: Event) -> (action: Action)
        requires
            old(self)@.accepts(event@),
        ensures
            (final(self)@, action@) == old(self)@.step(event@),
    {
        proof {
            use_type_invariant(&*self);
        }
        let cur = self.cursor;
        let (next, action) = match event {
            Event::Failed(err) => {
                let graceful = match cur.phase {
                    Phase::Ending | Phase::Manifesting => match &err {
                        DfuError::Usb(UsbError::Io) => true,
                        _ => false,
                    },
                    _ => false,
                };
                if graceful {
                    self.finish(Ok(()))
                } else {
                    self.finish(Err(err))
                }
            },
            Event::Done => match cur.phase {
                Phase::Start => self.ask_status(Phase::Entering),
                Phase::Clearing => self.ask_status(Phase::Rechecking),
                Phase::Detaching => self.finish(
                    Err(
                        DfuError::Protocol(
                            String::from_str(
                                "device must re-enumerate as DFU device after detach, please re-run",
                            ),
                        ),
                    ),
                ),
                Phase::Aborting(st) => self.finish(
                    Err(
                        DfuError::Protocol(
                            joined("unexpected state at start of download: ", st.name()),
                        ),
                    ),
                ),
                Phase::Commanding(c) => self.ask_status(Phase::CommandPolling(c)),
                Phase::CommandWaiting(c) => self.ask_status(Phase::CommandPolling(c)),
                Phase::Sending(i) => self.ask_status(Phase::Polling(i)),
                Phase::Waiting(i) => self.ask_status(Phase::Polling(i)),
                Phase::Failing(i, st) => self.finish(
                    Err(
                        DfuError::TransferFailed {
                            block: (i + 2) as u32,
                            reason: joined("bad status: ", st.name()),
                        },
                    ),
                ),
                Phase::Reporting(i) => {
                    proof {
                        if i + 1 < self@.chunks.len() {
                            lemma_prefix_bytes(self@.chunks, i + 1);
                        }
                    }
                    self.send_block(i + 1)
                },
                Phase::Ending => self.ask_status(Phase::Manifesting),
                Phase::ManifestWaiting => self.ask_status(Phase::Manifesting),
                _ => self.finish(Ok(())),
            },
            Event::Status(r) => match cur.phase {
                Phase::Entering => match entry_step(r.state) {
                    EntryStep::Ready => self.after_entry(),
                    EntryStep::ClearError => (
                        Cursor { phase: Phase::Clearing, sent: cur.sent },
                        Action::ClearStatus,
                    ),
                    EntryStep::Detach => (
                        Cursor { phase: Phase::Detaching, sent: cur.sent },
                        Action::Detach,
                    ),
                    EntryStep::Abort => (
                        Cursor { phase: Phase::Aborting(r.state), sent: cur.sent },
                        Action::Abort,
                    ),
                },
                Phase::Rechecking => {
                    if r.state == DfuState::DfuIdle {
                        self.after_entry()
                    } else {
                        self.finish(
                            Err(
                                DfuError::Protocol(
                                    String::from_str("device did not return to idle after clear"),
                                ),
                            ),
                        )
                    }
                },
                Phase::CommandPolling(c) => match poll_after_command(&r) {
                    Poll::Ready => match c {
                        Command::MassErase => self.command(Command::SetAddress),
                        Command::SetAddress => {
                            proof {
                                if 0 < self@.chunks.len() {
                                    assert(self@.chunks.take(0).flatten().len() == 0) by {
                                        assert(self@.chunks.take(0) == Seq::<Seq<u8>>::empty());
                                    }
                                }
                            }
                            self.send_block(0)
                        },
                    },
                    Poll::Wait { ms } => (
                        Cursor { phase: Phase::CommandWaiting(c), sent: cur.sent },
                        Action::Sleep { ms },
                    ),
                    Poll::WaitThenFail { ms, error } => self.finish(Err(error)),
                    Poll::Fail(error) => self.finish(Err(error)),
                },
                Phase::Polling(i) => match poll_during_download(&r, (i + 2) as u16) {
                    Poll::Ready => {
                        proof {
                            lemma_prefix_bytes(self@.chunks, i as int);
                        }
                        let sent = cur.sent + self.chunks[i].len();
                        (
                            Cursor { phase: Phase::Reporting(i), sent },
                            Action::Progress(
                                TransferProgress {
                                    bytes_sent: sent,
                                    total_bytes: self.total_bytes,
                                    block_num: (i + 3) as u16,
                                },
                            ),
                        )
                    },
                    Poll::Wait { ms } => (
                        Cursor { phase: Phase::Waiting(i), sent: cur.sent },
                        Action::Sleep { ms },
                    ),
                    Poll::WaitThenFail { ms, error } => (
                        Cursor { phase: Phase::Failing(i, r.status), sent: cur.sent },
                        Action::Sleep { ms },
                    ),
                    Poll::Fail(error) => self.finish(Err(error)),
                },
                Phase::Manifesting => match poll_during_manifest(&r) {
                    Poll::Ready => self.finish(Ok(())),
                    Poll::Wait { ms } => (
                        Cursor { phase: Phase::ManifestWaiting, sent: cur.sent },
                        Action::Sleep { ms },
                    ),
                    Poll::WaitThenFail { ms, error } => self.finish(Err(error)),
                    Poll::Fail(error) => self.finish(Err(error)),
                },
                _ => self.finish(Ok(())),
            },
        };
        proof {
            lemma_step_preserves_wf(self@, event@);
        }
        self.cursor = next;
        action
    }
}

} // verus!
