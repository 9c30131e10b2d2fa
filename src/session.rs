//! The bootload session: a state machine that decides, from the outcome of
//! each transport operation, which operation comes next. The caller owns the
//! CAN channel, performs each [`Action`] and reports its outcome as an
//! [`Event`].
//!
//! Heartbeat detection uses a synchronous read on the heartbeat identifier.
//! A data frame whose send fails is sent again at once, with no bound and no
//! backoff.
use vstd::prelude::*;
use crate::frame::{frames, frames_of, image_fits};

verus! {

/// Identifier on which the device announces that it is ready.
pub const HEARTBEAT_ID: u16 = 2;

/// Identifier of the data frames.
pub const DATA_ID: u32 = 1;

/// Identifier on which the device acknowledges the end of an image.
pub const COMPLETION_ID: u16 = 2;

/// Timeout of a send, and of the reads for the acknowledgement.
pub const TRANSFER_TIMEOUT: u32 = 10000;

/// Timeout value that waits forever.
pub const NO_TIMEOUT: u32 = 0xFFFF_FFFF;

/// Bus parameter that selects 1 Mbit/s.
pub const BITRATE_1M: i32 = -1;

/// Third byte of an acknowledgement that reports success.
pub const ACK_COMPLETE: u8 = 128;

/// Every byte of the start command.
pub const START_BYTE: u8 = 0xFF;

/// The protocol's identifiers, timeouts and codes.
#[derive(Clone, Copy, Debug, PartialEq, Eq, Structural)]
pub struct ProtocolConfig {
    pub bitrate: i32,
    pub heartbeat_id: u16,
    pub heartbeat_timeout: u32,
    pub data_id: u32,
    pub send_timeout: u32,
    pub completion_id: u16,
    pub ack_timeout: u32,
    pub ack_complete: u8,
}

impl ProtocolConfig {
    /// The settings that the bootloader on the device expects.
    pub fn standard() -> (r: ProtocolConfig)
        ensures
            r.bitrate == BITRATE_1M,
            r.heartbeat_id == HEARTBEAT_ID,
            r.heartbeat_timeout == NO_TIMEOUT,
            r.data_id == DATA_ID,
            r.send_timeout == TRANSFER_TIMEOUT,
            r.completion_id == COMPLETION_ID,
            r.ack_timeout == TRANSFER_TIMEOUT,
            r.ack_complete == ACK_COMPLETE,
    {
        ProtocolConfig {
            bitrate: BITRATE_1M,
            heartbeat_id: HEARTBEAT_ID,
            heartbeat_timeout: NO_TIMEOUT,
            data_id: DATA_ID,
            send_timeout: TRANSFER_TIMEOUT,
            completion_id: COMPLETION_ID,
            ack_timeout: TRANSFER_TIMEOUT,
            ack_complete: ACK_COMPLETE,
        }
    }
}

/// Why a run was abandoned. These are not retried.
#[derive(Clone, Copy, Debug, PartialEq, Eq, Structural)]
pub enum SessionError {
    /// Opening the channel failed with this code.
    OpenChannel { code: i16 },
    /// Setting the bus parameters failed with this code.
    SetBusParams { code: i16 },
    /// Going bus-on failed with this code.
    BusOn { code: i16 },
    /// Sending the start command failed with this code.
    StartCommand { code: i16 },
    /// Neither a device id nor the bypass of the start command was given.
    MissingDevice,
    /// The image has more records than a 16-bit counter can number.
    ImageTooLarge,
}

/// Where a session stands. Each stage has one pending [`Action`].
#[derive(Clone, Copy, Debug, PartialEq, Eq, Structural)]
pub enum Stage {
    /// Init: opening the channel.
    Opening,
    /// Init: setting the bus parameters.
    Configuring,
    /// Init: going bus-on.
    GoingLive,
    /// Sending the start command to the device.
    SendingStart,
    /// Discarding stale traffic before the first wait.
    FlushingBeforeWait,
    /// Waiting, without a timeout, for the device's heartbeat.
    WaitingForHeartbeat,
    /// Discarding stale traffic after the heartbeat.
    FlushingAfterHeartbeat,
    /// Sending the data frames, one at a time.
    Streaming,
    /// Waiting for a message on the completion identifier.
    AwaitingCompletion,
    /// Reading the acknowledgement's payload.
    ReadingAck,
    /// The attempt failed; it is reported and the wait starts again.
    Failed,
    /// The image was accepted; the channel is being closed.
    Done,
    /// The run is over.
    Closed,
    /// The run was abandoned.
    Aborted { error: SessionError },
}

/// A transport operation for the caller to perform.
#[derive(Clone, Copy, Debug, PartialEq, Eq)]
#[allow(inconsistent_fields)]
pub enum Action {
    OpenChannel,
    SetBusParams { bitrate: i32 },
    BusOn,
    /// Send the 8-byte start command to the device, blocking up to `timeout`.
    SendStart { id: u32, data: [u8; 8], timeout: u32 },
    /// Send one 4-byte data frame, blocking up to `timeout`.
    SendFrame { id: u32, data: [u8; 4], timeout: u32 },
    FlushReceiveQueue,
    /// Block until a message with identifier `id` arrives, up to `timeout`.
    ReceiveMatching { id: u16, timeout: u32 },
    /// Block until any message arrives, up to `timeout`, and report its data.
    Receive { timeout: u32 },
    /// Report that the attempt failed and a retry follows.
    ReportFailure,
    Close,
    /// Report the error and end the run.
    Abort { error: SessionError },
    /// Nothing more to do.
    Stop,
}

/// The outcome of the last action.
#[derive(Clone, Copy, Debug, PartialEq, Eq)]
pub enum Event {
    /// It succeeded.
    Completed,
    /// The transport reported this error code.
    Failed { code: i16 },
    /// A message arrived with this payload.
    Received { data: [u8; 8] },
}

/// What a session is, mathematically.
pub struct SessionModel {
    pub stage: Stage,
    /// Position, from 0, of the frame to send next while streaming.
    pub next: nat,
    pub image: Seq<u8>,
    pub frames: Seq<[u8; 4]>,
    pub device: u32,
    pub bypass: bool,
    pub config: ProtocolConfig,
}

/// A session's frames are those of its image, and while streaming the next
/// frame exists.
pub open spec fn valid(m: SessionModel) -> bool {
    &&& image_fits(m.image) ==> {
        &&& m.frames.len() == frames(m.image).len()
        &&& forall|i: int| 0 <= i < m.frames.len() ==> (#[trigger] m.frames[i])@ == frames(m.image)[i]
    }
    &&& !image_fits(m.image) ==> m.frames.len() == 0
    &&& m.stage is Streaming ==> m.next < m.frames.len()
}

pub open spec fn with_stage(m: SessionModel, stage: Stage, next: nat) -> SessionModel {
    SessionModel { stage, next, ..m }
}

/// Where Init leads once the bus is on.
pub open spec fn stage_after_init(m: SessionModel) -> Stage {
    if !image_fits(m.image) {
        Stage::Aborted { error: SessionError::ImageTooLarge }
    } else if m.bypass {
        Stage::FlushingBeforeWait
    } else if m.device != 0 {
        Stage::SendingStart
    } else {
        Stage::Aborted { error: SessionError::MissingDevice }
    }
}

/// Whether an acknowledgement reports that the image was accepted.
pub open spec fn ack_accepted(config: ProtocolConfig, e: Event) -> bool {
    e matches Event::Received { data } && data[2] == config.ack_complete
}

/// The session after the pending action had outcome `e`.
pub open spec fn advance(m: SessionModel, e: Event) -> SessionModel {
    match m.stage {
        Stage::Opening => if e is Failed {
            with_stage(m, Stage::Aborted { error: SessionError::OpenChannel { code: e->code } }, m.next)
        } else {
            with_stage(m, Stage::Configuring, m.next)
        },
        Stage::Configuring => if e is Failed {
            with_stage(m, Stage::Aborted { error: SessionError::SetBusParams { code: e->code } }, m.next)
        } else {
            with_stage(m, Stage::GoingLive, m.next)
        },
        Stage::GoingLive => if e is Failed {
            with_stage(m, Stage::Aborted { error: SessionError::BusOn { code: e->code } }, m.next)
        } else {
            with_stage(m, stage_after_init(m), m.next)
        },
        Stage::SendingStart => if e is Failed {
            with_stage(m, Stage::Aborted { error: SessionError::StartCommand { code: e->code } }, m.next)
        } else {
            with_stage(m, Stage::FlushingBeforeWait, m.next)
        },
        Stage::FlushingBeforeWait => with_stage(m, Stage::WaitingForHeartbeat, m.next),
        Stage::WaitingForHeartbeat => if e is Failed {
            m
        } else {
            with_stage(m, Stage::FlushingAfterHeartbeat, m.next)
        },
        Stage::FlushingAfterHeartbeat => if m.frames.len() > 0 {
            with_stage(m, Stage::Streaming, 0)
        } else {
            with_stage(m, Stage::AwaitingCompletion, 0)
        },
        Stage::Streaming => if e is Failed {
            m
        } else if m.next + 1 < m.frames.len() {
            with_stage(m, Stage::Streaming, m.next + 1)
        } else {
            with_stage(m, Stage::AwaitingCompletion, m.next)
        },
        Stage::AwaitingCompletion => if e is Failed {
            with_stage(m, Stage::Failed, m.next)
        } else {
            with_stage(m, Stage::ReadingAck, m.next)
        },
        Stage::ReadingAck => if ack_accepted(m.config, e) {
            with_stage(m, Stage::Done, m.next)
        } else {
            with_stage(m, Stage::Failed, m.next)
        },
        Stage::Failed => with_stage(m, Stage::WaitingForHeartbeat, m.next),
        Stage::Done => with_stage(m, Stage::Closed, m.next),
        Stage::Closed => m,
        Stage::Aborted { .. } => m,
    }
}

/// Whether `a` is the action pending in `m`.
pub open spec fn action_matches(m: SessionModel, a: Action) -> bool {
    match m.stage {
        Stage::Opening => a is OpenChannel,
        Stage::Configuring => a == Action::SetBusParams { bitrate: m.config.bitrate },
        Stage::GoingLive => a is BusOn,
        Stage::SendingStart => a matches Action::SendStart { id, data, timeout } && id == m.device
            && timeout == m.config.send_timeout && data@ == Seq::new(8, |i: int| START_BYTE),
        Stage::FlushingBeforeWait => a is FlushReceiveQueue,
        Stage::WaitingForHeartbeat => a == Action::ReceiveMatching {
            id: m.config.heartbeat_id,
            timeout: m.config.heartbeat_timeout,
        },
        Stage::FlushingAfterHeartbeat => a is FlushReceiveQueue,
        Stage::Streaming => a == Action::SendFrame {
            id: m.config.data_id,
            data: m.frames[m.next as int],
            timeout: m.config.send_timeout,
        },
        Stage::AwaitingCompletion => a == Action::ReceiveMatching {
            id: m.config.completion_id,
            timeout: m.config.ack_timeout,
        },
        Stage::ReadingAck => a == Action::Receive { timeout: m.config.ack_timeout },
        Stage::Failed => a is ReportFailure,
        Stage::Done => a is Close,
        Stage::Closed => a is Stop,
        Stage::Aborted { error } => a == Action::Abort { error },
    }
}

/// One run of the bootload protocol over an image.
pub struct Session {
    stage: Stage,
    next: usize,
    image: Vec<u8>,
    frames: Vec<[u8; 4]>,
    fits: bool,
    device: u32,
    bypass: bool,
    config: ProtocolConfig,
}

impl View for Session {
    type V = SessionModel;

    closed spec fn view(&self) -> SessionModel {
        SessionModel {
            stage: self.stage,
            next: self.next as nat,
            image: self.image@,
            frames: self.frames@,
            device: self.device,
            bypass: self.bypass,
            config: self.config,
        }
    }
}

impl Session {
    /// The session's invariant.
    pub closed spec fn wf(&self) -> bool {
        &&& valid(self@)
        &&& self.fits == image_fits(self.image@)
    }

    /// A session that will send `image` to `device`, or to whichever device
    /// is listening when `bypass` skips the start command. A `device` of 0
    /// stands for none.
    pub fn new(image: Vec<u8>, device: u32, bypass: bool, config: ProtocolConfig) -> (r: Session)
        ensures
            r.wf(),
            valid(r@),
            r@.stage == Stage::Opening,
            r@.next == 0,
            r@.image == image@,
            r@.device == device,
            r@.bypass == bypass,
            r@.config == config,
    {
        let (frames, fits) = match frames_of(&image) {
            Some(v) => (v, true),
            None => (Vec::new(), false),
        };
        Session { stage: Stage::Opening, next: 0, image, frames, fits, device, bypass, config }
    }

    /// The stage the session is in.
    pub fn stage(&self) -> (r: Stage)
        ensures
            r == self@.stage,
    {
        self.stage
    }

    /// The image being sent.
    pub fn image(&self) -> (r: &Vec<u8>)
        ensures
            r@ == self@.image,
    {
        &self.image
    }

    /// The action that the current stage waits on.
    pub fn pending_action(&self) -> (r: Action)
        requires
            self.wf(),
        ensures
            action_matches(self@, r),
    {
        match self.stage {
            Stage::Opening => Action::OpenChannel,
            Stage::Configuring => Action::SetBusParams { bitrate: self.config.bitrate },
            Stage::GoingLive => Action::BusOn,
            Stage::SendingStart => {
                let data = [START_BYTE, START_BYTE, START_BYTE, START_BYTE, START_BYTE, START_BYTE, START_BYTE, START_BYTE];
                assert(data@ =~= Seq::new(8, |i: int| START_BYTE));
                Action::SendStart { id: self.device, data, timeout: self.config.send_timeout }
            },
            Stage::FlushingBeforeWait => Action::FlushReceiveQueue,
            Stage::WaitingForHeartbeat => Action::ReceiveMatching {
                id: self.config.heartbeat_id,
                timeout: self.config.heartbeat_timeout,
            },
            Stage::FlushingAfterHeartbeat => Action::FlushReceiveQueue,
            Stage::Streaming => Action::SendFrame {
                id: self.config.data_id,
                data: self.frames[self.next],
                timeout: self.config.send_timeout,
            },
            Stage::AwaitingCompletion => Action::ReceiveMatching {
                id: self.config.completion_id,
                timeout: self.config.ack_timeout,
            },
            Stage::ReadingAck => Action::Receive { timeout: self.config.ack_timeout },
            Stage::Failed => Action::ReportFailure,
            Stage::Done => Action::Close,
            Stage::Closed => Action::Stop,
            Stage::Aborted { error } => Action::Abort { error },
        }
    }

    /// Takes the outcome of the pending action, moves to the next stage and
    /// returns the action that is pending there.
    pub fn step(&mut self, event: Event) -> (r: Action)
        requires
            old(self).wf(),
        ensures
            final(self).wf(),
            valid(final(self)@),
            final(self)@ == advance(old(self)@, event),
            action_matches(final(self)@, r),
    {
        let failure: Option<i16> = match event {
            Event::Failed { code } => Some(code),
            _ => None,
        };
        match self.stage {
            Stage::Opening => {
                self.stage = match failure {
                    Some(code) => Stage::Aborted { error: SessionError::OpenChannel { code } },
                    None => Stage::Configuring,
                };
            },
            Stage::Configuring => {
                self.stage = match failure {
                    Some(code) => Stage::Aborted { error: SessionError::SetBusParams { code } },
                    None => Stage::GoingLive,
                };
            },
            Stage::GoingLive => {
                self.stage = match failure {
                    Some(code) => Stage::Aborted { error: SessionError::BusOn { code } },
                    None => if !self.fits {
                        Stage::Aborted { error: SessionError::ImageTooLarge }
                    } else if self.bypass {
                        Stage::FlushingBeforeWait
                    } else if self.device != 0 {
                        Stage::SendingStart
                    } else {
                        Stage::Aborted { error: SessionError::MissingDevice }
                    },
                };
            },
            Stage::SendingStart => {
                self.stage = match failure {
                    Some(code) => Stage::Aborted { error: SessionError::StartCommand { code } },
                    None => Stage::FlushingBeforeWait,
                };
            },
            Stage::FlushingBeforeWait => {
                self.stage = Stage::WaitingForHeartbeat;
            },
            Stage::WaitingForHeartbeat => {
                if failure.is_none() {
                    self.stage = Stage::FlushingAfterHeartbeat;
                }
            },
            Stage::FlushingAfterHeartbeat => {
                self.next = 0;
                self.stage = if self.frames.len() > 0 {
                    Stage::Streaming
                } else {
                    Stage::AwaitingCompletion
                };
            },
            Stage::Streaming => {
                if failure.is_none() {
                    if self.next < self.frames.len() - 1 {
                        self.next = self.next + 1;
                    } else {
                        self.stage = Stage::AwaitingCompletion;
                    }
                }
            },
            Stage::AwaitingCompletion => {
                self.stage = match failure {
                    Some(_) => Stage::Failed,
                    None => Stage::ReadingAck,
                };
            },
            Stage::ReadingAck => {
                let accepted = match event {
                    Event::Received { data } => data[2] == self.config.ack_complete,
                    _ => false,
                };
                self.stage = if accepted {
                    Stage::Done
                } else {
                    Stage::Failed
                };
            },
            Stage::Failed => {
                self.stage = Stage::WaitingForHeartbeat;
            },
            Stage::Done => {
                self.stage = Stage::Closed;
            },
            Stage::Closed => {},
            Stage::Aborted { .. } => {},
        }
        self.pending_action()
    }
}

/// The record counter that a data frame carries in its first two bytes.
pub open spec fn frame_counter(f: Seq<u8>) -> int {
    f[0] as int * 256 + f[1] as int
}

/// A data frame whose send fails is sent again unchanged, and a failed
/// heartbeat read is issued again: neither moves the session.
pub proof fn lemma_failures_repeat(m: SessionModel, code: i16)
    requires
        valid(m),
        m.stage is Streaming || m.stage is WaitingForHeartbeat,
    ensures
        advance(m, Event::Failed { code }) == m,
{
}

/// While streaming, each frame carries the counter one above its position,
/// and a successful send moves on to the next position or, after the last
/// frame, to the wait for the acknowledgement.
pub proof fn lemma_frames_in_counter_order(m: SessionModel, e: Event)
    requires
        valid(m),
        m.stage is Streaming,
        !(e is Failed),
    ensures
        frame_counter(m.frames[m.next as int]@) == m.next + 1,
        ({
            let m1 = advance(m, e);
            ||| m1.stage is Streaming && m1.next == m.next + 1
            ||| m1.stage is AwaitingCompletion && m.next + 1 == m.frames.len()
        }),
{
    crate::frame::lemma_frame_counter(m.image, m.next as int);
}

/// When an attempt fails after streaming (no acknowledgement, or one that
/// does not report success), the failure is reported without closing the
/// channel, the session waits for the heartbeat again, and on the next
/// heartbeat it streams the image anew from its first frame, counter 1.
pub proof fn lemma_retry_restarts_stream(
    m: SessionModel,
    outcome: Event,
    reported: Event,
    heartbeat: Event,
    flushed: Event,
)
    requires
        valid(m),
        m.stage is AwaitingCompletion && outcome is Failed || m.stage is ReadingAck
            && !ack_accepted(m.config, outcome),
        !(heartbeat is Failed),
        m.frames.len() > 0,
    ensures
        ({
            let m1 = advance(m, outcome);
            let m2 = advance(m1, reported);
            let m3 = advance(m2, heartbeat);
            let m4 = advance(m3, flushed);
            &&& m1.stage is Failed
            &&& m2.stage is WaitingForHeartbeat
            &&& m3.stage is FlushingAfterHeartbeat
            &&& m4.stage is Streaming
            &&& m4.next == 0
            &&& m4.image == m.image
            &&& m4.frames == m.frames
            &&& m4.frames[0]@ == frames(m.image)[0]
            &&& frame_counter(m4.frames[0]@) == 1
        }),
{
    crate::frame::lemma_frame_counter(m.image, 0);
}

} // verus!
