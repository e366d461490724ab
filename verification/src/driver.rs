//! The course of an operation, from the request to the reply.
//!
//! `Pn532` decides and never touches the bus. An operation starts with a call
//! that hands out the frame to write. From then on the caller waits one poll
//! interval, reads a snapshot, asks the clock and calls `advance`, until the
//! answer is no longer `Action::Poll`. First the chip's acknowledgement is
//! looked for, in a fixed number of snapshots; then, where the operation has
//! a response, the response, for as long as the time allowed has not run out.

use crate::command::Operation;
use crate::error::Error;
use crate::frame::encode;
use crate::frame::spec_encode;
use crate::response::firmware_version;
use crate::response::spec_firmware_version;
use crate::response::spec_tag_list;
use crate::response::tag_list;
use crate::scan::scan_ack;
use crate::scan::scan_frame;
use crate::scan::spec_scan_ack;
use crate::scan::spec_scan_frame;
use vstd::prelude::*;

verus! {

/// The address of the chip on the bus.
pub const BUS_ADDRESS: u8 = 0x24;

/// Snapshots in which the acknowledgement of a frame is looked for.
pub const ACK_ATTEMPTS: u8 = 3;

/// Milliseconds to wait before each read of a snapshot.
pub const POLL_INTERVAL_MS: u64 = 1;

/// Milliseconds for which the bus must be left alone after a power-down.
pub const POWERDOWN_HOLD_MS: u64 = 1;

/// Nanoseconds allowed for the response to a firmware query.
pub const FIRMWARE_TIMEOUT_NS: u128 = 10_000_000;

/// Where an operation stands.
#[derive(Clone, Copy, Debug, PartialEq, Eq, Structural)]
pub enum Phase {
    /// No operation is under way.
    Idle,
    /// The request is written; the acknowledgement may be looked for in
    /// `attempts_left` more snapshots.
    AwaitingAck { operation: Operation, timeout_ns: u128, attempts_left: u8 },
    /// The request is acknowledged, at `since_ns` by the caller's clock; the
    /// response is looked for until `timeout_ns` have passed since.
    AwaitingResponse { operation: Operation, timeout_ns: u128, since_ns: u128 },
}

/// What an operation brought.
#[derive(Debug, PartialEq, Eq)]
pub enum Reply {
    /// Nothing but the chip's consent.
    Done,
    /// IC version, firmware version, firmware revision and feature bits.
    FirmwareVersion(u8, u8, u8, u8),
    /// The UIDs of the tags in the field.
    Tags(Vec<Vec<u8>>),
}

/// A `Reply` as a value of mathematics.
pub ghost enum ReplyView {
    Done,
    FirmwareVersion(u8, u8, u8, u8),
    Tags(Seq<Seq<u8>>),
}

impl View for Reply {
    type V = ReplyView;

    open spec fn view(&self) -> ReplyView {
        match *self {
            Reply::Done => ReplyView::Done,
            Reply::FirmwareVersion(ic, version, revision, support) => ReplyView::FirmwareVersion(
                ic,
                version,
                revision,
                support,
            ),
            Reply::Tags(tags) => ReplyView::Tags(tags.deep_view()),
        }
    }
}

/// What the caller is to do next.
#[derive(Debug, PartialEq, Eq)]
pub enum Action {
    /// Nothing: no operation is under way.
    Idle,
    /// Wait `POLL_INTERVAL_MS`, read a snapshot and call `advance` with it.
    Poll,
    /// Leave the bus alone for `hold_ms` milliseconds, then report success.
    Finish { reply: Reply, hold_ms: u64 },
    /// Report the failure.
    Fail(Error),
}

/// An `Action` as a value of mathematics.
pub ghost enum ActionView {
    Idle,
    Poll,
    Finish { reply: ReplyView, hold_ms: u64 },
    Fail(Error),
}

impl View for Action {
    type V = ActionView;

    open spec fn view(&self) -> ActionView {
        match *self {
            Action::Idle => ActionView::Idle,
            Action::Poll => ActionView::Poll,
            Action::Finish { reply, hold_ms } => ActionView::Finish { reply: reply@, hold_ms },
            Action::Fail(e) => ActionView::Fail(e),
        }
    }
}

/// Whether the chip answers `operation` with a response frame, beyond the
/// acknowledgement.
pub open spec fn spec_has_response(operation: Operation) -> bool {
    operation is GetFirmwareVersion || operation is List
}

/// How long the bus must be left alone once `operation` has succeeded.
pub open spec fn spec_hold_ms(operation: Operation) -> u64 {
    if operation is PowerDown {
        POWERDOWN_HOLD_MS
    } else {
        0
    }
}

/// How `operation` ends on the response payload `payload`.
pub open spec fn spec_conclude(operation: Operation, payload: Seq<u8>) -> ActionView {
    match operation {
        Operation::GetFirmwareVersion => match spec_firmware_version(payload) {
            Ok((ic, version, revision, support)) => ActionView::Finish {
                reply: ReplyView::FirmwareVersion(ic, version, revision, support),
                hold_ms: 0,
            },
            Err(e) => ActionView::Fail(e),
        },
        Operation::List => ActionView::Finish {
            reply: ReplyView::Tags(spec_tag_list(payload)),
            hold_ms: 0,
        },
        _ => ActionView::Finish { reply: ReplyView::Done, hold_ms: spec_hold_ms(operation) },
    }
}

/// The time from `since_ns` to `now_ns`, none where the clock ran backwards.
pub open spec fn spec_elapsed(since_ns: u128, now_ns: u128) -> int {
    if now_ns >= since_ns {
        now_ns - since_ns
    } else {
        0
    }
}

/// The phase that follows `phase`, and what the caller is to do, once
/// `snapshot` has been read at `now_ns`.
///
/// While the acknowledgement is awaited, the first verdict in the snapshot
/// settles the matter: a rejection, a fault or a stray byte fails the
/// operation; an acknowledgement ends an operation without a response, and
/// for the others starts the wait for the response, unless no time at all is
/// allowed for it. A snapshot without a verdict uses up one attempt, and the
/// last one spent is a timeout.
///
/// While the response is awaited, a payload ends the operation as
/// `spec_conclude` says and a fault fails it. Otherwise the caller polls again
/// as long as less than the time allowed has passed.
pub open spec fn spec_advance(phase: Phase, snapshot: Seq<u8>, now_ns: u128) -> (Phase, ActionView) {
    match phase {
        Phase::Idle => (Phase::Idle, ActionView::Idle),
        Phase::AwaitingAck { operation, timeout_ns, attempts_left } => match spec_scan_ack(
            snapshot,
        ) {
            Some(Ok(())) => if !spec_has_response(operation) {
                (
                    Phase::Idle,
                    ActionView::Finish { reply: ReplyView::Done, hold_ms: spec_hold_ms(operation) },
                )
            } else if timeout_ns > 0 {
                (
                    Phase::AwaitingResponse { operation, timeout_ns, since_ns: now_ns },
                    ActionView::Poll,
                )
            } else {
                (Phase::Idle, ActionView::Fail(Error::Timeout))
            },
            Some(Err(e)) => (Phase::Idle, ActionView::Fail(e)),
            None => if attempts_left > 1 {
                (
                    Phase::AwaitingAck {
                        operation,
                        timeout_ns,
                        attempts_left: (attempts_left - 1) as u8,
                    },
                    ActionView::Poll,
                )
            } else {
                (Phase::Idle, ActionView::Fail(Error::Timeout))
            },
        },
        Phase::AwaitingResponse { operation, timeout_ns, since_ns } => match spec_scan_frame(
            snapshot,
        ) {
            Some(Ok(payload)) => (Phase::Idle, spec_conclude(operation, payload)),
            Some(Err(e)) => (Phase::Idle, ActionView::Fail(e)),
            None => if spec_elapsed(since_ns, now_ns) < timeout_ns {
                (phase, ActionView::Poll)
            } else {
                (Phase::Idle, ActionView::Fail(Error::Timeout))
            },
        },
    }
}

/// The phase in which `operation` starts.
pub open spec fn spec_begin(operation: Operation, timeout_ns: u128) -> Phase {
    Phase::AwaitingAck { operation, timeout_ns, attempts_left: ACK_ATTEMPTS }
}

/// The operation that is under way in `phase`, if any.
pub open spec fn operation_of(phase: Phase) -> Option<Operation> {
    match phase {
        Phase::Idle => None,
        Phase::AwaitingAck { operation, .. } => Some(operation),
        Phase::AwaitingResponse { operation, .. } => Some(operation),
    }
}

/// Whether `phase` can come about: a response is awaited only for an
/// operation that has one.
pub open spec fn consistent(phase: Phase) -> bool {
    phase matches Phase::AwaitingResponse { operation, .. } ==> spec_has_response(operation)
}

/// Whether `reply` is of the kind that `operation` brings.
pub open spec fn reply_fits(operation: Operation, reply: ReplyView) -> bool {
    match operation {
        Operation::GetFirmwareVersion => reply is FirmwareVersion,
        Operation::List => reply is Tags,
        _ => reply is Done,
    }
}

/// Every operation starts in a phase that can come about, and a step keeps
/// it so. As long as the caller is told to poll, the operation stays the
/// same; when it succeeds, the reply is of its kind, and a hold follows a
/// power-down and nothing else.
pub proof fn lemma_reply_fits(phase: Phase, snapshot: Seq<u8>, now_ns: u128)
    requires
        consistent(phase),
    ensures
        forall|operation: Operation, timeout_ns: u128|
            consistent(#[trigger] spec_begin(operation, timeout_ns)),
        consistent(spec_advance(phase, snapshot, now_ns).0),
        spec_advance(phase, snapshot, now_ns).1 is Poll ==> operation_of(
            spec_advance(phase, snapshot, now_ns).0,
        ) == operation_of(phase),
        spec_advance(phase, snapshot, now_ns).1 matches ActionView::Finish { reply, hold_ms }
            ==> operation_of(phase) matches Some(operation) && reply_fits(operation, reply)
            && hold_ms == spec_hold_ms(operation),
{
}

/// An operation is under way exactly as long as the caller is told to poll.
pub proof fn lemma_poll_iff_busy(phase: Phase, snapshot: Seq<u8>, now_ns: u128)
    ensures
        spec_advance(phase, snapshot, now_ns).1 is Poll <==> !(spec_advance(
            phase,
            snapshot,
            now_ns,
        ).0 is Idle),
        spec_advance(phase, snapshot, now_ns).1 is Idle <==> phase is Idle,
{
}

/// Three snapshots without a verdict, one after the other, end any operation
/// in a timeout, and no sooner than the third.
pub proof fn lemma_silence_times_out(
    operation: Operation,
    timeout_ns: u128,
    first: (Seq<u8>, u128),
    second: (Seq<u8>, u128),
    third: (Seq<u8>, u128),
)
    requires
        spec_scan_ack(first.0) is None,
        spec_scan_ack(second.0) is None,
        spec_scan_ack(third.0) is None,
    ensures
        ({
            let start = spec_begin(operation, timeout_ns);
            let (after_first, first_action) = spec_advance(start, first.0, first.1);
            let (after_second, second_action) = spec_advance(after_first, second.0, second.1);
            let (after_third, third_action) = spec_advance(after_second, third.0, third.1);
            &&& first_action is Poll
            &&& second_action is Poll
            &&& third_action == ActionView::Fail(Error::Timeout)
            &&& after_third is Idle
        }),
{
}

/// The wait for a response ends in a timeout on the first snapshot without a
/// verdict that is read when the time allowed has passed, and not before.
pub proof fn lemma_response_deadline(
    operation: Operation,
    timeout_ns: u128,
    since_ns: u128,
    snapshot: Seq<u8>,
    now_ns: u128,
)
    requires
        spec_scan_frame(snapshot) is None,
        since_ns <= now_ns,
    ensures
        ({
            let waiting = Phase::AwaitingResponse { operation, timeout_ns, since_ns };
            let (next, action) = spec_advance(waiting, snapshot, now_ns);
            if now_ns - since_ns < timeout_ns {
                next == waiting && action is Poll
            } else {
                next is Idle && action == ActionView::Fail(Error::Timeout)
            }
        }),
{
}

/// The protocol side of a driver for the chip.
pub struct Pn532 {
    phase: Phase,
}

impl View for Pn532 {
    type V = Phase;

    closed spec fn view(&self) -> Phase {
        self.phase
    }
}

/// Whether the chip answers `operation` with a response frame.
fn has_response(operation: Operation) -> (r: bool)
    ensures
        r == spec_has_response(operation),
{
    match operation {
        Operation::GetFirmwareVersion => true,
        Operation::List => true,
        _ => false,
    }
}

/// How long the bus must be left alone once `operation` has succeeded.
fn hold_ms(operation: Operation) -> (r: u64)
    ensures
        r == spec_hold_ms(operation),
{
    match operation {
        Operation::PowerDown => POWERDOWN_HOLD_MS,
        _ => 0,
    }
}

/// Ends `operation` on the payload of its response.
fn conclude(operation: Operation, payload: &[u8]) -> (action: Action)
    ensures
        action@ == spec_conclude(operation, payload@),
{
    match operation {
        Operation::GetFirmwareVersion => match firmware_version(payload) {
            Ok((ic, version, revision, support)) => Action::Finish {
                reply: Reply::FirmwareVersion(ic, version, revision, support),
                hold_ms: 0,
            },
            Err(e) => Action::Fail(e),
        },
        Operation::List => Action::Finish { reply: Reply::Tags(tag_list(payload)), hold_ms: 0 },
        _ => Action::Finish { reply: Reply::Done, hold_ms: hold_ms(operation) },
    }
}

impl Pn532 {
    /// A driver with no operation under way.
    pub fn new() -> (driver: Pn532)
        ensures
            driver@ is Idle,
    {
        Pn532 { phase: Phase::Idle }
    }

    /// Where the operation stands.
    pub fn phase(&self) -> (phase: Phase)
        ensures
            phase == self@,
    {
        self.phase
    }

    /// Starts `operation`, giving up whatever was under way, and returns the
    /// frame to write to the bus.
    fn begin(&mut self, operation: Operation, timeout_ns: u128) -> (frame: Vec<u8>)
        ensures
            final(self)@ == spec_begin(operation, timeout_ns),
            frame@ == spec_encode(operation.spec_request()),
    {
        let payload = operation.request();
        self.phase = Phase::AwaitingAck { operation, timeout_ns, attempts_left: ACK_ATTEMPTS };
        encode(payload.as_slice())
    }

    /// Starts a query for the firmware identity and returns the frame to
    /// write. The operation ends with a `Reply::FirmwareVersion`.
    pub fn get_firmware_version(&mut self) -> (frame: Vec<u8>)
        ensures
            final(self)@ == spec_begin(Operation::GetFirmwareVersion, FIRMWARE_TIMEOUT_NS),
            frame@ == spec_encode(Operation::GetFirmwareVersion.spec_request()),
    {
        self.begin(Operation::GetFirmwareVersion, FIRMWARE_TIMEOUT_NS)
    }

    /// Starts a power-down and returns the frame to write. The operation
    /// ends with a `Reply::Done` and a hold.
    pub fn powerdown(&mut self) -> (frame: Vec<u8>)
        ensures
            final(self)@ == spec_begin(Operation::PowerDown, 0),
            frame@ == spec_encode(Operation::PowerDown.spec_request()),
    {
        self.begin(Operation::PowerDown, 0)
    }

    /// Starts the configuration of the secure access module and returns the
    /// frame to write. The operation ends with a `Reply::Done`.
    pub fn setup(&mut self) -> (frame: Vec<u8>)
        ensures
            final(self)@ == spec_begin(Operation::Setup, 0),
            frame@ == spec_encode(Operation::Setup.spec_request()),
    {
        self.begin(Operation::Setup, 0)
    }

    /// Starts a listing of the tags in the field and returns the frame to
    /// write. The response is awaited for `timeout_ns` nanoseconds from the
    /// acknowledgement; the operation ends with a `Reply::Tags`.
    pub fn list(&mut self, timeout_ns: u128) -> (frame: Vec<u8>)
        ensures
            final(self)@ == spec_begin(Operation::List, timeout_ns),
            frame@ == spec_encode(Operation::List.spec_request()),
    {
        self.begin(Operation::List, timeout_ns)
    }

    /// Takes the operation one step on: `snapshot` is what was just read
    /// from the bus, `now_ns` the time in nanoseconds on a clock of the
    /// caller's that never runs backwards.
    pub fn advance(&mut self, snapshot: &[u8], now_ns: u128) -> (action: Action)
        ensures
            (final(self)@, action@) == spec_advance(old(self)@, snapshot@, now_ns),
    {
        match self.phase {
            Phase::Idle => Action::Idle,
            Phase::AwaitingAck { operation, timeout_ns, attempts_left } => {
                match scan_ack(snapshot) {
                    Some(Ok(())) => {
                        if !has_response(operation) {
                            self.phase = Phase::Idle;
                            Action::Finish { reply: Reply::Done, hold_ms: hold_ms(operation) }
                        } else if timeout_ns > 0 {
                            self.phase = Phase::AwaitingResponse {
                                operation,
                                timeout_ns,
                                since_ns: now_ns,
                            };
                            Action::Poll
                        } else {
                            self.phase = Phase::Idle;
                            Action::Fail(Error::Timeout)
                        }
                    },
                    Some(Err(e)) => {
                        self.phase = Phase::Idle;
                        Action::Fail(e)
                    },
                    None => {
                        if attempts_left > 1 {
                            self.phase = Phase::AwaitingAck {
                                operation,
                                timeout_ns,
                                attempts_left: attempts_left - 1,
                            };
                            Action::Poll
                        } else {
                            self.phase = Phase::Idle;
                            Action::Fail(Error::Timeout)
                        }
                    },
                }
            },
            Phase::AwaitingResponse { operation, timeout_ns, since_ns } => {
                match scan_frame(snapshot) {
                    Some(Ok(payload)) => {
                        self.phase = Phase::Idle;
                        conclude(operation, payload.as_slice())
                    },
                    Some(Err(e)) => {
                        self.phase = Phase::Idle;
                        Action::Fail(e)
                    },
                    None => {
                        let elapsed: u128 = if now_ns >= since_ns {
                            now_ns - since_ns
                        } else {
                            0
                        };
                        if elapsed < timeout_ns {
                            Action::Poll
                        } else {
                            self.phase = Phase::Idle;
                            Action::Fail(Error::Timeout)
                        }
                    },
                }
            },
        }
    }
}

} // verus!
