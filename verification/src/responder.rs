//! The serial command responder: services one inbound frame per activation
//! and answers the `poll` command with the most recently published reply.
//!
//! The responder is driven from the peripheral's event notification. On each
//! activation the caller drains one inbound frame (reading even frames that
//! will be discarded, so the peripheral's internal buffer cannot overflow)
//! and hands the outcome in; the responder decides whether anything is
//! written back. A would-block outcome on either the read or the write path
//! is a normal no-op, never an error. Any other I/O fault is fatal: the
//! responder halts permanently with the status code of the failing
//! operation, to be blinked by the signal encoder, and ignores every later
//! event until a power cycle.

use crate::slot::ReplySlot;
use crate::status::StatusCode;
use vstd::prelude::*;

verus! {

/// The largest inbound frame one activation drains from the peripheral.
pub const INBOUND_CAPACITY: usize = 128;

/// The outcome of draining one inbound frame from the peripheral.
pub enum ReadEvent {
    /// The read succeeded and yielded these bytes (possibly none).
    Data(Vec<u8>),
    /// No data was ready; a normal, transient outcome.
    WouldBlock,
    /// The read failed with any error other than would-block.
    Fault,
}

/// The outcome of the one write a serviced poll issues.
#[derive(Clone, Copy, Debug, PartialEq, Eq, Structural)]
pub enum WriteEvent {
    /// The peripheral accepted the payload.
    Accepted,
    /// The peripheral could not take the payload now; the reply is simply
    /// dropped, superseded by the host's next poll.
    WouldBlock,
    /// The write failed with any error other than would-block.
    Fault,
}

/// Where the responder stands between events.
#[derive(Clone, Copy, Debug, PartialEq, Eq, Structural)]
pub enum ResponderState {
    /// No frame pending; waiting for the next peripheral notification.
    Idle,
    /// A poll was matched and its reply handed out; the caller owes the
    /// write's outcome.
    AwaitingWriteResult,
    /// A fatal fault was seen; nothing is ever serviced again.
    Halted(StatusCode),
}

/// Whether a drained frame is the one recognised command: exactly the four
/// ASCII bytes of `poll`.
pub open spec fn is_poll_frame(frame: Seq<u8>) -> bool {
    &&& frame.len() == 4
    &&& frame[0] == 112u8
    &&& frame[1] == 111u8
    &&& frame[2] == 108u8
    &&& frame[3] == 108u8
}

/// The state after one read outcome is serviced. A halted responder stays
/// halted whatever arrives; a would-block leaves the responder idle; a
/// fault halts it with the read fault's code; a drained frame leads to a
/// pending write exactly when it is the poll command and a reply has been
/// published.
pub open spec fn state_after_read(
    cur: ResponderState,
    event: ReadEvent,
    slot: Option<Seq<u8>>,
) -> ResponderState {
    match cur {
        ResponderState::Halted(_) => cur,
        _ => match event {
            ReadEvent::Fault => ResponderState::Halted(StatusCode::UsbReadError),
            ReadEvent::WouldBlock => ResponderState::Idle,
            ReadEvent::Data(frame) => if is_poll_frame(frame@) && slot is Some {
                ResponderState::AwaitingWriteResult
            } else {
                ResponderState::Idle
            },
        },
    }
}

/// The payload written back for one read outcome: the published reply when
/// the frame is the poll command and a reply exists, nothing in every other
/// case.
pub open spec fn write_after_read(
    cur: ResponderState,
    event: ReadEvent,
    slot: Option<Seq<u8>>,
) -> Option<Seq<u8>> {
    match cur {
        ResponderState::Halted(_) => None,
        _ => match event {
            ReadEvent::Data(frame) => if is_poll_frame(frame@) {
                slot
            } else {
                None
            },
            _ => None,
        },
    }
}

/// The state after the outcome of the issued write is reported back: only a
/// fault halts, with the write fault's code; acceptance and would-block
/// both return to idle.
pub open spec fn state_after_write_result(result: WriteEvent) -> ResponderState {
    match result {
        WriteEvent::Accepted => ResponderState::Idle,
        WriteEvent::WouldBlock => ResponderState::Idle,
        WriteEvent::Fault => ResponderState::Halted(StatusCode::UsbWriteError),
    }
}

/// The serial command responder's state machine. The caller performs the
/// peripheral I/O and feeds the outcomes in; the responder makes every
/// decision.
pub struct Responder {
    pub state: ResponderState,
}

impl Responder {
    /// A fresh responder, idle until the first peripheral notification.
    pub fn new() -> (r: Responder)
        ensures
            r.state == ResponderState::Idle,
    {
        Responder { state: ResponderState::Idle }
    }

    /// Whether a fatal fault has permanently halted the responder.
    pub fn is_halted(&self) -> (r: bool)
        ensures
            r == (self.state is Halted),
    {
        match self.state {
            ResponderState::Halted(_) => true,
            _ => false,
        }
    }

    /// The status code to blink once halted.
    pub fn halted_code(&self) -> (r: Option<StatusCode>)
        ensures
            (match r {
                Some(c) => self.state == ResponderState::Halted(c),
                None => !(self.state is Halted),
            }),
    {
        match self.state {
            ResponderState::Halted(c) => Some(c),
            _ => None,
        }
    }

    /// Service one activation: the caller drained one inbound frame and
    /// hands in the outcome together with the shared reply slot. The result
    /// is the at-most-one payload to write to the peripheral; when it is
    /// given, the responder awaits the write's outcome before the next
    /// activation.
    pub fn on_frame<'a>(&mut self, event: &ReadEvent, slot: &'a ReplySlot) -> (w: Option<
        &'a Vec<u8>,
    >)
        requires
            !(old(self).state is AwaitingWriteResult),
        ensures
            final(self).state == state_after_read(old(self).state, *event, slot@),
            (match w {
                Some(p) => write_after_read(old(self).state, *event, slot@) == Some(p@),
                None => write_after_read(old(self).state, *event, slot@) is None,
            }),
    {
        match self.state {
            ResponderState::Halted(_) => None,
            _ => match event {
                ReadEvent::Fault => {
                    self.state = ResponderState::Halted(StatusCode::UsbReadError);
                    None
                },
                ReadEvent::WouldBlock => {
                    self.state = ResponderState::Idle;
                    None
                },
                ReadEvent::Data(frame) => {
                    if frame_is_poll(frame) {
                        match slot.read() {
                            Some(p) => {
                                self.state = ResponderState::AwaitingWriteResult;
                                Some(p)
                            },
                            None => {
                                self.state = ResponderState::Idle;
                                None
                            },
                        }
                    } else {
                        self.state = ResponderState::Idle;
                        None
                    }
                },
            },
        }
    }

    /// Report the outcome of the write that the last activation issued.
    pub fn on_write_result(&mut self, result: &WriteEvent)
        requires
            old(self).state is AwaitingWriteResult,
        ensures
            final(self).state == state_after_write_result(*result),
    {
        match result {
            WriteEvent::Fault => {
                self.state = ResponderState::Halted(StatusCode::UsbWriteError);
            },
            _ => {
                self.state = ResponderState::Idle;
            },
        }
    }
}

/// An idle responder that drains a `poll` frame while a reply has been
/// published issues exactly one write, of exactly the published payload,
/// and then awaits that write's outcome.
pub proof fn lemma_poll_delivers_payload(frame: Vec<u8>, payload: Seq<u8>)
    requires
        is_poll_frame(frame@),
    ensures
        write_after_read(ResponderState::Idle, ReadEvent::Data(frame), Some(payload)) == Some(
            payload,
        ),
        state_after_read(ResponderState::Idle, ReadEvent::Data(frame), Some(payload))
            == ResponderState::AwaitingWriteResult,
{
}

/// A drained frame of any other content or length issues no write at all,
/// whatever the reply slot holds, and leaves the responder idle.
pub proof fn lemma_non_poll_writes_nothing(frame: Vec<u8>, slot: Option<Seq<u8>>)
    requires
        !is_poll_frame(frame@),
    ensures
        write_after_read(ResponderState::Idle, ReadEvent::Data(frame), slot) is None,
        state_after_read(ResponderState::Idle, ReadEvent::Data(frame), slot)
            == ResponderState::Idle,
{
}

/// While nothing has ever been published, even a `poll` frame issues no
/// write: there is no default payload, and the responder just returns to
/// idle.
pub proof fn lemma_empty_slot_writes_nothing(frame: Vec<u8>)
    ensures
        write_after_read(ResponderState::Idle, ReadEvent::Data(frame), None::<Seq<u8>>) is None,
        state_after_read(ResponderState::Idle, ReadEvent::Data(frame), None::<Seq<u8>>)
            == ResponderState::Idle,
{
}

/// Publishing twice before any poll fully replaces the first payload: the
/// poll that then arrives delivers only the second.
pub proof fn lemma_last_publish_wins(
    prior: Option<Seq<u8>>,
    first: Seq<u8>,
    second: Seq<u8>,
    frame: Vec<u8>,
)
    requires
        is_poll_frame(frame@),
    ensures
        write_after_read(
            ResponderState::Idle,
            ReadEvent::Data(frame),
            crate::slot::slot_after_publish(crate::slot::slot_after_publish(prior, first), second),
        ) == Some(second),
{
}

/// Would-block on the read or the write path never reaches the fatal path:
/// both leave the responder idle, ready for the next notification.
pub proof fn lemma_would_block_is_transient(slot: Option<Seq<u8>>)
    ensures
        state_after_read(ResponderState::Idle, ReadEvent::WouldBlock, slot)
            == ResponderState::Idle,
        write_after_read(ResponderState::Idle, ReadEvent::WouldBlock, slot) is None,
        state_after_write_result(WriteEvent::WouldBlock) == ResponderState::Idle,
{
}

/// Any fault other than would-block always takes the fatal path, with the
/// status code of the failing operation.
pub proof fn lemma_fault_always_halts(slot: Option<Seq<u8>>)
    ensures
        state_after_read(ResponderState::Idle, ReadEvent::Fault, slot) == (
        ResponderState::Halted(StatusCode::UsbReadError)),
        state_after_write_result(WriteEvent::Fault) == (ResponderState::Halted(
            StatusCode::UsbWriteError,
        )),
{
}

/// The fatal path is taken at most once: a halted responder ignores every
/// later event, issues no write, and keeps its status code forever.
pub proof fn lemma_halted_stays_halted(
    code: StatusCode,
    event: ReadEvent,
    slot: Option<Seq<u8>>,
)
    ensures
        state_after_read(ResponderState::Halted(code), event, slot) == (ResponderState::Halted(
            code,
        )),
        write_after_read(ResponderState::Halted(code), event, slot) is None,
{
}

/// Whether a drained frame is exactly the 4-byte ASCII command `poll`.
pub fn frame_is_poll(frame: &Vec<u8>) -> (r: bool)
    ensures
        r == is_poll_frame(frame@),
{
    frame.len() == 4 && frame[0] == 112u8 && frame[1] == 111u8 && frame[2] == 108u8 && frame[3]
        == 108u8
}

} // verus!
