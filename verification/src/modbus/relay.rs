//! The eight-channel relay board: its frames, and the cycle that writes and reads its relays.
//!
//! The board answers a read of all channels at coil address `0x00FF` with one packed status byte,
//! and takes single-coil writes for the channels 0 to 7. Bit 0 is channel 0, which is `r1`, and
//! bit 7 is `r8`.
use vstd::prelude::*;

use crate::modbus::crc::crc_ok;
use crate::modbus::rtu::{
    build_request, law_request_bytes, law_requests_check, outcome, request_frame, RtuError, RtuFault,
};
use crate::state::{lemma_relay_bytes_equal, relay_on};
use crate::text::{hex_byte, hex_byte_text};

verus! {

pub const FC_READ_COILS: u8 = 0x01;

pub const FC_WRITE_SINGLE_COIL: u8 = 0x05;

/// Fewest bytes of a reply to a read: address, function code, count, status, checksum.
pub const READ_REPLY_LEN: usize = 6;

/// Fewest bytes of a reply to a write, which echoes the request.
pub const WRITE_REPLY_LEN: usize = 8;

/// The frame that asks for the packed status of all relays.
pub open spec fn read_coils_frame(addr: u8) -> Seq<u8> {
    request_frame(addr, FC_READ_COILS, seq![0x00, 0xFF, 0x00, 0x01])
}

/// Builds the request for the packed status of all relays.
#[must_use]
pub fn build_read_coils(addr: u8) -> (frame: Vec<u8>)
    ensures
        frame@ == read_coils_frame(addr),
{
    let payload: [u8; 4] = [0x00, 0xFF, 0x00, 0x01];
    assert(payload@ =~= seq![0x00u8, 0xFF, 0x00, 0x01]);
    build_request(addr, FC_READ_COILS, payload.as_slice())
}

/// The frame that turns one relay on or off; only the low three bits of `channel` count.
pub open spec fn write_coil_frame(addr: u8, channel: u8, on: bool) -> Seq<u8> {
    request_frame(
        addr,
        FC_WRITE_SINGLE_COIL,
        seq![
            0x00,
            channel % 8,
            if on {
                0xFF
            } else {
                0x00
            },
            0x00,
        ],
    )
}

/// Builds the request that turns relay `channel` (0 to 7) on or off.
#[must_use]
pub fn build_write_coil(addr: u8, channel: u8, on: bool) -> (frame: Vec<u8>)
    ensures
        frame@ == write_coil_frame(addr, channel, on),
{
    let value: u8 = if on {
        0xFF
    } else {
        0x00
    };
    let payload: [u8; 4] = [0x00, channel % 8, value, 0x00];
    assert(payload@ =~= seq![0x00u8, channel % 8, value, 0x00]);
    build_request(addr, FC_WRITE_SINGLE_COIL, payload.as_slice())
}

/// The message for a reply from the wrong address.
pub open spec fn wrong_address_text(got: u8, addr: u8) -> Seq<char> {
    "addr "@ + hex_byte_text(got) + " != "@ + hex_byte_text(addr)
}

/// The message for a reply from the wrong address.
pub(crate) fn wrong_address(got: u8, addr: u8) -> (text: String)
    ensures
        text@ == wrong_address_text(got, addr),
{
    let mut text = "addr ".to_owned();
    let first = hex_byte(got);
    text.append(first.as_str());
    text.append(" != ");
    let second = hex_byte(addr);
    text.append(second.as_str());
    text
}

/// What a reply to a read says: the packed status byte, or why it says nothing.
pub open spec fn coil_status(reply: Seq<u8>, addr: u8) -> Result<u8, RtuFault> {
    if reply.len() < 6 {
        Err(RtuFault::Short(reply.len()))
    } else if reply[0] != addr {
        Err(RtuFault::Unexpected(wrong_address_text(reply[0], addr)))
    } else if reply[1] != FC_READ_COILS {
        Err(RtuFault::Unexpected("fc "@ + hex_byte_text(reply[1]) + ", expected 01"@))
    } else if reply[2] < 1 {
        Err(RtuFault::Unexpected("byte count 0"@))
    } else {
        Ok(reply[3])
    }
}

/// Parses a reply to a read: address, function code, byte count, status, checksum.
pub fn parse_coil_status(resp: &[u8], addr: u8) -> (status: Result<u8, RtuError>)
    ensures
        outcome(status) == coil_status(resp@, addr),
{
    if resp.len() < 6 {
        return Err(RtuError::Short(resp.len()));
    }
    if resp[0] != addr {
        return Err(RtuError::Unexpected(wrong_address(resp[0], addr)));
    }
    if resp[1] != FC_READ_COILS {
        let mut text = "fc ".to_owned();
        let code = hex_byte(resp[1]);
        text.append(code.as_str());
        text.append(", expected 01");
        return Err(RtuError::Unexpected(text));
    }
    if resp[2] < 1 {
        return Err(RtuError::Unexpected("byte count 0".to_owned()));
    }
    Ok(resp[3])
}

/// What a reply to a write says: that it was done, or why not.
pub open spec fn write_ack(reply: Seq<u8>) -> Result<(), RtuFault> {
    if reply.len() > 1 && reply[1] == FC_WRITE_SINGLE_COIL {
        Ok(())
    } else if reply.len() > 1 {
        Err(RtuFault::Unexpected("write ack fc Some("@ + hex_byte_text(reply[1]) + ")"@))
    } else {
        Err(RtuFault::Unexpected("write ack fc None"@))
    }
}

/// Checks that a reply acknowledges a single-coil write.
pub fn check_write_ack(resp: &[u8]) -> (ack: Result<(), RtuError>)
    ensures
        outcome(ack) == write_ack(resp@),
{
    if resp.len() > 1 {
        if resp[1] == FC_WRITE_SINGLE_COIL {
            return Ok(());
        }
        let mut text = "write ack fc Some(".to_owned();
        let code = hex_byte(resp[1]);
        text.append(code.as_str());
        text.append(")");
        return Err(RtuError::Unexpected(text));
    }
    Err(RtuError::Unexpected("write ack fc None".to_owned()))
}

/// What the owner of the bus does next in a cycle.
#[derive(Debug)]
pub enum BusStep {
    /// Send the frame and receive a reply of at least `min_len` bytes.
    Transact { frame: Vec<u8>, min_len: usize },
    /// Wait for the gap between frames.
    Pause,
    /// The cycle is over.
    Finished,
}

/// What a [`BusStep`] holds.
pub enum BusStepView {
    Transact { frame: Seq<u8>, min_len: nat },
    Pause,
    Finished,
}

impl View for BusStep {
    type V = BusStepView;

    open spec fn view(&self) -> BusStepView {
        match *self {
            BusStep::Transact { frame, min_len } => BusStepView::Transact {
                frame: frame@,
                min_len: min_len as nat,
            },
            BusStep::Pause => BusStepView::Pause,
            BusStep::Finished => BusStepView::Finished,
        }
    }
}

/// Where a relay cycle stands.
#[derive(Debug, Clone, Copy, PartialEq, Eq, Structural)]
pub enum RelayPhase {
    /// Relay `channel` is to be written.
    Write { channel: u8 },
    /// Relay `channel` is written; the gap follows.
    Written { channel: u8 },
    /// The status is to be read.
    Read,
    /// The status differs from the command; the gap before the second round follows.
    Mismatch,
    /// The cycle is over.
    Done,
}

/// A cycle on the relay board: read the status, or write all relays and read them back, with one
/// more round where the status then differs from the command.
#[derive(Debug)]
pub struct RelayCycle {
    addr: u8,
    commanded: u8,
    write: bool,
    retried: bool,
    phase: RelayPhase,
    result: Option<Result<u8, RtuError>>,
}

/// What a [`RelayCycle`] holds.
pub struct RelayCycleView {
    pub addr: u8,
    /// The relays as they are to be.
    pub commanded: u8,
    /// Whether the relays are written before they are read.
    pub write: bool,
    /// Whether the second round has begun.
    pub retried: bool,
    pub phase: RelayPhase,
    /// The outcome, once the cycle is over.
    pub result: Option<Result<u8, RtuFault>>,
}

impl RelayCycleView {
    /// A cycle that is about to start.
    pub open spec fn started(addr: u8, commanded: u8, write: bool) -> RelayCycleView {
        RelayCycleView {
            addr,
            commanded,
            write,
            retried: false,
            phase: if write {
                RelayPhase::Write { channel: 0 }
            } else {
                RelayPhase::Read
            },
            result: None,
        }
    }

    /// What is to be done next.
    pub open spec fn step(self) -> BusStepView {
        match self.phase {
            RelayPhase::Write { channel } => BusStepView::Transact {
                frame: write_coil_frame(
                    self.addr,
                    channel,
                    relay_on(self.commanded, (channel % 8) as int),
                ),
                min_len: WRITE_REPLY_LEN as nat,
            },
            RelayPhase::Read => BusStepView::Transact {
                frame: read_coils_frame(self.addr),
                min_len: READ_REPLY_LEN as nat,
            },
            RelayPhase::Written { .. } => BusStepView::Pause,
            RelayPhase::Mismatch => BusStepView::Pause,
            RelayPhase::Done => BusStepView::Finished,
        }
    }

    /// The cycle at its end, with this outcome.
    pub open spec fn ended(self, result: Result<u8, RtuFault>) -> RelayCycleView {
        RelayCycleView { phase: RelayPhase::Done, result: Some(result), ..self }
    }

    /// The cycle after the reply to its frame.
    pub open spec fn after_reply(self, reply: Result<Seq<u8>, RtuFault>) -> RelayCycleView {
        match self.phase {
            RelayPhase::Write { channel } => match reply {
                Err(fault) => self.ended(Err(fault)),
                Ok(bytes) => match write_ack(bytes) {
                    Err(fault) => self.ended(Err(fault)),
                    Ok(_) => RelayCycleView { phase: RelayPhase::Written { channel }, ..self },
                },
            },
            RelayPhase::Read => match reply {
                Err(fault) => self.ended(Err(fault)),
                Ok(bytes) => match coil_status(bytes, self.addr) {
                    Err(fault) => self.ended(Err(fault)),
                    Ok(measured) => if self.write && !self.retried && measured != self.commanded {
                        RelayCycleView { phase: RelayPhase::Mismatch, ..self }
                    } else {
                        self.ended(Ok(measured))
                    },
                },
            },
            _ => self,
        }
    }

    /// The cycle after a pause.
    pub open spec fn after_pause(self) -> RelayCycleView {
        match self.phase {
            RelayPhase::Written { channel } => RelayCycleView {
                phase: if channel < 7 {
                    RelayPhase::Write { channel: (channel + 1) as u8 }
                } else {
                    RelayPhase::Read
                },
                ..self
            },
            RelayPhase::Mismatch => RelayCycleView {
                phase: RelayPhase::Write { channel: 0 },
                retried: true,
                ..self
            },
            _ => self,
        }
    }

    /// The cycle at its next frame, or at its end: past the pause, if one is due.
    pub open spec fn ready(self) -> RelayCycleView {
        if self.step() == BusStepView::Pause {
            self.after_pause()
        } else {
            self
        }
    }

    /// The most frames that the cycle can still send.
    pub open spec fn frames_left(self) -> int {
        let second_round: int = if self.write && !self.retried {
            9
        } else {
            0
        };
        match self.phase {
            RelayPhase::Write { channel } => 9 - channel + second_round,
            RelayPhase::Written { channel } => 8 - channel + second_round,
            RelayPhase::Read => 1 + second_round,
            RelayPhase::Mismatch => 9,
            RelayPhase::Done => 0,
        }
    }
}

impl View for RelayCycle {
    type V = RelayCycleView;

    closed spec fn view(&self) -> RelayCycleView {
        RelayCycleView {
            addr: self.addr,
            commanded: self.commanded,
            write: self.write,
            retried: self.retried,
            phase: self.phase,
            result: match self.result {
                Some(result) => Some(outcome(result)),
                None => None,
            },
        }
    }
}

/// Whether relay `channel` is on in a packed relay byte.
fn is_on(byte: u8, channel: u8) -> (on: bool)
    requires
        channel < 8,
    ensures
        on == relay_on(byte, channel as int),
{
    byte & (1u8 << channel) != 0
}

impl RelayCycle {
    /// Starts a cycle for the board at `addr`: with `write`, one that writes `commanded` first.
    pub fn new(addr: u8, commanded: u8, write: bool) -> (cycle: Self)
        ensures
            cycle@ == RelayCycleView::started(addr, commanded, write),
    {
        let phase = if write {
            RelayPhase::Write { channel: 0 }
        } else {
            RelayPhase::Read
        };
        RelayCycle { addr, commanded, write, retried: false, phase, result: None }
    }

    /// What is to be done next.
    pub fn step(&self) -> (step: BusStep)
        ensures
            step@ == self@.step(),
    {
        match self.phase {
            RelayPhase::Write { channel } => {
                let on = is_on(self.commanded, channel % 8);
                BusStep::Transact {
                    frame: build_write_coil(self.addr, channel, on),
                    min_len: WRITE_REPLY_LEN,
                }
            },
            RelayPhase::Read => BusStep::Transact {
                frame: build_read_coils(self.addr),
                min_len: READ_REPLY_LEN,
            },
            RelayPhase::Written { .. } => BusStep::Pause,
            RelayPhase::Mismatch => BusStep::Pause,
            RelayPhase::Done => BusStep::Finished,
        }
    }

    fn end(&mut self, result: Result<u8, RtuError>)
        ensures
            final(self)@ == old(self)@.ended(outcome(result)),
    {
        self.phase = RelayPhase::Done;
        self.result = Some(result);
    }

    /// Takes in the reply to the frame that was sent.
    pub fn on_reply(&mut self, reply: Result<Vec<u8>, RtuError>)
        ensures
            final(self)@ == old(self)@.after_reply(outcome(reply)),
    {
        match self.phase {
            RelayPhase::Write { channel } => match reply {
                Err(error) => self.end(Err(error)),
                Ok(bytes) => match check_write_ack(bytes.as_slice()) {
                    Err(error) => self.end(Err(error)),
                    Ok(()) => {
                        self.phase = RelayPhase::Written { channel };
                    },
                },
            },
            RelayPhase::Read => match reply {
                Err(error) => self.end(Err(error)),
                Ok(bytes) => match parse_coil_status(bytes.as_slice(), self.addr) {
                    Err(error) => self.end(Err(error)),
                    Ok(measured) => {
                        if self.write && !self.retried && measured != self.commanded {
                            self.phase = RelayPhase::Mismatch;
                        } else {
                            self.end(Ok(measured));
                        }
                    },
                },
            },
            _ => {},
        }
    }

    /// Takes in that a pause is over.
    pub fn on_pause(&mut self)
        ensures
            final(self)@ == old(self)@.after_pause(),
    {
        match self.phase {
            RelayPhase::Written { channel } => {
                if channel < 7 {
                    self.phase = RelayPhase::Write { channel: channel + 1 };
                } else {
                    self.phase = RelayPhase::Read;
                }
            },
            RelayPhase::Mismatch => {
                self.phase = RelayPhase::Write { channel: 0 };
                self.retried = true;
            },
            _ => {},
        }
    }

    /// Whether the cycle has an outcome.
    pub fn has_result(&self) -> (yes: bool)
        ensures
            yes == (self@.result is Some),
    {
        self.result.is_some()
    }

    /// The outcome: the status that was read, or what went wrong; `None` before the end.
    pub fn finish(self) -> (result: Option<Result<u8, RtuError>>)
        ensures
            match result {
                Some(end) => self@.result == Some(outcome(end)),
                None => self@.result is None,
            },
    {
        self.result
    }
}

/// The cycle after a run of replies, one to each frame, with the pauses passed.
pub open spec fn relay_run(
    start: RelayCycleView,
    replies: Seq<Result<Seq<u8>, RtuFault>>,
) -> RelayCycleView
    decreases replies.len(),
{
    if replies.len() == 0 {
        start
    } else {
        relay_run(start, replies.drop_last()).after_reply(replies.last()).ready()
    }
}

/// A cycle sends at most eighteen frames where it writes, and one where it only reads: once it has
/// had that many replies it is over, and has an outcome.
pub proof fn law_relay_cycle_ends(
    addr: u8,
    commanded: u8,
    write: bool,
    replies: Seq<Result<Seq<u8>, RtuFault>>,
)
    ensures
        ({
            let end = relay_run(RelayCycleView::started(addr, commanded, write), replies);
            &&& end.step() != BusStepView::Pause
            &&& end.result is Some <==> end.phase == RelayPhase::Done
            &&& replies.len() >= if write {
                18nat
            } else {
                1
            } ==> end.phase == RelayPhase::Done
        }),
{
    lemma_relay_run(addr, commanded, write, replies);
}

proof fn lemma_relay_run(
    addr: u8,
    commanded: u8,
    write: bool,
    replies: Seq<Result<Seq<u8>, RtuFault>>,
)
    ensures
        ({
            let start = RelayCycleView::started(addr, commanded, write);
            let end = relay_run(start, replies);
            &&& end.addr == addr && end.commanded == commanded && end.write == write
            &&& end.phase matches RelayPhase::Write { channel } ==> channel < 8 && write
            &&& end.phase is Write || end.phase == RelayPhase::Read || end.phase == RelayPhase::Done
            &&& end.result is Some <==> end.phase == RelayPhase::Done
            &&& end.phase == RelayPhase::Done || end.frames_left() <= start.frames_left()
                - replies.len()
        }),
    decreases replies.len(),
{
    if replies.len() > 0 {
        lemma_relay_run(addr, commanded, write, replies.drop_last());
    }
}

/// A status is reported only where the board sent it in reply to a read: the outcome is never
/// made up.
pub proof fn law_relay_status_comes_from_reply(
    cycle: RelayCycleView,
    reply: Result<Seq<u8>, RtuFault>,
    measured: u8,
)
    requires
        cycle.result is None,
        cycle.after_reply(reply).result == Some(Ok::<u8, RtuFault>(measured)),
    ensures
        cycle.phase == RelayPhase::Read,
        reply matches Ok(bytes) && coil_status(bytes, cycle.addr) == Ok::<u8, RtuFault>(measured),
{
}

/// Where the board acknowledges each of the eight writes and then reports `measured`, the cycle
/// has sent all relays in order and asked for the status. It is over with `measured` where that
/// agrees with the command or the second round is done, else it starts the second round.
pub proof fn law_relay_round(
    addr: u8,
    commanded: u8,
    retried: bool,
    replies: Seq<Result<Seq<u8>, RtuFault>>,
    measured: u8,
)
    requires
        replies.len() == 9,
        forall|i: int|
            0 <= i < 8 ==> ((#[trigger] replies[i]) matches Ok(bytes) && write_ack(bytes) is Ok),
        replies[8] matches Ok(bytes) && coil_status(bytes, addr) == Ok::<u8, RtuFault>(measured),
    ensures
        ({
            let start = RelayCycleView {
                retried,
                ..RelayCycleView::started(addr, commanded, true)
            };
            &&& forall|k: int|
                0 <= k < 8 ==> relay_run(start, #[trigger] replies.take(k)).step() == (
                BusStepView::Transact {
                    frame: write_coil_frame(addr, k as u8, relay_on(commanded, k)),
                    min_len: WRITE_REPLY_LEN as nat,
                })
            &&& relay_run(start, replies.take(8)).step() == (BusStepView::Transact {
                frame: read_coils_frame(addr),
                min_len: READ_REPLY_LEN as nat,
            })
            &&& relay_run(start, replies) == if measured == commanded || retried {
                start.ended(Ok(measured))
            } else {
                RelayCycleView { retried: true, ..start }
            }
        }),
{
    let start = RelayCycleView { retried, ..RelayCycleView::started(addr, commanded, true) };
    assert forall|k: int| 0 <= k < 8 implies relay_run(start, #[trigger] replies.take(k)) == (
    RelayCycleView { phase: RelayPhase::Write { channel: k as u8 }, ..start }) by {
        lemma_relay_writes(start, replies, k);
    }
    lemma_relay_writes(start, replies, 8);
    assert(replies.take(9) == replies);
    assert(replies.drop_last() == replies.take(8));
}

proof fn lemma_relay_writes(
    start: RelayCycleView,
    replies: Seq<Result<Seq<u8>, RtuFault>>,
    k: int,
)
    requires
        0 <= k <= 8 <= replies.len(),
        start.phase == (RelayPhase::Write { channel: 0 }),
        forall|i: int|
            0 <= i < 8 ==> ((#[trigger] replies[i]) matches Ok(bytes) && write_ack(bytes) is Ok),
    ensures
        relay_run(start, replies.take(k)) == (RelayCycleView {
            phase: if k < 8 {
                RelayPhase::Write { channel: k as u8 }
            } else {
                RelayPhase::Read
            },
            ..start
        }),
    decreases k,
{
    if k > 0 {
        lemma_relay_writes(start, replies, k - 1);
        assert(replies.take(k).drop_last() == replies.take(k - 1));
        assert(replies.take(k).last() == replies[k - 1]);
    }
}

/// A write to channel 0 to 7 is eight bytes: the address, 5, 0, the channel, FF for on or 00 for
/// off, 0, and the checksum. A read is eight bytes too: the address, 1, 00 FF 00 01, and the
/// checksum.
pub proof fn law_relay_frame_bytes(addr: u8, channel: u8, on: bool)
    requires
        channel < 8,
    ensures
        ({
            let write = write_coil_frame(addr, channel, on);
            &&& write.len() == 8
            &&& write[0] == addr
            &&& write[1] == 0x05
            &&& write[2] == 0x00
            &&& write[3] == channel
            &&& on ==> write[4] == 0xFF
            &&& !on ==> write[4] == 0x00
            &&& write[5] == 0x00
            &&& crc_ok(write)
        }),
        ({
            let read = read_coils_frame(addr);
            &&& read.len() == 8
            &&& read[0] == addr
            &&& read[1] == 0x01
            &&& read[2] == 0x00
            &&& read[3] == 0xFF
            &&& read[4] == 0x00
            &&& read[5] == 0x01
            &&& crc_ok(read)
        }),
{
    let written = seq![
        0x00u8,
        channel % 8,
        if on {
            0xFFu8
        } else {
            0x00
        },
        0x00,
    ];
    let asked = seq![0x00u8, 0xFF, 0x00, 0x01];
    law_request_bytes(addr, FC_WRITE_SINGLE_COIL, written);
    law_request_bytes(addr, FC_READ_COILS, asked);
    law_requests_check(addr, FC_WRITE_SINGLE_COIL, written);
    law_requests_check(addr, FC_READ_COILS, asked);
    assert(write_coil_frame(addr, channel, on) == request_frame(
        addr,
        FC_WRITE_SINGLE_COIL,
        written,
    ));
    assert(write_coil_frame(addr, channel, on)[3] == written[1]);
    assert(write_coil_frame(addr, channel, on)[4] == written[2]);
    assert(read_coils_frame(addr)[3] == asked[1]);
}

/// The relays of a board after a single-coil write: the bit that the fourth byte names is set where
/// the fifth is FF, and cleared where it is not.
pub open spec fn board_after_write(relays: u8, frame: Seq<u8>) -> u8 {
    if frame[4] == 0xFF {
        relays | (1u8 << frame[3])
    } else {
        relays & !(1u8 << frame[3])
    }
}

/// The relays of a board after the frames of a write round, of which the cycle sends one after
/// each of `replies`, for the first `count` of them.
pub open spec fn board_after_round(
    relays: u8,
    start: RelayCycleView,
    replies: Seq<Result<Seq<u8>, RtuFault>>,
    count: int,
) -> u8
    decreases count,
{
    if count <= 0 {
        relays
    } else {
        match relay_run(start, replies.take(count - 1)).step() {
            BusStepView::Transact { frame, .. } => board_after_write(
                board_after_round(relays, start, replies, count - 1),
                frame,
            ),
            _ => relays,
        }
    }
}

/// Whatever a board's relays were, once it has done the eight writes of a round they are exactly
/// the commanded ones.
pub proof fn law_board_ends_as_commanded(
    relays: u8,
    addr: u8,
    commanded: u8,
    retried: bool,
    replies: Seq<Result<Seq<u8>, RtuFault>>,
)
    requires
        replies.len() == 8,
        forall|i: int|
            0 <= i < 8 ==> ((#[trigger] replies[i]) matches Ok(bytes) && write_ack(bytes) is Ok),
    ensures
        board_after_round(
            relays,
            RelayCycleView { retried, ..RelayCycleView::started(addr, commanded, true) },
            replies,
            8,
        ) == commanded,
{
    let start = RelayCycleView { retried, ..RelayCycleView::started(addr, commanded, true) };
    lemma_board_after(relays, start, replies, 8);
    let end = board_after_round(relays, start, replies, 8);
    assert forall|i: int| 0 <= i < 8 implies relay_on(end, i) == relay_on(commanded, i) by {}
    lemma_relay_bytes_equal(end, commanded);
}

proof fn lemma_board_after(
    relays: u8,
    start: RelayCycleView,
    replies: Seq<Result<Seq<u8>, RtuFault>>,
    count: int,
)
    requires
        0 <= count <= 8 == replies.len(),
        start.phase == (RelayPhase::Write { channel: 0 }),
        forall|i: int|
            0 <= i < 8 ==> ((#[trigger] replies[i]) matches Ok(bytes) && write_ack(bytes) is Ok),
    ensures
        forall|i: int|
            0 <= i < count ==> #[trigger] relay_on(
                board_after_round(relays, start, replies, count),
                i,
            ) == relay_on(start.commanded, i),
    decreases count,
{
    if count > 0 {
        lemma_board_after(relays, start, replies, count - 1);
        lemma_relay_writes(start, replies, count - 1);
        let before = board_after_round(relays, start, replies, count - 1);
        let after = board_after_round(relays, start, replies, count);
        let at = (count - 1) as u8;
        let on = relay_on(start.commanded, count - 1);
        law_relay_frame_bytes(start.addr, at, on);
        assert(after == board_after_write(before, write_coil_frame(start.addr, at, on)));
        assert forall|i: int| 0 <= i < count implies #[trigger] relay_on(after, i) == relay_on(
            start.commanded,
            i,
        ) by {
            let j = i as u8;
            assert((before | (1u8 << at)) & (1u8 << j) != 0 <==> (at == j || before & (1u8 << j)
                != 0)) by (bit_vector)
                requires
                    at < 8,
                    j < 8,
            ;
            assert((before & !(1u8 << at)) & (1u8 << j) != 0 <==> (at != j && before & (1u8 << j)
                != 0)) by (bit_vector)
                requires
                    at < 8,
                    j < 8,
            ;
            if i < count - 1 {
                assert(relay_on(before, i) == relay_on(start.commanded, i));
            }
        }
    }
}

/// No two frames of a cycle follow each other without the gap between them: after each reply the
/// cycle pauses or is over, and after a pause a frame follows.
pub proof fn law_relay_gaps(cycle: RelayCycleView, reply: Result<Seq<u8>, RtuFault>)
    ensures
        cycle.step() is Transact ==> cycle.after_reply(reply).step() is Pause || cycle.after_reply(
            reply,
        ).step() is Finished,
        cycle.step() is Pause ==> cycle.after_pause().step() is Transact,
        cycle.phase is Write && (reply matches Ok(bytes) && write_ack(bytes) is Ok)
            ==> cycle.after_reply(reply).step() is Pause,
{
}

/// A step on the bus is seen as what is to be done.
pub proof fn law_bus_step_views(frame: Vec<u8>, min_len: usize)
    ensures
        (BusStep::Transact { frame, min_len })@ == (BusStepView::Transact {
            frame: frame@,
            min_len: min_len as nat,
        }),
        BusStep::Pause@ == BusStepView::Pause,
        BusStep::Finished@ == BusStepView::Finished,
{
}

/// A reply to a read gives its fourth byte, and does so exactly where it has six bytes or more,
/// comes from the board that was asked, repeats the function code 1 and counts a byte. Else it is
/// refused: a short one for its length, any other for the first of these that fails.
pub proof fn law_read_reply(reply: Seq<u8>, addr: u8, status: u8)
    ensures
        coil_status(reply, addr) == Ok::<u8, RtuFault>(status) <==> reply.len() >= 6 && reply[0]
            == addr && reply[1] == 0x01 && reply[2] != 0 && reply[3] == status,
        coil_status(reply, addr) == Err::<u8, RtuFault>(RtuFault::Short(reply.len()))
            <==> reply.len() < 6,
        reply.len() >= 6 && reply[0] != addr ==> coil_status(reply, addr) == Err::<u8, RtuFault>(
            RtuFault::Unexpected("addr "@ + hex_byte_text(reply[0]) + " != "@ + hex_byte_text(addr)),
        ),
        reply.len() >= 6 && reply[0] == addr && reply[1] != 0x01 ==> coil_status(reply, addr)
            == Err::<u8, RtuFault>(
            RtuFault::Unexpected("fc "@ + hex_byte_text(reply[1]) + ", expected 01"@),
        ),
        reply.len() >= 6 && reply[0] == addr && reply[1] == 0x01 && reply[2] == 0 ==> coil_status(
            reply,
            addr,
        ) == Err::<u8, RtuFault>(RtuFault::Unexpected("byte count 0"@)),
{
}

/// A write counts as done exactly where the second byte of its reply is the function code 5.
pub proof fn law_write_reply(reply: Seq<u8>)
    ensures
        write_ack(reply) is Ok <==> reply.len() >= 2 && reply[1] == 0x05,
        reply.len() >= 2 && reply[1] != 0x05 ==> write_ack(reply) == Err::<(), RtuFault>(
            RtuFault::Unexpected("write ack fc Some("@ + hex_byte_text(reply[1]) + ")"@),
        ),
        reply.len() < 2 ==> write_ack(reply) == Err::<(), RtuFault>(
            RtuFault::Unexpected("write ack fc None"@),
        ),
{
}

/// A cycle that does not write sends one read, whatever is commanded, and its outcome is what the
/// board says, or why it says nothing.
pub proof fn law_read_only_cycle(
    addr: u8,
    commanded: u8,
    reply: Result<Seq<u8>, RtuFault>,
)
    ensures
        ({
            let start = RelayCycleView::started(addr, commanded, false);
            let end = start.after_reply(reply);
            &&& start.step() == (BusStepView::Transact {
                frame: read_coils_frame(addr),
                min_len: 6,
            })
            &&& end.step() == BusStepView::Finished
            &&& reply matches Err(fault) ==> end.result == Some(Err::<u8, RtuFault>(fault))
            &&& reply matches Ok(bytes) ==> end.result == Some(coil_status(bytes, addr))
        }),
{
}

/// A write that gets no good reply ends the cycle at once with what went wrong, and so does a read.
/// Replies to writes have at least eight bytes.
pub proof fn law_relay_fault_ends_cycle(
    cycle: RelayCycleView,
    reply: Result<Seq<u8>, RtuFault>,
    fault: RtuFault,
)
    requires
        cycle.phase is Write || cycle.phase == RelayPhase::Read,
        match reply {
            Err(found) => found == fault,
            Ok(bytes) => if cycle.phase is Write {
                write_ack(bytes) == Err::<(), RtuFault>(fault)
            } else {
                coil_status(bytes, cycle.addr) == Err::<u8, RtuFault>(fault)
            },
        },
    ensures
        cycle.after_reply(reply).step() == BusStepView::Finished,
        cycle.after_reply(reply).result == Some(Err::<u8, RtuFault>(fault)),
        cycle.phase is Write ==> (cycle.step() matches BusStepView::Transact { min_len, .. }
            && min_len == 8),
{
}

} // verus!
