//! Modbus RTU frames, bus errors, and the reception of a reply.
use vstd::prelude::*;

use crate::modbus::crc::{
    append_crc, check_crc, crc_of, crc_ok, law_appended_crc_checks, law_word_bytes, with_crc,
};
use crate::text::{decimal, decimal_text, hex_byte, hex_byte_text};

verus! {

/// What can go wrong in a bus transaction.
#[derive(Debug)]
pub enum RtuError {
    /// Reading from or writing to the serial port failed, with this text.
    Io(String),
    /// Opening or configuring the serial port failed, with this text.
    Port(String),
    /// No complete reply within this many milliseconds.
    Timeout(u64),
    /// The checksum of the reply is wrong.
    Crc,
    /// The reply has only this many bytes.
    Short(usize),
    /// The reply is not the expected one, with this text.
    Unexpected(String),
}

/// What an [`RtuError`] says.
pub enum RtuFault {
    Io(Seq<char>),
    Port(Seq<char>),
    Timeout(u64),
    Crc,
    Short(nat),
    Unexpected(Seq<char>),
}

impl View for RtuError {
    type V = RtuFault;

    open spec fn view(&self) -> RtuFault {
        match *self {
            RtuError::Io(text) => RtuFault::Io(text@),
            RtuError::Port(text) => RtuFault::Port(text@),
            RtuError::Timeout(ms) => RtuFault::Timeout(ms),
            RtuError::Crc => RtuFault::Crc,
            RtuError::Short(len) => RtuFault::Short(len as nat),
            RtuError::Unexpected(text) => RtuFault::Unexpected(text@),
        }
    }
}

/// What the outcome of a bus operation holds.
pub open spec fn outcome<T: View>(result: Result<T, RtuError>) -> Result<T::V, RtuFault> {
    match result {
        Ok(value) => Ok(value@),
        Err(error) => Err(error@),
    }
}

/// The debug text of a duration of so many milliseconds.
pub uninterp spec fn duration_text(ms: u64) -> Seq<char>;

/// The `Debug` text of a `std::time::Duration`, which is a function of the duration alone.
#[verifier::external_body]
fn duration_debug(ms: u64) -> (text: String)
    ensures
        text@ == duration_text(ms),
{
    format!("{:?}", std::time::Duration::from_millis(ms))
}

/// The message of a bus error.
pub open spec fn fault_text(fault: RtuFault) -> Seq<char> {
    match fault {
        RtuFault::Io(text) => "serial I/O: "@ + text,
        RtuFault::Port(text) => "serial port: "@ + text,
        RtuFault::Timeout(ms) => "response timeout after "@ + duration_text(ms),
        RtuFault::Crc => "CRC mismatch"@,
        RtuFault::Short(len) => "short / empty response ("@ + decimal_text(len) + " bytes)"@,
        RtuFault::Unexpected(text) => "unexpected response: "@ + text,
    }
}

impl RtuError {
    /// The message of the error.
    pub fn message(&self) -> (text: String)
        ensures
            text@ == fault_text(self@),
    {
        match self {
            RtuError::Io(detail) => {
                let mut text = "serial I/O: ".to_owned();
                text.append(detail.as_str());
                text
            },
            RtuError::Port(detail) => {
                let mut text = "serial port: ".to_owned();
                text.append(detail.as_str());
                text
            },
            RtuError::Timeout(ms) => {
                let mut text = "response timeout after ".to_owned();
                let duration = duration_debug(*ms);
                text.append(duration.as_str());
                text
            },
            RtuError::Crc => "CRC mismatch".to_owned(),
            RtuError::Short(len) => {
                let mut text = "short / empty response (".to_owned();
                let digits = decimal(*len as u64);
                text.append(digits.as_str());
                text.append(" bytes)");
                text
            },
            RtuError::Unexpected(detail) => {
                let mut text = "unexpected response: ".to_owned();
                text.append(detail.as_str());
                text
            },
        }
    }
}

/// The request frame with this address, function code and payload, and its checksum.
pub open spec fn request_frame(addr: u8, fc: u8, payload: Seq<u8>) -> Seq<u8> {
    with_crc(seq![addr, fc] + payload)
}

/// Builds a request: address, function code, payload, and the checksum with its low byte first.
#[must_use]
pub fn build_request(addr: u8, fc: u8, payload: &[u8]) -> (frame: Vec<u8>)
    ensures
        frame@ == request_frame(addr, fc, payload@),
{
    let mut frame: Vec<u8> = Vec::new();
    frame.push(addr);
    frame.push(fc);
    frame.extend_from_slice(payload);
    assert(frame@ =~= seq![addr, fc] + payload@);
    append_crc(&mut frame);
    frame
}

/// Every request passes the checksum test, and starts with its address, function code and
/// payload.
pub proof fn law_requests_check(addr: u8, fc: u8, payload: Seq<u8>)
    ensures
        crc_ok(request_frame(addr, fc, payload)),
        request_frame(addr, fc, payload).len() == payload.len() + 4,
        request_frame(addr, fc, payload).take(payload.len() as int + 2) == seq![addr, fc] + payload,
{
    law_appended_crc_checks(seq![addr, fc] + payload);
}

/// The bytes in hexadecimal, with a space between each two.
pub open spec fn hex_preview_text(bytes: Seq<u8>) -> Seq<char>
    decreases bytes.len(),
{
    if bytes.len() == 0 {
        Seq::empty()
    } else if bytes.len() == 1 {
        hex_byte_text(bytes[0])
    } else {
        hex_preview_text(bytes.drop_last()) + seq![' '] + hex_byte_text(bytes.last())
    }
}

/// The bytes as upper-case hexadecimal pairs, with a space between each two.
#[must_use]
pub fn hex_preview(bytes: &[u8]) -> (text: String)
    ensures
        text@ == hex_preview_text(bytes@),
{
    let mut text = String::new();
    let mut i: usize = 0;
    while i < bytes.len()
        invariant
            i <= bytes@.len(),
            text@ == hex_preview_text(bytes@.take(i as int)),
        decreases bytes@.len() - i,
    {
        if i > 0 {
            text.push(' ');
        }
        let pair = hex_byte(bytes[i]);
        text.append(pair.as_str());
        assert(bytes@.take(i + 1).drop_last() == bytes@.take(i as int));
        i = i + 1;
    }
    assert(bytes@.take(bytes@.len() as int) == bytes@);
    text
}

/// Longest time that a single read may block, in nanoseconds.
pub const READ_SLICE_NS: u64 = 50_000_000;

/// What a read from the serial port gave.
#[derive(Debug)]
pub enum ReadEvent {
    /// These bytes; none where the read returned without any.
    Bytes(Vec<u8>),
    /// The read timed out.
    TimedOut,
    /// The read failed, with this text.
    Failed(String),
}

/// What a [`ReadEvent`] holds.
pub enum ReadEventView {
    Bytes(Seq<u8>),
    TimedOut,
    Failed(Seq<char>),
}

impl View for ReadEvent {
    type V = ReadEventView;

    open spec fn view(&self) -> ReadEventView {
        match *self {
            ReadEvent::Bytes(bytes) => ReadEventView::Bytes(bytes@),
            ReadEvent::TimedOut => ReadEventView::TimedOut,
            ReadEvent::Failed(text) => ReadEventView::Failed(text@),
        }
    }
}

/// The reception of a reply, once the request is out. Times are in nanoseconds.
#[derive(Debug)]
pub struct Receiver {
    min_len: usize,
    timeout_ms: u64,
    quiet_ns: u128,
    deadline_ns: u128,
    last_byte_ns: u64,
    bytes: Vec<u8>,
    over: bool,
    fault: Option<RtuError>,
}

/// What a [`Receiver`] holds.
pub struct ReceiverView {
    /// Fewest bytes of a reply, checksum counted.
    pub min_len: nat,
    pub timeout_ms: u64,
    /// Silence that ends a reply of enough bytes.
    pub quiet_ns: int,
    pub deadline_ns: int,
    pub last_byte_ns: int,
    /// What has been received.
    pub bytes: Seq<u8>,
    /// Whether no more is read.
    pub over: bool,
    pub fault: Option<RtuFault>,
}

impl ReceiverView {
    /// A reception that starts at `now_ns`.
    pub open spec fn started(
        min_len: nat,
        timeout_ms: u64,
        quiet_ms: u64,
        now_ns: int,
    ) -> ReceiverView {
        ReceiverView {
            min_len,
            timeout_ms,
            quiet_ns: quiet_ms * 1000000,
            deadline_ns: now_ns + timeout_ms * 1000000,
            last_byte_ns: now_ns,
            bytes: Seq::empty(),
            over: false,
            fault: None,
        }
    }

    /// Whether there are enough bytes for a reply.
    pub open spec fn enough(self) -> bool {
        self.bytes.len() >= self.min_len
    }

    /// The reception once the clock was looked at before a read.
    pub open spec fn polled(self, now_ns: int) -> ReceiverView {
        if self.over || now_ns < self.deadline_ns {
            self
        } else if self.enough() {
            ReceiverView { over: true, ..self }
        } else {
            ReceiverView { over: true, fault: Some(RtuFault::Timeout(self.timeout_ms)), ..self }
        }
    }

    /// The time that the next read may block: what is left until the deadline, and at most one
    /// read slice.
    pub open spec fn read_budget(self, now_ns: int) -> int {
        if self.deadline_ns - now_ns < READ_SLICE_NS {
            self.deadline_ns - now_ns
        } else {
            READ_SLICE_NS as int
        }
    }

    /// Whether the bytes so far are an exception reply: five bytes, with the high bit of the
    /// function code set.
    pub open spec fn exception_reply(self) -> bool {
        self.bytes.len() >= 5 && self.bytes[1] & 0x80 != 0
    }

    /// The time since the last byte.
    pub open spec fn silence_ns(self, now_ns: int) -> int {
        if now_ns < self.last_byte_ns {
            0
        } else {
            now_ns - self.last_byte_ns
        }
    }

    /// The reception after a read.
    pub open spec fn after_read(self, event: ReadEventView, now_ns: int) -> ReceiverView {
        if self.over {
            self
        } else {
            match event {
                ReadEventView::Bytes(bytes) => if bytes.len() == 0 {
                    ReceiverView {
                        over: self.enough() && self.silence_ns(now_ns) >= self.quiet_ns,
                        ..self
                    }
                } else {
                    let more = ReceiverView {
                        bytes: self.bytes + bytes,
                        last_byte_ns: now_ns,
                        ..self
                    };
                    ReceiverView { over: more.exception_reply(), ..more }
                },
                ReadEventView::TimedOut => ReceiverView { over: self.enough(), ..self },
                ReadEventView::Failed(text) => ReceiverView {
                    over: true,
                    fault: Some(RtuFault::Io(text)),
                    ..self
                },
            }
        }
    }

    /// The outcome: the fault if there was one, else the bytes, if they are enough and their
    /// checksum is right.
    pub open spec fn result(self) -> Result<Seq<u8>, RtuFault> {
        match self.fault {
            Some(fault) => Err(fault),
            None => if !self.enough() {
                Err(RtuFault::Short(self.bytes.len()))
            } else if !crc_ok(self.bytes) {
                Err(RtuFault::Crc)
            } else {
                Ok(self.bytes)
            },
        }
    }
}

impl View for Receiver {
    type V = ReceiverView;

    closed spec fn view(&self) -> ReceiverView {
        ReceiverView {
            min_len: self.min_len as nat,
            timeout_ms: self.timeout_ms,
            quiet_ns: self.quiet_ns as int,
            deadline_ns: self.deadline_ns as int,
            last_byte_ns: self.last_byte_ns as int,
            bytes: self.bytes@,
            over: self.over,
            fault: match self.fault {
                Some(error) => Some(error@),
                None => None,
            },
        }
    }
}

impl Receiver {
    /// Starts the reception of a reply of at least `min_len` bytes, checksum counted.
    pub fn new(min_len: usize, timeout_ms: u64, quiet_ms: u64, now_ns: u64) -> (receiver: Self)
        ensures
            receiver@ == ReceiverView::started(min_len as nat, timeout_ms, quiet_ms, now_ns as int),
    {
        Receiver {
            min_len,
            timeout_ms,
            quiet_ns: quiet_ms as u128 * 1_000_000,
            deadline_ns: now_ns as u128 + timeout_ms as u128 * 1_000_000,
            last_byte_ns: now_ns,
            bytes: Vec::new(),
            over: false,
            fault: None,
        }
    }

    /// Looks at the clock before a read: the time that the read may block, in nanoseconds, or
    /// `None` where the reception is over.
    pub fn poll(&mut self, now_ns: u64) -> (budget_ns: Option<u64>)
        ensures
            final(self)@ == old(self)@.polled(now_ns as int),
            final(self)@.over <==> budget_ns is None,
            budget_ns matches Some(ns) ==> ns == old(self)@.read_budget(now_ns as int) && 0 < ns
                <= READ_SLICE_NS,
    {
        if self.over {
            return None;
        }
        if now_ns as u128 >= self.deadline_ns {
            self.over = true;
            if self.bytes.len() < self.min_len {
                self.fault = Some(RtuError::Timeout(self.timeout_ms));
            }
            return None;
        }
        let remaining: u128 = self.deadline_ns - now_ns as u128;
        if remaining < READ_SLICE_NS as u128 {
            Some(remaining as u64)
        } else {
            Some(READ_SLICE_NS)
        }
    }

    /// Takes in what a read gave.
    pub fn on_read(&mut self, event: ReadEvent, now_ns: u64)
        ensures
            final(self)@ == old(self)@.after_read(event@, now_ns as int),
    {
        if self.over {
            return;
        }
        match event {
            ReadEvent::Bytes(bytes) => {
                if bytes.len() == 0 {
                    let silent: u128 = now_ns.saturating_sub(self.last_byte_ns) as u128;
                    self.over = self.bytes.len() >= self.min_len && silent >= self.quiet_ns;
                } else {
                    self.bytes.extend_from_slice(bytes.as_slice());
                    assert(self.bytes@ =~= old(self).bytes@ + bytes@);
                    self.last_byte_ns = now_ns;
                    self.over = self.bytes.len() >= 5 && self.bytes[1] & 0x80 != 0;
                }
            },
            ReadEvent::TimedOut => {
                self.over = self.bytes.len() >= self.min_len;
            },
            ReadEvent::Failed(text) => {
                self.over = true;
                self.fault = Some(RtuError::Io(text));
            },
        }
    }

    /// The outcome of the reception.
    pub fn finish(self) -> (result: Result<Vec<u8>, RtuError>)
        ensures
            outcome(result) == self@.result(),
    {
        if let Some(error) = self.fault {
            return Err(error);
        }
        if self.bytes.len() < self.min_len {
            return Err(RtuError::Short(self.bytes.len()));
        }
        if !check_crc(self.bytes.as_slice()) {
            return Err(RtuError::Crc);
        }
        Ok(self.bytes)
    }
}

/// The reception after each read of `reads`, with the clock looked at before each of them: the
/// time before the read, what it gave, and the time after it.
pub open spec fn received(
    start: ReceiverView,
    reads: Seq<(int, ReadEventView, int)>,
) -> ReceiverView
    decreases reads.len(),
{
    if reads.len() == 0 {
        start
    } else {
        let (before, event, after) = reads.last();
        received(start, reads.drop_last()).polled(before).after_read(event, after)
    }
}

/// The bytes that a run of reads gave, in order.
pub open spec fn bytes_read(reads: Seq<(int, ReadEventView, int)>) -> Seq<u8>
    decreases reads.len(),
{
    if reads.len() == 0 {
        Seq::empty()
    } else {
        match reads.last().1 {
            ReadEventView::Bytes(bytes) => bytes_read(reads.drop_last()) + bytes,
            _ => bytes_read(reads.drop_last()),
        }
    }
}

/// A reply that is handed on has the asked-for length and a right checksum, and it is the start
/// of what was read, unchanged and in order; all of it, unless the reception was over before the
/// last read.
pub proof fn law_reply_is_what_was_read(
    min_len: nat,
    timeout_ms: u64,
    quiet_ms: u64,
    now_ns: int,
    reads: Seq<(int, ReadEventView, int)>,
)
    ensures
        ({
            let end = received(ReceiverView::started(min_len, timeout_ms, quiet_ms, now_ns), reads);
            &&& end.min_len == min_len
            &&& end.bytes.is_prefix_of(bytes_read(reads))
            &&& !end.over ==> end.bytes == bytes_read(reads)
            &&& reads.len() > 0 && !received(
                ReceiverView::started(min_len, timeout_ms, quiet_ms, now_ns),
                reads.drop_last(),
            ).polled(reads.last().0).over ==> end.bytes == bytes_read(reads)
            &&& end.result() matches Ok(reply) ==> reply == end.bytes && reply.len() >= min_len
                && crc_ok(reply)
        }),
    decreases reads.len(),
{
    if reads.len() > 0 {
        law_reply_is_what_was_read(min_len, timeout_ms, quiet_ms, now_ns, reads.drop_last());
        let start = ReceiverView::started(min_len, timeout_ms, quiet_ms, now_ns);
        let mid = received(start, reads.drop_last());
        let end = received(start, reads);
        let all = bytes_read(reads);
        let earlier = bytes_read(reads.drop_last());
        assert(earlier.is_prefix_of(all)) by {
            assert(earlier == all.subrange(0, earlier.len() as int));
        }
        if end.bytes == mid.bytes {
            assert(mid.bytes == earlier.subrange(0, mid.bytes.len() as int));
            assert(mid.bytes =~= all.subrange(0, mid.bytes.len() as int));
        } else {
            assert(end.bytes =~= all);
            assert(all =~= all.subrange(0, all.len() as int));
        }
    } else {
        assert(Seq::<u8>::empty() =~= Seq::<u8>::empty().subrange(0, 0));
    }
}

/// A reception is over once the clock has passed its deadline.
pub proof fn law_reception_ends_by_deadline(receiver: ReceiverView, now_ns: int)
    requires
        now_ns >= receiver.deadline_ns,
    ensures
        receiver.polled(now_ns).over,
{
}

/// Every byte of a request in its place: the address, the function code, the payload, and then the
/// checksum of all these with its low byte first.
pub proof fn law_request_bytes(addr: u8, fc: u8, payload: Seq<u8>)
    ensures
        ({
            let frame = request_frame(addr, fc, payload);
            let n = payload.len() as int;
            &&& frame.len() == n + 4
            &&& frame[0] == addr
            &&& frame[1] == fc
            &&& forall|i: int| 0 <= i < n ==> frame[i + 2] == #[trigger] payload[i]
            &&& frame[n + 2] + 256 * frame[n + 3] == crc_of(frame.take(n + 2))
        }),
{
    let frame = request_frame(addr, fc, payload);
    let body = seq![addr, fc] + payload;
    assert(frame.take(payload.len() as int + 2) =~= body);
    law_word_bytes(crc_of(body));
    assert forall|i: int| 0 <= i < payload.len() implies frame[i + 2] == #[trigger] payload[i] by {
        assert(body[i + 2] == payload[i]);
    }
}

/// The message of a bus error says what kind it is, and then what is known of it.
pub proof fn law_fault_texts(text: Seq<char>, ms: u64, len: nat)
    ensures
        fault_text(RtuFault::Io(text)) == "serial I/O: "@ + text,
        fault_text(RtuFault::Port(text)) == "serial port: "@ + text,
        fault_text(RtuFault::Timeout(ms)) == "response timeout after "@ + duration_text(ms),
        fault_text(RtuFault::Crc) == "CRC mismatch"@,
        fault_text(RtuFault::Short(len)) == "short / empty response ("@ + decimal_text(len)
            + " bytes)"@,
        fault_text(RtuFault::Unexpected(text)) == "unexpected response: "@ + text,
{
}

/// The preview of bytes has two hexadecimal digits for each byte, in order, and a space before
/// each but the first.
pub proof fn law_hex_preview(bytes: Seq<u8>, i: int)
    requires
        0 <= i < bytes.len(),
    ensures
        hex_preview_text(bytes).len() == 3 * bytes.len() - 1,
        hex_preview_text(bytes)[3 * i] == hex_byte_text(bytes[i])[0],
        hex_preview_text(bytes)[3 * i + 1] == hex_byte_text(bytes[i])[1],
        i > 0 ==> hex_preview_text(bytes)[3 * i - 1] == ' ',
        hex_preview_text(Seq::<u8>::empty()) == Seq::<char>::empty(),
    decreases bytes.len(),
{
    if bytes.len() > 1 {
        let rest = bytes.drop_last();
        if i < rest.len() {
            law_hex_preview(rest, i);
            assert(rest[i] == bytes[i]);
        } else {
            law_hex_preview(rest, 0);
        }
    }
}

/// A reception starts with nothing received, and its deadline is the timeout later.
pub proof fn law_reception_starts_empty(min_len: nat, timeout_ms: u64, quiet_ms: u64, now_ns: int)
    ensures
        ({
            let start = ReceiverView::started(min_len, timeout_ms, quiet_ms, now_ns);
            &&& start.min_len == min_len
            &&& start.timeout_ms == timeout_ms
            &&& start.bytes.len() == 0
            &&& start.deadline_ns - now_ns == timeout_ms * 1_000_000
            &&& start.quiet_ns == quiet_ms * 1_000_000
            &&& start.last_byte_ns == now_ns
            &&& !start.over
            &&& start.fault is None
        }),
{
}

/// At the deadline a reception is over, with a timeout where too little was received and without a
/// fault where it is enough. Before the deadline it goes on, and a read may block up to the
/// deadline, but no longer than fifty milliseconds.
pub proof fn law_deadline(receiver: ReceiverView, now_ns: int)
    requires
        !receiver.over,
        receiver.fault is None,
    ensures
        ({
            let polled = receiver.polled(now_ns);
            &&& polled.over <==> now_ns >= receiver.deadline_ns
            &&& polled.fault == Some(RtuFault::Timeout(receiver.timeout_ms)) <==> now_ns
                >= receiver.deadline_ns && receiver.bytes.len() < receiver.min_len
            &&& polled.fault is Some ==> polled.fault == Some(
                RtuFault::Timeout(receiver.timeout_ms),
            )
            &&& polled.bytes == receiver.bytes
            &&& polled.min_len == receiver.min_len
            &&& polled.timeout_ms == receiver.timeout_ms
            &&& polled.quiet_ns == receiver.quiet_ns
            &&& polled.deadline_ns == receiver.deadline_ns
            &&& polled.last_byte_ns == receiver.last_byte_ns
            &&& now_ns < receiver.deadline_ns ==> polled == receiver
            &&& receiver.read_budget(now_ns) <= 50_000_000
            &&& receiver.read_budget(now_ns) <= receiver.deadline_ns - now_ns
            &&& receiver.read_budget(now_ns) == 50_000_000 || receiver.read_budget(now_ns)
                == receiver.deadline_ns - now_ns
        }),
{
}

/// Bytes that are read are added to those before them. They end the reception only where they make
/// it an exception reply: five bytes or more, the second of which is at least 128.
pub proof fn law_bytes_are_added(receiver: ReceiverView, bytes: Seq<u8>, now_ns: int)
    requires
        !receiver.over,
        bytes.len() > 0,
    ensures
        ({
            let after = receiver.after_read(ReadEventView::Bytes(bytes), now_ns);
            &&& after.bytes == receiver.bytes + bytes
            &&& after.last_byte_ns == now_ns
            &&& after.over <==> after.bytes.len() >= 5 && after.bytes[1] >= 128
            &&& after.fault == receiver.fault
            &&& after.min_len == receiver.min_len
            &&& after.timeout_ms == receiver.timeout_ms
            &&& after.quiet_ns == receiver.quiet_ns
            &&& after.deadline_ns == receiver.deadline_ns
        }),
{
    let after = receiver.after_read(ReadEventView::Bytes(bytes), now_ns);
    let second = after.bytes[1];
    assert(second & 0x80 != 0 <==> second >= 128) by (bit_vector);
}

/// A read without bytes ends a reception that has enough bytes: at once where the read timed out,
/// and where it did not, once there has been silence for long enough. It ends no other. A read
/// that fails ends it with that fault.
pub proof fn law_silence_ends_reception(receiver: ReceiverView, text: Seq<char>, now_ns: int)
    requires
        !receiver.over,
    ensures
        ({
            let none = receiver.after_read(ReadEventView::Bytes(Seq::empty()), now_ns);
            let timed_out = receiver.after_read(ReadEventView::TimedOut, now_ns);
            let failed = receiver.after_read(ReadEventView::Failed(text), now_ns);
            &&& now_ns >= receiver.last_byte_ns ==> (none.over <==> receiver.bytes.len()
                >= receiver.min_len && now_ns - receiver.last_byte_ns >= receiver.quiet_ns)
            &&& now_ns < receiver.last_byte_ns ==> (none.over <==> receiver.bytes.len()
                >= receiver.min_len && receiver.quiet_ns <= 0)
            &&& timed_out.over <==> receiver.bytes.len() >= receiver.min_len
            &&& failed.over
            &&& failed.fault == Some(RtuFault::Io(text))
            &&& failed.bytes == receiver.bytes
            &&& none == (ReceiverView { over: none.over, ..receiver })
            &&& timed_out == (ReceiverView { over: timed_out.over, ..receiver })
        }),
{
}

/// Once a reception is over, nothing changes it any more.
pub proof fn law_over_is_over(receiver: ReceiverView, event: ReadEventView, now_ns: int)
    requires
        receiver.over,
    ensures
        receiver.after_read(event, now_ns) == receiver,
        receiver.polled(now_ns) == receiver,
{
}

/// A reception gives what was received exactly where there was no fault, there are enough bytes,
/// and the last two are the checksum of those before them. Else it says which of these failed
/// first.
pub proof fn law_reception_outcome(receiver: ReceiverView, reply: Seq<u8>)
    ensures
        receiver.result() == Ok::<Seq<u8>, RtuFault>(reply) <==> receiver.fault is None && reply
            == receiver.bytes && reply.len() >= receiver.min_len && reply.len() >= 3 && reply[reply.len()
            - 2] + 256 * reply[reply.len() - 1] == crc_of(reply.take(reply.len() - 2)),
        receiver.fault matches Some(fault) ==> receiver.result() == Err::<Seq<u8>, RtuFault>(fault),
        receiver.fault is None && receiver.bytes.len() < receiver.min_len ==> receiver.result()
            == Err::<Seq<u8>, RtuFault>(RtuFault::Short(receiver.bytes.len())),
        receiver.fault is None && receiver.bytes.len() >= receiver.min_len && receiver.result() is Err
            ==> receiver.result() == Err::<Seq<u8>, RtuFault>(RtuFault::Crc),
{
}

/// An outcome holds what its value or its error holds, whatever kind of value it is.
pub proof fn law_outcomes<T: View>(value: T, error: RtuError)
    ensures
        outcome(Ok::<T, RtuError>(value)) == Ok::<T::V, RtuFault>(value@),
        outcome(Err::<T, RtuError>(error)) == Err::<T::V, RtuFault>(error@),
{
}

/// A fault is of the kind of its error and says the same; a read is seen as what it gave.
pub proof fn law_outcome_views(bytes: Vec<u8>, text: String, ms: u64, len: usize)
    ensures
        ReadEvent::Bytes(bytes)@ == ReadEventView::Bytes(bytes@),
        ReadEvent::TimedOut@ == ReadEventView::TimedOut,
        ReadEvent::Failed(text)@ == ReadEventView::Failed(text@),
        outcome(Err::<Vec<u8>, RtuError>(RtuError::Io(text))) == Err::<Seq<u8>, RtuFault>(
            RtuFault::Io(text@),
        ),
        outcome(Err::<Vec<u8>, RtuError>(RtuError::Port(text))) == Err::<Seq<u8>, RtuFault>(
            RtuFault::Port(text@),
        ),
        outcome(Err::<Vec<u8>, RtuError>(RtuError::Timeout(ms))) == Err::<Seq<u8>, RtuFault>(
            RtuFault::Timeout(ms),
        ),
        outcome(Err::<Vec<u8>, RtuError>(RtuError::Crc)) == Err::<Seq<u8>, RtuFault>(RtuFault::Crc),
        outcome(Err::<Vec<u8>, RtuError>(RtuError::Short(len))) == Err::<Seq<u8>, RtuFault>(
            RtuFault::Short(len as nat),
        ),
        outcome(Err::<Vec<u8>, RtuError>(RtuError::Unexpected(text))) == Err::<Seq<u8>, RtuFault>(
            RtuFault::Unexpected(text@),
        ),
{
}

} // verus!
