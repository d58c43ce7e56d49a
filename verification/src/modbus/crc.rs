//! Modbus RTU CRC-16 (polynomial 0xA001, initial value 0xFFFF).
use vstd::prelude::*;

verus! {

/// One bit of the checksum: shifted out at the low end, with the polynomial added where it was
/// set.
pub open spec fn crc_bit(crc: u16) -> u16 {
    if crc & 1 != 0 {
        (crc >> 1) ^ 0xA001
    } else {
        crc >> 1
    }
}

/// `count` bits of the checksum.
pub open spec fn crc_bits(crc: u16, count: nat) -> u16
    decreases count,
{
    if count == 0 {
        crc
    } else {
        crc_bit(crc_bits(crc, (count - 1) as nat))
    }
}

/// The checksum after one more byte.
pub open spec fn crc_byte(crc: u16, byte: u8) -> u16 {
    crc_bits(crc ^ (byte as u16), 8)
}

/// The checksum of `data`.
pub open spec fn crc_of(data: Seq<u8>) -> u16
    decreases data.len(),
{
    if data.len() == 0 {
        0xFFFF
    } else {
        crc_byte(crc_of(data.drop_last()), data.last())
    }
}

/// A word as its low byte and its high byte.
pub open spec fn word_bytes(word: u16) -> Seq<u8> {
    seq![(word % 256) as u8, (word / 256) as u8]
}

/// The word with this low byte and this high byte.
pub open spec fn bytes_word(low: u8, high: u8) -> u16 {
    (low + 256 * high) as u16
}

/// The low byte of a word.
pub fn low_byte(word: u16) -> (byte: u8)
    ensures
        byte == word % 256,
{
    (word % 256) as u8
}

/// The high byte of a word.
pub fn high_byte(word: u16) -> (byte: u8)
    ensures
        byte == word / 256,
{
    (word / 256) as u8
}

/// The word with this low byte and this high byte.
pub fn word_of(low: u8, high: u8) -> (word: u16)
    ensures
        word == bytes_word(low, high),
        word == low + 256 * high,
{
    low as u16 + 256 * (high as u16)
}

/// The bytes of a word make up the word again.
pub proof fn law_word_bytes_round_trip(word: u16)
    ensures
        bytes_word(word_bytes(word)[0], word_bytes(word)[1]) == word,
{
}

/// `data` with its checksum, low byte first.
pub open spec fn with_crc(data: Seq<u8>) -> Seq<u8> {
    data + word_bytes(crc_of(data))
}

/// Whether the last two bytes of `frame` are the checksum of the one or more bytes before them.
pub open spec fn crc_ok(frame: Seq<u8>) -> bool {
    &&& frame.len() >= 3
    &&& bytes_word(frame[frame.len() - 2], frame[frame.len() - 1]) == crc_of(
        frame.take(frame.len() - 2),
    )
}

/// The checksum of the first `len` bytes of `data`.
fn crc_prefix(data: &[u8], len: usize) -> (crc: u16)
    requires
        len <= data@.len(),
    ensures
        crc == crc_of(data@.take(len as int)),
{
    let mut crc: u16 = 0xFFFF;
    let mut i: usize = 0;
    while i < len
        invariant
            i <= len <= data@.len(),
            crc == crc_of(data@.take(i as int)),
        decreases len - i,
    {
        crc = crc ^ (data[i] as u16);
        let ghost start = crc;
        let mut bit: u32 = 0;
        while bit < 8
            invariant
                bit <= 8,
                crc == crc_bits(start, bit as nat),
            decreases 8 - bit,
        {
            if crc & 1 != 0 {
                crc = (crc >> 1) ^ 0xA001;
            } else {
                crc = crc >> 1;
            }
            bit = bit + 1;
        }
        assert(data@.take(i + 1).drop_last() == data@.take(i as int));
        assert(data@.take(i + 1).last() == data@[i as int]);
        i = i + 1;
    }
    crc
}

/// The Modbus RTU checksum of `data`.
#[must_use]
pub fn crc16(data: &[u8]) -> (crc: u16)
    ensures
        crc == crc_of(data@),
{
    assert(data@.take(data@.len() as int) == data@);
    crc_prefix(data, data.len())
}

/// Appends the checksum of `frame` to it, low byte first.
pub fn append_crc(frame: &mut Vec<u8>)
    ensures
        final(frame)@ == with_crc(old(frame)@),
{
    let crc: u16 = crc16(frame.as_slice());
    frame.push(low_byte(crc));
    frame.push(high_byte(crc));
    assert(frame@ =~= with_crc(old(frame)@));
}

/// Whether the last two bytes of `frame` are the checksum of the one or more bytes before them.
#[must_use]
pub fn check_crc(frame: &[u8]) -> (ok: bool)
    ensures
        ok == crc_ok(frame@),
{
    let len: usize = frame.len();
    if len < 3 {
        return false;
    }
    let expected: u16 = crc_prefix(frame, len - 2);
    let got: u16 = word_of(frame[len - 2], frame[len - 1]);
    expected == got
}

/// A frame of one or more bytes passes the check once its checksum is appended.
pub proof fn law_appended_crc_checks(data: Seq<u8>)
    requires
        data.len() > 0,
    ensures
        crc_ok(with_crc(data)),
{
    let frame = with_crc(data);
    assert(frame.take(frame.len() - 2) == data);
    law_word_bytes_round_trip(crc_of(data));
}

proof fn lemma_crc_bits_injective(a: u16, b: u16, count: nat)
    requires
        a != b,
    ensures
        crc_bits(a, count) != crc_bits(b, count),
    decreases count,
{
    if count > 0 {
        lemma_crc_bits_injective(a, b, (count - 1) as nat);
        let x = crc_bits(a, (count - 1) as nat);
        let y = crc_bits(b, (count - 1) as nat);
        let x1 = if x & 1 != 0 {
            (x >> 1) ^ 0xA001
        } else {
            x >> 1
        };
        let y1 = if y & 1 != 0 {
            (y >> 1) ^ 0xA001
        } else {
            y >> 1
        };
        assert(x1 != y1) by (bit_vector)
            requires
                x != y,
                x1 == if x & 1 != 0 {
                    (x >> 1) ^ 0xA001
                } else {
                    x >> 1
                },
                y1 == if y & 1 != 0 {
                    (y >> 1) ^ 0xA001
                } else {
                    y >> 1
                },
        ;
    }
}

proof fn lemma_crc_byte_differs(a: u16, b: u16, x: u8, y: u8)
    requires
        (a != b) != (x != y),
    ensures
        crc_byte(a, x) != crc_byte(b, y),
{
    let wide_x = x as u16;
    let wide_y = y as u16;
    assert(a ^ wide_x != b ^ wide_y) by (bit_vector)
        requires
            (a != b) != (wide_x != wide_y),
    ;
    lemma_crc_bits_injective(a ^ wide_x, b ^ wide_y, 8);
}

/// Whether two frames of the same length differ in the byte at `at` and nowhere else.
pub open spec fn differ_at(a: Seq<u8>, b: Seq<u8>, at: int) -> bool {
    &&& a.len() == b.len()
    &&& 0 <= at < a.len()
    &&& a[at] != b[at]
    &&& forall|i: int| 0 <= i < a.len() && i != at ==> a[i] == b[i]
}

proof fn lemma_crc_differs(a: Seq<u8>, b: Seq<u8>, at: int)
    requires
        differ_at(a, b, at),
    ensures
        crc_of(a) != crc_of(b),
    decreases a.len(),
{
    if at == a.len() - 1 {
        assert(a.drop_last() == b.drop_last());
        lemma_crc_byte_differs(crc_of(a.drop_last()), crc_of(b.drop_last()), a.last(), b.last());
    } else {
        lemma_crc_differs(a.drop_last(), b.drop_last(), at);
        lemma_crc_byte_differs(crc_of(a.drop_last()), crc_of(b.drop_last()), a.last(), b.last());
    }
}

/// A frame that passes the check fails it once any one byte of it is changed.
pub proof fn law_crc_detects_changed_byte(frame: Seq<u8>, corrupt: Seq<u8>, at: int)
    requires
        crc_ok(frame),
        differ_at(frame, corrupt, at),
    ensures
        !crc_ok(corrupt),
{
    let body = frame.take(frame.len() - 2);
    let other = corrupt.take(corrupt.len() - 2);
    if at < body.len() {
        lemma_crc_differs(body, other, at);
    } else {
        assert(body == other);
    }
}

/// A word is its low byte plus 256 times its high byte, and is sent with the low byte first.
pub proof fn law_word_bytes(word: u16)
    ensures
        word_bytes(word).len() == 2,
        word_bytes(word)[0] + 256 * word_bytes(word)[1] == word,
        forall|low: u8, high: u8| #[trigger] bytes_word(low, high) == low + 256 * high,
{
}

/// One bit of the checksum can be undone: the highest bit of the result says whether a one was
/// shifted out, and then the polynomial `0xA001` is taken off again.
pub proof fn law_crc_bit_undone(crc: u16)
    ensures
        ({
            let next = crc_bit(crc);
            &&& crc % 2 == 1 <==> next & 0x8000 != 0
            &&& crc == if next & 0x8000 != 0 {
                ((next ^ 0xA001) << 1) | 1
            } else {
                next << 1
            }
        }),
{
    let next = if crc & 1 != 0 {
        (crc >> 1) ^ 0xA001
    } else {
        crc >> 1
    };
    assert((crc % 2 == 1 <==> next & 0x8000 != 0) && crc == if next & 0x8000 != 0 {
        ((next ^ 0xA001) << 1) | 1
    } else {
        next << 1
    }) by (bit_vector)
        requires
            next == if crc & 1 != 0 {
                (crc >> 1) ^ 0xA001
            } else {
                crc >> 1
            },
    ;
}

/// The checksum of no bytes is `0xFFFF`, and each further byte is added to its low half and then
/// shifted through bit by bit, eight times.
pub proof fn law_crc_by_bytes(data: Seq<u8>, byte: u8)
    ensures
        crc_of(Seq::<u8>::empty()) == 0xFFFF,
        ({
            let b0 = crc_of(data) ^ (byte as u16);
            let b4 = crc_bit(crc_bit(crc_bit(crc_bit(b0))));
            crc_of(data.push(byte)) == crc_bit(crc_bit(crc_bit(crc_bit(b4))))
        }),
{
    assert(data.push(byte).drop_last() =~= data);
    reveal_with_fuel(crc_bits, 9);
}

/// A frame is its data followed by the checksum of the data, and it passes the check exactly where
/// its last two bytes are the checksum of the one or more bytes before them.
pub proof fn law_checked_frames(data: Seq<u8>, frame: Seq<u8>)
    ensures
        with_crc(data).len() == data.len() + 2,
        forall|i: int| 0 <= i < data.len() ==> #[trigger] with_crc(data)[i] == data[i],
        ({
            let n = data.len() as int;
            with_crc(data)[n] + 256 * with_crc(data)[n + 1] == crc_of(data)
        }),
        crc_ok(frame) <==> frame.len() >= 3 && frame[frame.len() - 2] + 256 * frame[frame.len() - 1]
            == crc_of(frame.take(frame.len() - 2)),
{
}

} // verus!
