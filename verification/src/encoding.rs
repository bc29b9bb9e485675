//! Wire codec: variable-length integers, length-prefixed strings, booleans,
//! fixed-width big-endian integers, 128-bit identifiers, raw byte arrays, and
//! the length-prefixed packet frame.
//!
//! Every decoder works on an in-memory buffer (`ByteBuf`), reports a typed
//! `DecodeError` instead of guessing, and never consumes input on failure.
//! The specification functions in this module define the wire format itself:
//! `varint_enc` is the canonical encoding of a 32-bit value and `varint_scan`
//! is the meaning of a byte sequence read as a variable-length integer.

use vstd::prelude::*;

use crate::types::VarInt;

verus! {

/// Longest admissible variable-length encoding of a 32-bit integer, in bytes.
pub const MAX_VARINT_SIZE: usize = 5;

/// Maximum number of Unicode scalar values in a decoded string.
pub const MAX_STRING_LENGTH: usize = 32767;

/// Why a decode failed. Every decoder of this crate reports one of these
/// instead of silently substituting a value.
#[derive(Debug, Clone, PartialEq, Eq)]
pub enum DecodeError {
    /// The underlying transport failed. Raised only by callers that do I/O;
    /// the in-memory decoders never produce it.
    Io,
    /// The encoding did not terminate within the five-byte bound: a value
    /// would need more than five bytes.
    VarIntTooLong,
    /// The buffer ended in the middle of a variable-length integer that had
    /// stayed within the five-byte bound.
    InvalidVarInt,
    /// A declared string byte length exceeded the configured ceiling. Carries
    /// the declared length as the decoder observed it.
    StringTooLong(usize),
    /// The declared string bytes were not valid UTF-8.
    InvalidUtf8,
    /// The buffer could not supply the required number of bytes.
    NotEnoughBytes,
}

/// The unsigned 32-bit reinterpretation of a signed value: the bit pattern
/// read as an unsigned number.
pub open spec fn u32_from_i32(v: i32) -> u32 {
    if v >= 0 {
        v as u32
    } else {
        (v + 0x1_0000_0000) as u32
    }
}

/// The signed 32-bit reinterpretation of an unsigned value.
pub open spec fn i32_from_u32(v: u32) -> i32 {
    if v < 0x8000_0000 {
        v as i32
    } else {
        (v - 0x1_0000_0000) as i32
    }
}

/// The two reinterpretations invert each other.
pub proof fn lemma_u32_i32_inverse(v: i32)
    ensures
        i32_from_u32(u32_from_i32(v)) == v,
{
}

/// The unsigned 64-bit reinterpretation of a signed value.
pub open spec fn u64_from_i64(v: i64) -> u64 {
    if v >= 0 {
        v as u64
    } else {
        (v + 0x1_0000_0000_0000_0000) as u64
    }
}

/// The signed 64-bit reinterpretation of an unsigned value.
pub open spec fn i64_from_u64(v: u64) -> i64 {
    if v < 0x8000_0000_0000_0000 {
        v as i64
    } else {
        (v - 0x1_0000_0000_0000_0000) as i64
    }
}

/// The two 64-bit reinterpretations invert each other.
pub proof fn lemma_u64_i64_inverse(v: i64)
    ensures
        i64_from_u64(u64_from_i64(v)) == v,
{
}

/// The canonical variable-length encoding of an unsigned 32-bit value:
/// seven value bits per byte, least-significant group first, the high bit of
/// a byte flagging that another byte follows.
pub open spec fn varint_enc(val: u32) -> Seq<u8>
    decreases val,
{
    if val < 0x80 {
        seq![val as u8]
    } else {
        seq![((val % 0x80) + 0x80) as u8] + varint_enc(val / 0x80)
    }
}

/// What scanning a byte sequence as a variable-length integer yields when at
/// most `max` bytes may be consumed. `value` is the full-precision sum of the
/// seven-bit groups; a decoder truncates it to 32 bits.
pub enum VarIntScan {
    /// A terminating byte was found: the groups sum to `value` and `size`
    /// bytes were consumed.
    Value { value: nat, size: nat },
    /// The input ended before a terminating byte.
    Incomplete,
    /// `max` bytes were consumed and all carried the continuation flag.
    TooLong,
}

/// The meaning of a byte sequence read as a variable-length integer, with at
/// most `max` bytes admissible.
pub open spec fn varint_scan(s: Seq<u8>, max: nat) -> VarIntScan
    decreases max,
{
    if max == 0 {
        VarIntScan::TooLong
    } else if s.len() == 0 {
        VarIntScan::Incomplete
    } else if s[0] < 0x80 {
        VarIntScan::Value { value: s[0] as nat, size: 1 }
    } else {
        match varint_scan(s.skip(1), (max - 1) as nat) {
            VarIntScan::Value { value, size } => VarIntScan::Value {
                value: (s[0] - 0x80) as nat + 0x80 * value,
                size: size + 1,
            },
            VarIntScan::Incomplete => VarIntScan::Incomplete,
            VarIntScan::TooLong => VarIntScan::TooLong,
        }
    }
}

/// The canonical encoding is one to five bytes wide, with the width fixed by
/// the magnitude of the value.
pub proof fn lemma_varint_enc_len(val: u32)
    ensures
        varint_enc(val).len() == (if val < 0x80 {
            1int
        } else if val < 0x4000 {
            2int
        } else if val < 0x20_0000 {
            3int
        } else if val < 0x1000_0000 {
            4int
        } else {
            5int
        }),
    decreases val,
{
    if val >= 0x80 {
        lemma_varint_enc_len(val / 0x80);
    }
}

/// Scanning a canonical encoding, with anything at all appended after it,
/// recovers exactly the encoded value and consumes exactly the encoding.
pub proof fn lemma_varint_scan_enc(val: u32, rest: Seq<u8>, max: nat)
    requires
        varint_enc(val).len() <= max,
    ensures
        varint_scan(varint_enc(val) + rest, max) == (VarIntScan::Value {
            value: val as nat,
            size: varint_enc(val).len(),
        }),
    decreases val,
{
    let e = varint_enc(val);
    if val < 0x80 {
        assert((e + rest)[0] == val as u8);
    } else {
        let tail = varint_enc(val / 0x80);
        assert(e[0] == ((val % 0x80) + 0x80) as u8);
        assert((e + rest)[0] == e[0]);
        assert((e + rest).skip(1) =~= tail + rest);
        lemma_varint_scan_enc(val / 0x80, rest, (max - 1) as nat);
        assert((e[0] - 0x80) as nat + 0x80 * ((val / 0x80) as nat) == val as nat);
    }
}

/// Round trip of the variable-length integer codec, stated over the wire
/// format itself: for every 32-bit value, decoding its encoding (however the
/// stream continues) yields the value back and consumes exactly the bytes the
/// encoder produced.
pub proof fn lemma_varint_round_trip(v: i32, rest: Seq<u8>)
    ensures
        varint_scan(varint_enc(u32_from_i32(v)) + rest, MAX_VARINT_SIZE as nat)
            == (VarIntScan::Value {
            value: u32_from_i32(v) as nat,
            size: varint_enc(u32_from_i32(v)).len(),
        }),
        i32_from_u32(u32_from_i32(v)) == v,
{
    lemma_varint_enc_len(u32_from_i32(v));
    lemma_varint_scan_enc(u32_from_i32(v), rest, MAX_VARINT_SIZE as nat);
}

/// A buffer made only of continuation-flagged bytes, shorter than the
/// five-byte bound, is an incomplete variable-length integer: decoding it
/// fails rather than yielding a partial value.
pub proof fn lemma_varint_truncated(s: Seq<u8>)
    requires
        s.len() < MAX_VARINT_SIZE,
        forall|i: int| 0 <= i < s.len() ==> s[i] >= 0x80,
    ensures
        varint_scan(s, MAX_VARINT_SIZE as nat) == VarIntScan::Incomplete,
{
    lemma_varint_scan_all_cont(s, MAX_VARINT_SIZE as nat);
}

proof fn lemma_varint_scan_all_cont(s: Seq<u8>, max: nat)
    requires
        s.len() < max,
        forall|i: int| 0 <= i < s.len() ==> s[i] >= 0x80,
    ensures
        varint_scan(s, max) == VarIntScan::Incomplete,
    decreases max,
{
    if s.len() > 0 {
        lemma_varint_scan_all_cont(s.skip(1), (max - 1) as nat);
    }
}

/// A stream whose first five bytes all carry the continuation flag exceeds
/// the five-byte bound and is rejected, however it continues: decoding it
/// never yields a value.
pub proof fn lemma_varint_rejects_long_runs(s: Seq<u8>)
    requires
        s.len() >= MAX_VARINT_SIZE,
        forall|i: int| 0 <= i < MAX_VARINT_SIZE ==> s[i] >= 0x80,
    ensures
        varint_scan(s, MAX_VARINT_SIZE as nat) == VarIntScan::TooLong,
{
    lemma_varint_scan_cont_run(s, MAX_VARINT_SIZE as nat);
}

proof fn lemma_varint_scan_cont_run(s: Seq<u8>, max: nat)
    requires
        s.len() >= max,
        forall|i: int| 0 <= i < max ==> s[i] >= 0x80,
    ensures
        varint_scan(s, max) == VarIntScan::TooLong,
    decreases max,
{
    if max > 0 {
        lemma_varint_scan_cont_run(s.skip(1), (max - 1) as nat);
    }
}

/// Appends the variable-length encoding of `value` to `buf`.
pub fn write_varint_sync(buf: &mut Vec<u8>, value: VarInt)
    ensures
        final(buf)@ == old(buf)@ + varint_enc(u32_from_i32(value.0)),
{
    let mut val: u32 = if value.0 >= 0 {
        value.0 as u32
    } else {
        (((value.0 + 1) + 0x7fff_ffff) as u32) + 0x8000_0000
    };
    proof {
        assert(val == u32_from_i32(value.0));
    }
    loop
        invariant_except_break
            buf@ + varint_enc(val) == old(buf)@ + varint_enc(u32_from_i32(value.0)),
        ensures
            buf@ == old(buf)@ + varint_enc(u32_from_i32(value.0)),
        decreases val,
    {
        if val < 0x80 {
            buf.push(val as u8);
            proof {
                assert(buf@ =~= old(buf)@ + varint_enc(u32_from_i32(value.0)));
            }
            break;
        } else {
            let ghost prev = val;
            let ghost prev_buf = buf@;
            buf.push(((val % 0x80) + 0x80) as u8);
            val = val / 0x80;
            proof {
                assert(varint_enc(prev) == seq![((prev % 0x80) + 0x80) as u8] + varint_enc(
                    prev / 0x80,
                ));
                assert(buf@ + varint_enc(val) =~= prev_buf + varint_enc(prev));
            }
        }
    }
}

/// 128 raised to the power `n`: the weight of the `n`-th seven-bit group.
pub open spec fn pow128(n: nat) -> nat
    decreases n,
{
    if n == 0 {
        1
    } else {
        128 * pow128((n - 1) as nat)
    }
}

/// A successful scan consumes between one byte and `min(max, len)` bytes.
pub proof fn lemma_varint_scan_size(s: Seq<u8>, max: nat)
    ensures
        varint_scan(s, max) matches VarIntScan::Value { value, size } ==> 1 <= size <= max
            && size <= s.len(),
    decreases max,
{
    if max > 0 && s.len() > 0 && s[0] >= 0x80 {
        lemma_varint_scan_size(s.skip(1), (max - 1) as nat);
    }
}

/// Reads a variable-length integer from `data` starting at `pos`, returning
/// the decoded value and the number of bytes consumed. The result is exactly
/// what `varint_scan` ascribes to the bytes at `pos`: a found terminator
/// yields the 32-bit truncation of the group sum; a buffer that ends first
/// yields `NotEnoughBytes` (nothing to read at all) or `InvalidVarInt`
/// (ended mid-sequence); five continuation-flagged bytes yield
/// `VarIntTooLong` without reading further.
pub fn decode_varint(data: &Vec<u8>, pos: usize) -> (r: Result<(VarInt, usize), DecodeError>)
    requires
        pos <= data@.len(),
    ensures
        ({
            let s = data@.skip(pos as int);
            match varint_scan(s, MAX_VARINT_SIZE as nat) {
                VarIntScan::Value { value, size } => r matches Ok(p)
                    && u32_from_i32(p.0.0) as nat == value % 0x1_0000_0000 && p.1 == size,
                VarIntScan::Incomplete => r == (if s.len() == 0 {
                    Err::<(VarInt, usize), DecodeError>(DecodeError::NotEnoughBytes)
                } else {
                    Err::<(VarInt, usize), DecodeError>(DecodeError::InvalidVarInt)
                }),
                VarIntScan::TooLong => r == Err::<(VarInt, usize), DecodeError>(
                    DecodeError::VarIntTooLong,
                ),
            }
        }),
{
    let ghost s = data@.skip(pos as int);
    let n = data.len();
    let mut result: u32 = 0;
    let mut i: usize = 0;
    let mut mult: u32 = 1;
    let ghost mut g: nat = 0;
    proof {
        assert(pow128(0) == 1);
        assert(pow128(1) == 128);
        assert(pow128(2) == 16384);
        assert(pow128(3) == 0x20_0000);
        assert(pow128(4) == 0x1000_0000);
        assert(pow128(5) == 0x8_0000_0000);
        assert(s.skip(0) =~= s);
    }
    while i < 5
        invariant
            pos <= data@.len(),
            s == data@.skip(pos as int),
            n == data@.len(),
            i <= 5,
            pos + i <= n,
            forall|j: int| 0 <= j < i ==> s[j] >= 0x80,
            g < pow128(i as nat),
            result as nat == g,
            i <= 3 ==> mult as nat == pow128(i as nat),
            pow128(0) == 1 && pow128(1) == 128 && pow128(2) == 16384 && pow128(3) == 0x20_0000
                && pow128(4) == 0x1000_0000 && pow128(5) == 0x8_0000_0000,
            (match varint_scan(s.skip(i as int), (5 - i) as nat) {
                VarIntScan::Value { value, size } => varint_scan(s, MAX_VARINT_SIZE as nat)
                    == (VarIntScan::Value {
                    value: (g + pow128(i as nat) * value) as nat,
                    size: (i + size) as nat,
                }),
                VarIntScan::Incomplete => varint_scan(s, MAX_VARINT_SIZE as nat)
                    is Incomplete,
                VarIntScan::TooLong => varint_scan(s, MAX_VARINT_SIZE as nat) is TooLong,
            }),
        decreases 5 - i,
    {
        proof {
            assert(pow128(i as nat) <= 0x1000_0000) by {
                if i == 0 {
                } else if i == 1 {
                } else if i == 2 {
                } else if i == 3 {
                } else {
                    assert(i == 4);
                }
            }
        }
        if pos + i >= data.len() {
            proof {
                assert(s.skip(i as int).len() == 0);
            }
            if i == 0 {
                return Err(DecodeError::NotEnoughBytes);
            } else {
                return Err(DecodeError::InvalidVarInt);
            }
        }
        let b = data[pos + i];
        proof {
            assert(s.skip(i as int)[0] == s[i as int] == b);
        }
        let low: u32 = (b % 0x80) as u32;
        if b < 0x80 {
            proof {
                assert(varint_scan(s.skip(i as int), (5 - i) as nat) == (VarIntScan::Value {
                    value: low as nat,
                    size: 1nat,
                }));
            }
            let total: u32 = if i < 4 {
                proof {
                    assert(mult as nat == pow128(i as nat));
                    assert((low as nat) * (mult as nat) == pow128(i as nat) * (low as nat)
                        && (low as nat) * (mult as nat) < 0x1000_0000) by (nonlinear_arith)
                        requires
                            low < 128,
                            mult as nat == pow128(i as nat),
                            pow128(i as nat) <= 0x20_0000,
                    ;
                    assert(pow128(i as nat) <= 0x20_0000) by {
                        if i == 0 {
                        } else if i == 1 {
                        } else if i == 2 {
                        } else {
                            assert(i == 3);
                        }
                    }
                }
                result + low * mult
            } else {
                result + (low % 16) * 0x1000_0000
            };
            let ghost v_full = (g + pow128(i as nat) * (low as nat)) as nat;
            proof {
                if i < 4 {
                    assert(total as nat == v_full);
                    assert(v_full < 0x1_0000_0000);
                    assert(v_full % 0x1_0000_0000 == v_full);
                } else {
                    assert(v_full == g + 0x1000_0000 * (low as nat));
                    assert(total as nat == g + (low as nat % 16) * 0x1000_0000);
                    assert((g + 0x1000_0000 * (low as nat)) % 0x1_0000_0000 == g + ((
                    low as nat) % 16) * 0x1000_0000) by (nonlinear_arith)
                        requires
                            g < 0x1000_0000,
                            low < 128,
                    ;
                }
                assert(total as nat == v_full % 0x1_0000_0000);
            }
            let out: i32 = if total >= 0x8000_0000 {
                -((0xffff_ffffu32 - total) as i32) - 1
            } else {
                total as i32
            };
            proof {
                assert(u32_from_i32(out) == total);
            }
            return Ok((VarInt(out), i + 1));
        }
        proof {
            let tail = s.skip(i as int);
            assert(tail.skip(1) =~= s.skip(i + 1));
            assert(pow128((i + 1) as nat) == 128 * pow128(i as nat));
            match varint_scan(s.skip(i + 1), (4 - i) as nat) {
                VarIntScan::Value { value, size } => {
                    assert(varint_scan(tail, (5 - i) as nat) == (VarIntScan::Value {
                        value: ((b - 0x80) as nat + 0x80 * value) as nat,
                        size: (size + 1) as nat,
                    }));
                    let c = (b - 0x80) as nat;
                    let p = pow128(i as nat);
                    let q = pow128((i + 1) as nat);
                    assert(g + p * (c + 0x80 * value) == (g + p * c) + q * value)
                        by (nonlinear_arith)
                        requires
                            q == 128 * p,
                    ;
                },
                VarIntScan::Incomplete => {},
                VarIntScan::TooLong => {},
            }
        }
        if i < 4 {
            proof {
                assert(mult as nat == pow128(i as nat));
                assert(pow128(i as nat) <= 0x20_0000) by {
                    if i == 0 {
                    } else if i == 1 {
                    } else if i == 2 {
                    } else {
                        assert(i == 3);
                    }
                }
                assert((low as nat) * (mult as nat) == pow128(i as nat) * (low as nat) && (
                low as nat) * (mult as nat) < 0x1000_0000) by (nonlinear_arith)
                    requires
                        low < 128,
                        mult as nat == pow128(i as nat),
                        pow128(i as nat) <= 0x20_0000,
                ;
                assert(g + pow128(i as nat) * (low as nat) < pow128((i + 1) as nat))
                    by (nonlinear_arith)
                    requires
                        g < pow128(i as nat),
                        low < 128,
                        pow128((i + 1) as nat) == 128 * pow128(i as nat),
                ;
            }
            result = result + low * mult;
            proof {
                g = (g + pow128(i as nat) * (low as nat)) as nat;
            }
        } else {
            proof {
                assert(g < pow128(5));
            }
        }
        if i < 3 {
            mult = mult * 0x80;
        }
        i = i + 1;
    }
    Err(DecodeError::VarIntTooLong)
}

/// The variable-length encoding of `value`, as a fresh byte vector.
pub fn encode_varint(value: VarInt) -> (r: Vec<u8>)
    ensures
        r@ == varint_enc(u32_from_i32(value.0)),
        1 <= r@.len() <= MAX_VARINT_SIZE,
{
    let mut buf: Vec<u8> = Vec::new();
    write_varint_sync(&mut buf, value);
    proof {
        lemma_varint_enc_len(u32_from_i32(value.0));
    }
    buf
}

/// What a declared 32-bit length means to a decoder that reinterprets it as
/// an unsigned machine word: nonnegative values stand for themselves and
/// negative values wrap around the top of the `usize` range.
pub open spec fn declared_len(v: i32) -> int {
    if v >= 0 {
        v as int
    } else {
        v + usize::MAX + 1
    }
}

/// The value and consumed size of a variable-length integer at the head of
/// `s`, or the error a buffer decoder reports.
pub open spec fn spec_read_varint(s: Seq<u8>) -> Result<(i32, int), DecodeError> {
    match varint_scan(s, MAX_VARINT_SIZE as nat) {
        VarIntScan::Value { value, size } => Ok(
            (i32_from_u32((value % 0x1_0000_0000) as u32), size as int),
        ),
        VarIntScan::Incomplete => Err(
            if s.len() == 0 {
                DecodeError::NotEnoughBytes
            } else {
                DecodeError::InvalidVarInt
            },
        ),
        VarIntScan::TooLong => Err(DecodeError::VarIntTooLong),
    }
}

/// An in-memory byte buffer with a read cursor: the decoders consume from
/// the front of its view. A frame's payload is carried in one of these,
/// positioned at the first unread payload byte.
#[derive(Debug, PartialEq, Eq)]
pub struct ByteBuf {
    data: Vec<u8>,
    pos: usize,
}

impl View for ByteBuf {
    type V = Seq<u8>;

    closed spec fn view(&self) -> Seq<u8> {
        self.data@.skip(self.pos as int)
    }
}

impl ByteBuf {
    /// The cursor never points past the end of the data.
    pub closed spec fn wf(&self) -> bool {
        self.pos <= self.data@.len()
    }

    /// Wraps a byte vector, with the cursor at its start.
    pub fn new(data: Vec<u8>) -> (r: ByteBuf)
        ensures
            r.wf(),
            r@ == data@,
    {
        let r = ByteBuf { data, pos: 0 };
        proof {
            assert(r@ =~= r.data@);
        }
        r
    }

    /// How many bytes are left to read.
    pub fn remaining(&self) -> (r: usize)
        requires
            self.wf(),
        ensures
            r == self@.len(),
    {
        self.data.len() - self.pos
    }

    /// Consumes the buffer, yielding the bytes not yet read.
    pub fn take_remaining(self) -> (r: Vec<u8>)
        requires
            self.wf(),
        ensures
            r@ == self@,
    {
        let n = self.data.len();
        copy_range(&self.data, self.pos, n - self.pos)
    }
}

/// Reads one variable-length integer from the front of `buf`. On success the
/// cursor moves past it; on failure the buffer is left unread.
pub fn read_varint_sync(buf: &mut ByteBuf) -> (r: Result<VarInt, DecodeError>)
    requires
        old(buf).wf(),
    ensures
        final(buf).wf(),
        (match spec_read_varint(old(buf)@) {
            Ok(p) => r matches Ok(v) && v.0 == p.0 && final(buf)@ == old(buf)@.skip(p.1),
            Err(e) => r == Err::<VarInt, DecodeError>(e) && final(buf)@ == old(buf)@,
        }),
{
    let n = buf.data.len();
    proof {
        assert(buf.pos <= n);
        lemma_varint_scan_size(buf@, MAX_VARINT_SIZE as nat);
    }
    match decode_varint(&buf.data, buf.pos) {
        Ok((v, size)) => {
            proof {
                let w = match varint_scan(old(buf)@, MAX_VARINT_SIZE as nat) {
                    VarIntScan::Value { value, size: _ } => (value % 0x1_0000_0000) as u32,
                    _ => 0u32,
                };
                assert(u32_from_i32(v.0) == w);
                lemma_u32_i32_inverse(v.0);
                assert(i32_from_u32(u32_from_i32(v.0)) == v.0);
            }
            buf.pos = buf.pos + size;
            proof {
                assert(buf.data@.skip(buf.pos as int) =~= old(buf)@.skip(size as int));
            }
            Ok(v)
        },
        Err(e) => Err(e),
    }
}

/// Copies `count` bytes of `data` starting at `start` into a fresh vector.
fn copy_range(data: &Vec<u8>, start: usize, count: usize) -> (r: Vec<u8>)
    requires
        start + count <= data@.len(),
    ensures
        r@ == data@.subrange(start as int, start + count),
{
    let n = data.len();
    let mut out: Vec<u8> = Vec::new();
    let mut i: usize = 0;
    while i < count
        invariant
            n == data@.len(),
            start + count <= n,
            i <= count,
            out@ == data@.subrange(start as int, start + i),
        decreases count - i,
    {
        out.push(data[start + i]);
        proof {
            assert(out@ =~= data@.subrange(start as int, start + i + 1));
        }
        i = i + 1;
    }
    out
}


/// 256 raised to the power `n`: the weight of the `n`-th byte from the low
/// end of a big-endian integer.
pub open spec fn pow256(n: nat) -> nat
    decreases n,
{
    if n == 0 {
        1
    } else {
        256 * pow256((n - 1) as nat)
    }
}

/// The value of a byte sequence read as a big-endian unsigned integer.
pub open spec fn be_val(s: Seq<u8>) -> nat
    decreases s.len(),
{
    if s.len() == 0 {
        0
    } else {
        (256 * be_val(s.drop_last()) + s.last()) as nat
    }
}

/// The `n`-byte big-endian encoding of `val` (reduced modulo 256 to the
/// power `n`).
pub open spec fn be_bytes(val: nat, n: nat) -> Seq<u8>
    decreases n,
{
    if n == 0 {
        Seq::empty()
    } else {
        be_bytes(val / 256, (n - 1) as nat) + seq![(val % 256) as u8]
    }
}

/// A big-endian value is bounded by 256 to the power of its width.
pub proof fn lemma_be_val_bound(s: Seq<u8>)
    ensures
        be_val(s) < pow256(s.len() as nat),
    decreases s.len(),
{
    if s.len() > 0 {
        lemma_be_val_bound(s.drop_last());
    }
}

/// Round trip of the fixed-width big-endian codec: reading back the `n`-byte
/// encoding of a value below 256 to the power `n` recovers the value.
pub proof fn lemma_be_round_trip(val: nat, n: nat)
    requires
        val < pow256(n),
    ensures
        be_bytes(val, n).len() == n,
        be_val(be_bytes(val, n)) == val,
    decreases n,
{
    if n > 0 {
        let q = val / 256;
        assert(q < pow256((n - 1) as nat)) by {
            vstd::arithmetic::div_mod::lemma_multiply_divide_lt(
                val as int,
                256,
                pow256((n - 1) as nat) as int,
            );
        }
        lemma_be_round_trip(q, (n - 1) as nat);
        let b = be_bytes(val, n);
        assert(b.drop_last() =~= be_bytes(q, (n - 1) as nat));
        assert(b.last() == (val % 256) as u8);
    }
}

/// Appends the two-byte big-endian encoding of `value` to `buf`.
pub fn write_u16(buf: &mut Vec<u8>, value: u16)
    ensures
        final(buf)@ == old(buf)@ + be_bytes(value as nat, 2),
{
    let hi = (value / 0x100) as u8;
    let lo = (value % 0x100) as u8;
    buf.push(hi);
    buf.push(lo);
    proof {
        reveal_with_fuel(be_bytes, 4);
        assert(be_bytes(value as nat, 2) =~= seq![hi, lo]);
        assert(buf@ =~= old(buf)@ + be_bytes(value as nat, 2));
    }
}

/// Appends the eight-byte big-endian encoding of the unsigned
/// reinterpretation of `value` to `buf`.
pub fn write_i64(buf: &mut Vec<u8>, value: i64)
    ensures
        final(buf)@ == old(buf)@ + be_bytes(u64_from_i64(value) as nat, 8),
{
    let u: u64 = if value >= 0 {
        value as u64
    } else {
        (((value + 1) + 0x7fff_ffff_ffff_ffff) as u64) + 0x8000_0000_0000_0000
    };
    proof {
        assert(u == u64_from_i64(value));
    }
    let r1 = u / 0x100;
    let r2 = r1 / 0x100;
    let r3 = r2 / 0x100;
    let r4 = r3 / 0x100;
    let r5 = r4 / 0x100;
    let r6 = r5 / 0x100;
    let r7 = r6 / 0x100;
    buf.push((r7 % 0x100) as u8);
    buf.push((r6 % 0x100) as u8);
    buf.push((r5 % 0x100) as u8);
    buf.push((r4 % 0x100) as u8);
    buf.push((r3 % 0x100) as u8);
    buf.push((r2 % 0x100) as u8);
    buf.push((r1 % 0x100) as u8);
    buf.push((u % 0x100) as u8);
    proof {
        reveal_with_fuel(be_bytes, 10);
        assert(r7 / 0x100 == 0);
        assert(be_bytes(r7 as nat, 1) =~= seq![(r7 % 0x100) as u8]);
        assert(be_bytes(r6 as nat, 2) =~= seq![(r7 % 0x100) as u8, (r6 % 0x100) as u8]);
        assert(be_bytes(r5 as nat, 3) =~= be_bytes(r6 as nat, 2) + seq![(r5 % 0x100) as u8]);
        assert(be_bytes(r4 as nat, 4) =~= be_bytes(r5 as nat, 3) + seq![(r4 % 0x100) as u8]);
        assert(be_bytes(r3 as nat, 5) =~= be_bytes(r4 as nat, 4) + seq![(r3 % 0x100) as u8]);
        assert(be_bytes(r2 as nat, 6) =~= be_bytes(r3 as nat, 5) + seq![(r2 % 0x100) as u8]);
        assert(be_bytes(r1 as nat, 7) =~= be_bytes(r2 as nat, 6) + seq![(r1 % 0x100) as u8]);
        assert(be_bytes(u as nat, 8) =~= be_bytes(r1 as nat, 7) + seq![(u % 0x100) as u8]);
        assert(buf@ =~= old(buf)@ + be_bytes(u as nat, 8));
    }
}

/// Appends a single byte, one for true and zero for false.
pub fn write_bool(buf: &mut Vec<u8>, value: bool)
    ensures
        final(buf)@ == old(buf)@ + seq![if value { 1u8 } else { 0u8 }],
{
    buf.push(if value { 1 } else { 0 });
}

/// Appends the sixteen raw bytes of the identifier, with no length prefix.
pub fn write_uuid(buf: &mut Vec<u8>, value: &crate::types::Uuid)
    ensures
        final(buf)@ == old(buf)@ + value@,
{
    buf.extend_from_slice(value.as_bytes().as_slice());
}

/// Appends a variable-length byte count followed by the raw UTF-8 bytes of
/// `value`.
pub fn write_string(buf: &mut Vec<u8>, value: &str)
    requires
        vstd::utf8::encode_utf8(value@).len() <= i32::MAX,
    ensures
        final(buf)@ == old(buf)@ + string_enc(value@),
{
    let bytes = value.as_bytes();
    let len = bytes.len();
    write_varint_sync(buf, VarInt(len as i32));
    buf.extend_from_slice(bytes);
    proof {
        assert(u32_from_i32(len as i32) == vstd::utf8::encode_utf8(value@).len());
    }
}

/// Appends a variable-length byte count followed by the raw bytes of `data`.
pub fn write_bytes_prefixed(buf: &mut Vec<u8>, data: &[u8])
    requires
        data@.len() <= i32::MAX,
    ensures
        final(buf)@ == old(buf)@ + varint_enc(data@.len() as u32) + data@,
{
    let len = data.len();
    write_varint_sync(buf, VarInt(len as i32));
    buf.extend_from_slice(data);
    proof {
        assert(u32_from_i32(len as i32) == data@.len());
    }
}

/// The wire form of a length-prefixed string: the byte count of the UTF-8
/// encoding as a variable-length integer, then those bytes.
pub open spec fn string_enc(s: Seq<char>) -> Seq<u8> {
    varint_enc(vstd::utf8::encode_utf8(s).len() as u32) + vstd::utf8::encode_utf8(s)
}

/// Reads one byte as a boolean: zero is false, anything else is true.
pub fn read_bool_sync(buf: &mut ByteBuf) -> (r: Result<bool, DecodeError>)
    requires
        old(buf).wf(),
    ensures
        final(buf).wf(),
        old(buf)@.len() == 0 ==> r == Err::<bool, DecodeError>(DecodeError::NotEnoughBytes)
            && final(buf)@ == old(buf)@,
        old(buf)@.len() > 0 ==> r == Ok::<bool, DecodeError>(old(buf)@[0] != 0) && final(buf)@
            == old(buf)@.skip(1),
{
    let n = buf.data.len();
    if buf.pos >= n {
        return Err(DecodeError::NotEnoughBytes);
    }
    let b = buf.data[buf.pos];
    buf.pos = buf.pos + 1;
    proof {
        assert(buf.data@.skip(buf.pos as int) =~= old(buf)@.skip(1));
        assert(old(buf)@[0] == b);
    }
    Ok(b != 0)
}

/// Reads a two-byte big-endian unsigned integer.
pub fn read_u16_sync(buf: &mut ByteBuf) -> (r: Result<u16, DecodeError>)
    requires
        old(buf).wf(),
    ensures
        final(buf).wf(),
        old(buf)@.len() < 2 ==> r == Err::<u16, DecodeError>(DecodeError::NotEnoughBytes)
            && final(buf)@ == old(buf)@,
        old(buf)@.len() >= 2 ==> (r matches Ok(v) && v as nat == be_val(old(buf)@.take(2))
            && final(buf)@ == old(buf)@.skip(2)),
{
    let n = buf.data.len();
    if n - buf.pos < 2 {
        return Err(DecodeError::NotEnoughBytes);
    }
    let b0 = buf.data[buf.pos];
    let b1 = buf.data[buf.pos + 1];
    buf.pos = buf.pos + 2;
    proof {
        reveal_with_fuel(be_val, 4);
        let t = old(buf)@.take(2);
        assert(t.drop_last() =~= old(buf)@.take(1));
        assert(old(buf)@.take(1).drop_last() =~= Seq::<u8>::empty());
        assert(t.last() == b1 && old(buf)@.take(1).last() == b0);
        assert(be_val(old(buf)@.take(1)) == b0 as nat);
        assert(buf.data@.skip(buf.pos as int) =~= old(buf)@.skip(2));
    }
    Ok((b0 as u16) * 0x100 + (b1 as u16))
}

/// Reads an eight-byte big-endian integer, returning its signed
/// reinterpretation.
pub fn read_i64_sync(buf: &mut ByteBuf) -> (r: Result<i64, DecodeError>)
    requires
        old(buf).wf(),
    ensures
        final(buf).wf(),
        old(buf)@.len() < 8 ==> r == Err::<i64, DecodeError>(DecodeError::NotEnoughBytes)
            && final(buf)@ == old(buf)@,
        old(buf)@.len() >= 8 ==> (r matches Ok(v) && u64_from_i64(v) as nat == be_val(
            old(buf)@.take(8),
        ) && final(buf)@ == old(buf)@.skip(8)),
{
    let n = buf.data.len();
    if n - buf.pos < 8 {
        return Err(DecodeError::NotEnoughBytes);
    }
    let ghost s = old(buf)@;
    let mut acc: u64 = 0;
    let mut i: usize = 0;
    proof {
        assert(pow256(0) == 1);
        assert(pow256(1) == 0x100);
        assert(pow256(2) == 0x1_0000);
        assert(pow256(3) == 0x100_0000);
        assert(pow256(4) == 0x1_0000_0000);
        assert(pow256(5) == 0x100_0000_0000);
        assert(pow256(6) == 0x1_0000_0000_0000);
        assert(pow256(7) == 0x100_0000_0000_0000);
        assert(s.take(0) =~= Seq::<u8>::empty());
    }
    while i < 8
        invariant
            old(buf).wf(),
            buf == old(buf),
            s == old(buf)@,
            n == buf.data@.len(),
            buf.pos + 8 <= n,
            i <= 8,
            acc as nat == be_val(s.take(i as int)),
            (acc as nat) < pow256(i as nat),
            pow256(0) == 1 && pow256(1) == 0x100 && pow256(2) == 0x1_0000 && pow256(3)
                == 0x100_0000 && pow256(4) == 0x1_0000_0000 && pow256(5) == 0x100_0000_0000
                && pow256(6) == 0x1_0000_0000_0000 && pow256(7) == 0x100_0000_0000_0000,
        decreases 8 - i,
    {
        proof {
            assert(pow256(i as nat) <= pow256(7)) by {
                if i == 0 {
                } else if i == 1 {
                } else if i == 2 {
                } else if i == 3 {
                } else if i == 4 {
                } else if i == 5 {
                } else if i == 6 {
                } else {
                    assert(i == 7);
                }
            }
        }
        let b = buf.data[buf.pos + i];
        proof {
            assert(s[i as int] == b);
            assert(s.take(i + 1).drop_last() =~= s.take(i as int));
            assert(s.take(i + 1).last() == b);
        }
        acc = acc * 0x100 + (b as u64);
        i = i + 1;
    }
    buf.pos = buf.pos + 8;
    proof {
        assert(buf.data@.skip(buf.pos as int) =~= s.skip(8));
    }
    let out: i64 = if acc >= 0x8000_0000_0000_0000 {
        -((0xffff_ffff_ffff_ffffu64 - acc) as i64) - 1
    } else {
        acc as i64
    };
    proof {
        assert(u64_from_i64(out) == acc);
    }
    Ok(out)
}

/// Reads exactly sixteen raw bytes as a 128-bit identifier.
pub fn read_uuid_sync(buf: &mut ByteBuf) -> (r: Result<crate::types::Uuid, DecodeError>)
    requires
        old(buf).wf(),
    ensures
        final(buf).wf(),
        old(buf)@.len() < 16 ==> r == Err::<crate::types::Uuid, DecodeError>(
            DecodeError::NotEnoughBytes,
        ) && final(buf)@ == old(buf)@,
        old(buf)@.len() >= 16 ==> (r matches Ok(u) && u@ == old(buf)@.take(16) && u.wf()
            && final(buf)@ == old(buf)@.skip(16)),
{
    let n = buf.data.len();
    if n - buf.pos < 16 {
        return Err(DecodeError::NotEnoughBytes);
    }
    let bytes = copy_range(&buf.data, buf.pos, 16);
    proof {
        assert(bytes@ =~= old(buf)@.take(16));
    }
    match crate::types::Uuid::from_bytes(bytes) {
        Some(u) => {
            buf.pos = buf.pos + 16;
            proof {
                assert(buf.data@.skip(buf.pos as int) =~= old(buf)@.skip(16));
            }
            Ok(u)
        },
        None => {
            proof {
                assert(false);
            }
            Err(DecodeError::NotEnoughBytes)
        },
    }
}


/// The declared length as the running decoder computes it, reinterpreting a
/// negative 32-bit length as an unsigned machine word.
fn declared_len_exec(v: i32) -> (r: usize)
    ensures
        r == declared_len(v),
{
    if v >= 0 {
        v as usize
    } else {
        let neg: usize = (-(v as i64)) as usize;
        (usize::MAX - neg) + 1
    }
}

/// Relies on String::from_utf8: it succeeds exactly on valid UTF-8 input,
/// and the characters of the returned string are the decoding of the bytes.
#[verifier::external_body]
fn string_from_utf8(bytes: Vec<u8>) -> (r: Option<String>)
    ensures
        r is Some <==> vstd::utf8::valid_utf8(bytes@),
        r matches Some(s) ==> s@ == vstd::utf8::decode_utf8(bytes@),
{
    match String::from_utf8(bytes) {
        Ok(s) => Some(s),
        Err(_) => None,
    }
}

/// The characters of a length-prefixed string at the head of `s` and the
/// bytes after it, or the error a buffer decoder reports: an oversized
/// declared length is refused before any payload byte is touched, a buffer
/// that cannot supply the declared count fails, and so do bytes that are not
/// UTF-8.
pub open spec fn spec_read_string(s: Seq<u8>) -> Result<(Seq<char>, Seq<u8>), DecodeError> {
    match spec_read_varint(s) {
        Err(e) => Err(e),
        Ok((v, size)) => {
            let d = declared_len(v);
            let rest = s.skip(size);
            if d > 4 * (MAX_STRING_LENGTH as int) {
                Err(DecodeError::StringTooLong(d as usize))
            } else if rest.len() < d {
                Err(DecodeError::NotEnoughBytes)
            } else if !vstd::utf8::valid_utf8(rest.take(d)) {
                Err(DecodeError::InvalidUtf8)
            } else {
                Ok((vstd::utf8::decode_utf8(rest.take(d)), rest.skip(d)))
            }
        },
    }
}

/// Reads a length-prefixed UTF-8 string: a variable-length byte count, which
/// must not exceed four times the maximum string length, then that many
/// bytes, which must be valid UTF-8. On failure the buffer is left unread.
pub fn read_string_sync(buf: &mut ByteBuf) -> (r: Result<String, DecodeError>)
    requires
        old(buf).wf(),
    ensures
        final(buf).wf(),
        (match spec_read_string(old(buf)@) {
            Ok(p) => r matches Ok(out) && out@ == p.0 && final(buf)@ == p.1,
            Err(e) => r == Err::<String, DecodeError>(e) && final(buf)@ == old(buf)@,
        }),
{
    let n = buf.data.len();
    proof {
        lemma_varint_scan_size(old(buf)@, MAX_VARINT_SIZE as nat);
    }
    match decode_varint(&buf.data, buf.pos) {
        Err(e) => Err(e),
        Ok((v, size)) => {
            proof {
                lemma_u32_i32_inverse(v.0);
            }
            let declared = declared_len_exec(v.0);
            if declared > 4 * MAX_STRING_LENGTH {
                return Err(DecodeError::StringTooLong(declared));
            }
            if n - (buf.pos + size) < declared {
                return Err(DecodeError::NotEnoughBytes);
            }
            let bytes = copy_range(&buf.data, buf.pos + size, declared);
            proof {
                assert(bytes@ =~= old(buf)@.skip(size as int).take(declared as int));
            }
            match string_from_utf8(bytes) {
                None => Err(DecodeError::InvalidUtf8),
                Some(out) => {
                    buf.pos = buf.pos + size + declared;
                    proof {
                        assert(buf.data@.skip(buf.pos as int) =~= old(buf)@.skip(
                            size + declared,
                        ));
                        assert(old(buf)@.skip(size as int).skip(declared as int) =~= old(
                            buf,
                        )@.skip(size + declared));
                    }
                    Ok(out)
                },
            }
        },
    }
}

/// The bytes of a length-prefixed raw byte array at the head of `s` and the
/// bytes after it, or the error a buffer decoder reports.
pub open spec fn spec_read_bytes(s: Seq<u8>) -> Result<(Seq<u8>, Seq<u8>), DecodeError> {
    match spec_read_varint(s) {
        Err(e) => Err(e),
        Ok((v, size)) => {
            let d = declared_len(v);
            let rest = s.skip(size);
            if rest.len() < d {
                Err(DecodeError::NotEnoughBytes)
            } else {
                Ok((rest.take(d), rest.skip(d)))
            }
        },
    }
}

/// Reads a length-prefixed raw byte array: a variable-length byte count,
/// then that many bytes, with no further validation. On failure the buffer
/// is left unread.
pub fn read_bytes_prefixed_sync(buf: &mut ByteBuf) -> (r: Result<Vec<u8>, DecodeError>)
    requires
        old(buf).wf(),
    ensures
        final(buf).wf(),
        (match spec_read_bytes(old(buf)@) {
            Ok(p) => r matches Ok(out) && out@ == p.0 && final(buf)@ == p.1,
            Err(e) => r == Err::<Vec<u8>, DecodeError>(e) && final(buf)@ == old(buf)@,
        }),
{
    let n = buf.data.len();
    proof {
        lemma_varint_scan_size(old(buf)@, MAX_VARINT_SIZE as nat);
    }
    match decode_varint(&buf.data, buf.pos) {
        Err(e) => Err(e),
        Ok((v, size)) => {
            proof {
                lemma_u32_i32_inverse(v.0);
            }
            let declared = declared_len_exec(v.0);
            if n - (buf.pos + size) < declared {
                return Err(DecodeError::NotEnoughBytes);
            }
            let bytes = copy_range(&buf.data, buf.pos + size, declared);
            buf.pos = buf.pos + size + declared;
            proof {
                assert(bytes@ =~= old(buf)@.skip(size as int).take(declared as int));
                assert(buf.data@.skip(buf.pos as int) =~= old(buf)@.skip(size + declared));
                assert(old(buf)@.skip(size as int).skip(declared as int) =~= old(buf)@.skip(
                    size + declared,
                ));
            }
            Ok(bytes)
        },
    }
}

/// The wire form of a packet frame: the byte count of the identifier's
/// encoding plus the payload, as a variable-length integer, then the encoded
/// identifier, then the payload.
pub open spec fn frame_bytes(id: i32, payload: Seq<u8>) -> Seq<u8> {
    let idb = varint_enc(u32_from_i32(id));
    varint_enc((idb.len() + payload.len()) as u32) + idb + payload
}

/// Appends a complete packet frame for identifier `packet_id` and payload
/// `data` to `out`: the length prefix counts the encoded identifier and the
/// payload, not itself.
pub fn write_packet_frame(out: &mut Vec<u8>, packet_id: VarInt, data: &[u8])
    requires
        varint_enc(u32_from_i32(packet_id.0)).len() + data@.len() <= i32::MAX,
    ensures
        final(out)@ == old(out)@ + frame_bytes(packet_id.0, data@),
{
    let id_buf = encode_varint(packet_id);
    let packet_len = id_buf.len() + data.len();
    write_varint_sync(out, VarInt(packet_len as i32));
    proof {
        assert(u32_from_i32(packet_len as i32) == packet_len);
    }
    out.extend_from_slice(id_buf.as_slice());
    out.extend_from_slice(data);
    proof {
        assert(out@ =~= old(out)@ + frame_bytes(packet_id.0, data@));
    }
}

/// The identifier, payload, and remainder of a packet frame at the head of
/// `s`, or the error a buffer decoder reports: first the frame length, then,
/// within exactly that many bytes, the identifier; the payload is what
/// follows the identifier inside the frame.
pub open spec fn spec_read_frame(s: Seq<u8>) -> Result<(i32, Seq<u8>, Seq<u8>), DecodeError> {
    match spec_read_varint(s) {
        Err(e) => Err(e),
        Ok((v, size)) => {
            let d = declared_len(v);
            let rest = s.skip(size);
            if rest.len() < d {
                Err(DecodeError::NotEnoughBytes)
            } else {
                let frame = rest.take(d);
                match spec_read_varint(frame) {
                    Err(e) => Err(e),
                    Ok((id, idsize)) => Ok((id, frame.skip(idsize), rest.skip(d))),
                }
            }
        },
    }
}

/// Reads one packet frame: the frame length, that many bytes, and the
/// leading packet identifier within them. Returns the identifier and a
/// buffer positioned at the first payload byte; the outer buffer moves past
/// the whole frame. On failure the outer buffer is left unread.
pub fn read_packet_frame(buf: &mut ByteBuf) -> (r: Result<(VarInt, ByteBuf), DecodeError>)
    requires
        old(buf).wf(),
    ensures
        final(buf).wf(),
        (match spec_read_frame(old(buf)@) {
            Ok(p) => r matches Ok(out) && out.0.0 == p.0 && out.1.wf() && out.1@ == p.1
                && final(buf)@ == p.2,
            Err(e) => r == Err::<(VarInt, ByteBuf), DecodeError>(e) && final(buf)@ == old(
                buf,
            )@,
        }),
{
    let n = buf.data.len();
    proof {
        lemma_varint_scan_size(old(buf)@, MAX_VARINT_SIZE as nat);
    }
    match decode_varint(&buf.data, buf.pos) {
        Err(e) => Err(e),
        Ok((v, size)) => {
            proof {
                lemma_u32_i32_inverse(v.0);
            }
            let declared = declared_len_exec(v.0);
            if n - (buf.pos + size) < declared {
                return Err(DecodeError::NotEnoughBytes);
            }
            let frame = copy_range(&buf.data, buf.pos + size, declared);
            proof {
                assert(frame@ =~= old(buf)@.skip(size as int).take(declared as int));
            }
            let mut inner = ByteBuf::new(frame);
            match read_varint_sync(&mut inner) {
                Err(e) => Err(e),
                Ok(id) => {
                    buf.pos = buf.pos + size + declared;
                    proof {
                        assert(buf.data@.skip(buf.pos as int) =~= old(buf)@.skip(
                            size + declared,
                        ));
                        assert(old(buf)@.skip(size as int).skip(declared as int) =~= old(
                            buf,
                        )@.skip(size + declared));
                    }
                    Ok((id, inner))
                },
            }
        },
    }
}

} // verus!
