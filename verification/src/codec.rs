use vstd::prelude::*;

verus! {

/// Largest datagram any built-in codec encodes or decodes (the f64 pair is 16).
pub const MAX_DATAGRAM: usize = 16;

/// Wire byte for a LOW digital level (ASCII `'0'`).
pub const LOW: u8 = 0x30;

/// Wire byte for a HIGH digital level (ASCII `'1'`).
pub const HIGH: u8 = 0x31;

/// Maps a pin value to and from the bytes of one datagram.
pub trait Codec {
    /// The value carried by a pin that uses this codec.
    type Value: Copy;

    /// The bytes that encode `v`.
    spec fn spec_encode(v: Self::Value) -> Seq<u8>;

    /// The value that a datagram holding `bytes` decodes to, `None` where the
    /// bytes are not in the wire format.
    spec fn spec_decode(bytes: Seq<u8>) -> Option<Self::Value>;

    /// Writes the encoding of `v` at the start of `buf` and returns its length;
    /// the rest of `buf` is left as it was.
    fn encode(v: Self::Value, buf: &mut [u8]) -> (n: usize)
        requires
            old(buf)@.len() >= MAX_DATAGRAM,
        ensures
            n == Self::spec_encode(v).len(),
            n <= MAX_DATAGRAM,
            final(buf)@.len() == old(buf)@.len(),
            final(buf)@.subrange(0, n as int) == Self::spec_encode(v),
            final(buf)@.subrange(n as int, final(buf)@.len() as int) == old(buf)@.subrange(
                n as int,
                old(buf)@.len() as int,
            ),
    ;

    /// Decodes one received datagram.
    fn decode(buf: &[u8]) -> (r: Option<Self::Value>)
        ensures
            r == Self::spec_decode(buf@),
    ;

    /// Decoding an encoding gives the value back, and every encoding fits in
    /// a datagram buffer.
    proof fn lemma_round_trip(v: Self::Value)
        ensures
            Self::spec_decode(Self::spec_encode(v)) == Some(v),
            Self::spec_encode(v).len() <= MAX_DATAGRAM,
    ;
}

/// Single-byte digital codec: `b'0'` is LOW, `b'1'` is HIGH.
pub struct BoolCodec;

impl Codec for BoolCodec {
    type Value = bool;

    open spec fn spec_encode(v: bool) -> Seq<u8> {
        if v {
            seq![HIGH]
        } else {
            seq![LOW]
        }
    }

    open spec fn spec_decode(bytes: Seq<u8>) -> Option<bool> {
        if bytes == seq![LOW] {
            Some(false)
        } else if bytes == seq![HIGH] {
            Some(true)
        } else {
            None
        }
    }

    fn encode(v: bool, buf: &mut [u8]) -> (n: usize) {
        buf[0] = if v { HIGH } else { LOW };
        assert(buf@.subrange(0, 1) =~= Self::spec_encode(v));
        assert(buf@.subrange(1, buf@.len() as int) =~= old(buf)@.subrange(1, old(buf)@.len() as int));
        1
    }

    fn decode(buf: &[u8]) -> (r: Option<bool>) {
        if buf.len() == 1 && buf[0] == LOW {
            assert(buf@ =~= seq![LOW]);
            Some(false)
        } else if buf.len() == 1 && buf[0] == HIGH {
            assert(buf@ =~= seq![HIGH]);
            Some(true)
        } else {
            proof {
                if buf@.len() == 1 {
                    assert(buf@ != seq![LOW]) by { assert(seq![LOW][0] == LOW); }
                    assert(buf@ != seq![HIGH]) by { assert(seq![HIGH][0] == HIGH); }
                }
            }
            None
        }
    }

    proof fn lemma_round_trip(v: bool) {
        assert(seq![HIGH] != seq![LOW]) by { assert(seq![HIGH][0] != seq![LOW][0]); }
    }
}

impl BoolCodec {
    /// The digital codec accepts exactly the two level bytes: a datagram of any
    /// other length or content decodes to nothing.
    pub proof fn lemma_accepts_only_level_bytes(bytes: Seq<u8>)
        ensures
            Self::spec_decode(bytes) is Some <==> (bytes == seq![LOW] || bytes == seq![HIGH]),
            Self::spec_decode(bytes) == Some(false) <==> bytes == seq![LOW],
            Self::spec_decode(bytes) == Some(true) <==> bytes == seq![HIGH],
    {
        assert(seq![HIGH] != seq![LOW]) by {
            assert(seq![HIGH][0] != seq![LOW][0]);
        }
    }

    /// Every datagram the digital codec accepts is the encoding of the level it
    /// decodes to: the encoding of a level is unique.
    pub proof fn lemma_decode_then_encode(bytes: Seq<u8>)
        requires
            Self::spec_decode(bytes) is Some,
        ensures
            Self::spec_encode(Self::spec_decode(bytes).unwrap()) == bytes,
    {
        Self::lemma_accepts_only_level_bytes(bytes);
    }
}

/// The eight little-endian bytes of `x`.
pub open spec fn le_bytes(x: u64) -> Seq<u8> {
    seq![
        (x & 0xff) as u8,
        ((x >> 8u64) & 0xff) as u8,
        ((x >> 16u64) & 0xff) as u8,
        ((x >> 24u64) & 0xff) as u8,
        ((x >> 32u64) & 0xff) as u8,
        ((x >> 40u64) & 0xff) as u8,
        ((x >> 48u64) & 0xff) as u8,
        ((x >> 56u64) & 0xff) as u8,
    ]
}

/// The `u64` whose little-endian bytes are the first eight of `s`.
pub open spec fn from_le_bytes(s: Seq<u8>) -> u64 {
    (s[0] as u64) | (s[1] as u64) << 8u64 | (s[2] as u64) << 16u64 | (s[3] as u64) << 24u64 | (
    s[4] as u64) << 32u64 | (s[5] as u64) << 40u64 | (s[6] as u64) << 48u64 | (s[7] as u64)
        << 56u64
}

/// Reading back the little-endian bytes of `x` gives `x`.
pub proof fn lemma_le_bytes_round_trip(x: u64)
    ensures
        le_bytes(x).len() == 8,
        from_le_bytes(le_bytes(x)) == x,
{
    let s = le_bytes(x);
    assert(s[0] == (x & 0xff) as u8);
    assert(s[1] == ((x >> 8u64) & 0xff) as u8);
    assert(s[2] == ((x >> 16u64) & 0xff) as u8);
    assert(s[3] == ((x >> 24u64) & 0xff) as u8);
    assert(s[4] == ((x >> 32u64) & 0xff) as u8);
    assert(s[5] == ((x >> 40u64) & 0xff) as u8);
    assert(s[6] == ((x >> 48u64) & 0xff) as u8);
    assert(s[7] == ((x >> 56u64) & 0xff) as u8);
    assert(x == (((x & 0xff) as u8) as u64) | ((((x >> 8u64) & 0xff) as u8) as u64) << 8u64 | ((((
    x >> 16u64) & 0xff) as u8) as u64) << 16u64 | ((((x >> 24u64) & 0xff) as u8) as u64) << 24u64
        | ((((x >> 32u64) & 0xff) as u8) as u64) << 32u64 | ((((x >> 40u64) & 0xff) as u8) as u64)
        << 40u64 | ((((x >> 48u64) & 0xff) as u8) as u64) << 48u64 | ((((x >> 56u64) & 0xff) as u8)
        as u64) << 56u64) by (bit_vector);
}

/// Any eight bytes are the little-endian bytes of the `u64` they encode.
pub proof fn lemma_from_le_bytes_round_trip(s: Seq<u8>)
    requires
        s.len() == 8,
    ensures
        le_bytes(from_le_bytes(s)) == s,
{
    let s0 = s[0];
    let s1 = s[1];
    let s2 = s[2];
    let s3 = s[3];
    let s4 = s[4];
    let s5 = s[5];
    let s6 = s[6];
    let s7 = s[7];
    let x = from_le_bytes(s);
    assert(x == (s0 as u64) | (s1 as u64) << 8u64 | (s2 as u64) << 16u64 | (s3 as u64) << 24u64
        | (s4 as u64) << 32u64 | (s5 as u64) << 40u64 | (s6 as u64) << 48u64 | (s7 as u64)
        << 56u64);
    assert({
        let y = (s0 as u64) | (s1 as u64) << 8u64 | (s2 as u64) << 16u64 | (s3 as u64) << 24u64
            | (s4 as u64) << 32u64 | (s5 as u64) << 40u64 | (s6 as u64) << 48u64 | (s7 as u64)
            << 56u64;
        &&& (y & 0xff) as u8 == s0
        &&& ((y >> 8u64) & 0xff) as u8 == s1
        &&& ((y >> 16u64) & 0xff) as u8 == s2
        &&& ((y >> 24u64) & 0xff) as u8 == s3
        &&& ((y >> 32u64) & 0xff) as u8 == s4
        &&& ((y >> 40u64) & 0xff) as u8 == s5
        &&& ((y >> 48u64) & 0xff) as u8 == s6
        &&& ((y >> 56u64) & 0xff) as u8 == s7
    }) by (bit_vector);
    assert(le_bytes(x) =~= s);
}

/// Writes the little-endian bytes of `x` at `buf[at..at + 8]`.
fn put_le_bytes(x: u64, buf: &mut [u8], at: usize)
    requires
        at + 8 <= old(buf)@.len(),
    ensures
        final(buf)@ == old(buf)@.subrange(0, at as int) + le_bytes(x) + old(buf)@.subrange(
            at + 8,
            old(buf)@.len() as int,
        ),
{
    buf[at] = (x & 0xff) as u8;
    buf[at + 1] = ((x >> 8u64) & 0xff) as u8;
    buf[at + 2] = ((x >> 16u64) & 0xff) as u8;
    buf[at + 3] = ((x >> 24u64) & 0xff) as u8;
    buf[at + 4] = ((x >> 32u64) & 0xff) as u8;
    buf[at + 5] = ((x >> 40u64) & 0xff) as u8;
    buf[at + 6] = ((x >> 48u64) & 0xff) as u8;
    buf[at + 7] = ((x >> 56u64) & 0xff) as u8;
    assert(buf@ =~= old(buf)@.subrange(0, at as int) + le_bytes(x) + old(buf)@.subrange(
        at + 8,
        old(buf)@.len() as int,
    ));
}

/// Reads the `u64` whose little-endian bytes are `buf[at..at + 8]`.
fn get_le_bytes(buf: &[u8], at: usize) -> (x: u64)
    requires
        at + 8 <= buf@.len(),
    ensures
        x == from_le_bytes(buf@.subrange(at as int, at + 8)),
{
    (buf[at] as u64) | (buf[at + 1] as u64) << 8u64 | (buf[at + 2] as u64) << 16u64 | (buf[at
        + 3] as u64) << 24u64 | (buf[at + 4] as u64) << 32u64 | (buf[at + 5] as u64) << 40u64 | (
    buf[at + 6] as u64) << 48u64 | (buf[at + 7] as u64) << 56u64
}

/// The two doubles of an analog value, each as its IEEE-754 64-bit pattern
/// (`f64::to_bits`).
#[derive(Clone, Copy, Debug, PartialEq, Eq, Structural)]
pub struct F64PairBits {
    pub first: u64,
    pub second: u64,
}

/// Analog codec: two little-endian IEEE-754 doubles, sixteen bytes in all.
/// Each double is carried as its 64-bit pattern (`f64::to_bits`), so the
/// bytes on the wire are exactly those of `f64::to_le_bytes`.
pub struct F64PairCodec;

impl Codec for F64PairCodec {
    type Value = F64PairBits;

    open spec fn spec_encode(v: F64PairBits) -> Seq<u8> {
        le_bytes(v.first) + le_bytes(v.second)
    }

    open spec fn spec_decode(bytes: Seq<u8>) -> Option<F64PairBits> {
        if bytes.len() == 16 {
            Some(
                F64PairBits {
                    first: from_le_bytes(bytes.subrange(0, 8)),
                    second: from_le_bytes(bytes.subrange(8, 16)),
                },
            )
        } else {
            None
        }
    }

    fn encode(v: F64PairBits, buf: &mut [u8]) -> (n: usize) {
        put_le_bytes(v.first, buf, 0);
        put_le_bytes(v.second, buf, 8);
        assert(buf@.subrange(0, 16) =~= Self::spec_encode(v));
        assert(buf@.subrange(16, buf@.len() as int) =~= old(buf)@.subrange(
            16,
            old(buf)@.len() as int,
        ));
        16
    }

    fn decode(buf: &[u8]) -> (r: Option<F64PairBits>) {
        if buf.len() != 16 {
            return None;
        }
        let a = get_le_bytes(buf, 0);
        let b = get_le_bytes(buf, 8);
        Some(F64PairBits { first: a, second: b })
    }

    proof fn lemma_round_trip(v: F64PairBits) {
        lemma_le_bytes_round_trip(v.first);
        lemma_le_bytes_round_trip(v.second);
        let s = Self::spec_encode(v);
        assert(s.subrange(0, 8) =~= le_bytes(v.first));
        assert(s.subrange(8, 16) =~= le_bytes(v.second));
    }
}

impl F64PairCodec {
    /// Every sixteen-byte datagram decodes, and encoding the result gives the
    /// same sixteen bytes back: the codec is a bijection on 16-byte datagrams.
    pub proof fn lemma_decode_then_encode(bytes: Seq<u8>)
        requires
            bytes.len() == 16,
        ensures
            Self::spec_decode(bytes) is Some,
            Self::spec_encode(Self::spec_decode(bytes).unwrap()) == bytes,
    {
        lemma_from_le_bytes_round_trip(bytes.subrange(0, 8));
        lemma_from_le_bytes_round_trip(bytes.subrange(8, 16));
        assert(Self::spec_encode(Self::spec_decode(bytes).unwrap()) =~= bytes);
    }
}

} // verus!
