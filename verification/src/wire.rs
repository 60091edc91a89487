//! The structured binary encoder: an append-only builder that writes tagged,
//! length-prefixed fields in the wire format the external token module reads,
//! together with the spec-level description of that format and the matching
//! parser used to state round-trip facts.

use vstd::prelude::*;

verus! {

// ---------------------------------------------------------------------------
// Base-128 variable-length integers
// ---------------------------------------------------------------------------

/// The little-endian base-128 encoding of `n`: seven value bits per byte, the
/// high bit of a byte marking that more bytes follow.
pub open spec fn varint_enc(n: nat) -> Seq<u8>
    decreases n,
{
    if n < 128 {
        seq![n as u8]
    } else {
        seq![(n % 128 + 128) as u8] + varint_enc(n / 128)
    }
}

/// 128 raised to `k`.
pub open spec fn pow128(k: nat) -> nat
    decreases k,
{
    if k == 0 {
        1
    } else {
        128 * pow128((k - 1) as nat)
    }
}

/// Parse a varint of at most `max` bytes from the front of `b`, yielding the
/// value and the remaining bytes.
pub open spec fn varint_parse_at_most(b: Seq<u8>, max: nat) -> Option<(nat, Seq<u8>)>
    decreases max,
{
    if max == 0 || b.len() == 0 {
        None
    } else if b[0] < 128 {
        Some(((b[0] as nat), b.subrange(1, b.len() as int)))
    } else {
        match varint_parse_at_most(b.subrange(1, b.len() as int), (max - 1) as nat) {
            None => None,
            Some((v, rest)) => Some(((b[0] - 128) as nat + 128 * v, rest)),
        }
    }
}

/// Parse a varint from the front of `b`. Encodings longer than nine bytes
/// (values of `pow128(9)` and above) are rejected as malformed.
pub open spec fn varint_parse(b: Seq<u8>) -> Option<(nat, Seq<u8>)> {
    varint_parse_at_most(b, 9)
}

/// A value below `pow128(k)` encodes in at most `k` bytes.
pub proof fn lemma_varint_enc_len(n: nat, k: nat)
    requires
        1 <= k,
        n < pow128(k),
    ensures
        varint_enc(n).len() <= k,
    decreases k,
{
    if n < 128 {
    } else {
        assert(pow128(k) == 128 * pow128((k - 1) as nat));
        assert(128 <= n);
        assert(2 <= k) by {
            if k == 1 {
                assert(pow128(1nat) == 128 * pow128(0nat));
            }
        }
        assert(n / 128 < pow128((k - 1) as nat)) by {
            vstd::arithmetic::div_mod::lemma_fundamental_div_mod(n as int, 128);
            if n / 128 >= pow128((k - 1) as nat) {
                assert(n >= 128 * (n / 128)) by {
                    vstd::arithmetic::div_mod::lemma_fundamental_div_mod(n as int, 128);
                }
                assert(128 * (n / 128) >= 128 * pow128((k - 1) as nat)) by (nonlinear_arith)
                    requires
                        n / 128 >= pow128((k - 1) as nat),
                ;
            }
        }
        lemma_varint_enc_len(n / 128, (k - 1) as nat);
    }
}

proof fn lemma_varint_round_trip_at_most(n: nat, rest: Seq<u8>, max: nat)
    requires
        1 <= max,
        n < pow128(max),
    ensures
        varint_parse_at_most(varint_enc(n) + rest, max) == Some((n, rest)),
    decreases max,
{
    let b = varint_enc(n) + rest;
    if n < 128 {
        assert(b[0] == n as u8);
        assert(b.subrange(1, b.len() as int) =~= rest);
    } else {
        assert(pow128(max) == 128 * pow128((max - 1) as nat));
        assert(2 <= max) by {
            if max == 1 {
                assert(pow128(1nat) == 128 * pow128(0nat));
            }
        }
        assert(n / 128 < pow128((max - 1) as nat)) by {
            if n / 128 >= pow128((max - 1) as nat) {
                assert(n >= 128 * (n / 128)) by {
                    vstd::arithmetic::div_mod::lemma_fundamental_div_mod(n as int, 128);
                }
                assert(128 * (n / 128) >= 128 * pow128((max - 1) as nat)) by (nonlinear_arith)
                    requires
                        n / 128 >= pow128((max - 1) as nat),
                ;
            }
        }
        lemma_varint_round_trip_at_most(n / 128, rest, (max - 1) as nat);
        assert(b[0] == (n % 128 + 128) as u8);
        assert(b[0] >= 128);
        assert(b.subrange(1, b.len() as int) =~= varint_enc(n / 128) + rest);
        vstd::arithmetic::div_mod::lemma_fundamental_div_mod(n as int, 128);
        assert((b[0] - 128) as nat + 128 * (n / 128) == n);
    }
}

/// Parsing undoes encoding: a varint written at the front of a buffer is read
/// back as the same value, leaving exactly the trailing bytes.
pub proof fn lemma_varint_round_trip(n: nat, rest: Seq<u8>)
    requires
        n < pow128(9),
    ensures
        varint_parse(varint_enc(n) + rest) == Some((n, rest)),
{
    lemma_varint_round_trip_at_most(n, rest, 9);
}

/// `pow128(9)` written out: every value below `0x8000_0000_0000_0000` has a
/// parseable encoding.
pub proof fn lemma_pow128_9()
    ensures
        pow128(9) == 0x8000_0000_0000_0000,
{
    reveal_with_fuel(pow128, 10);
}

/// Append the varint encoding of `n` to `buf`.
pub fn write_varint(buf: Vec<u8>, n: u64) -> (r: Vec<u8>)
    ensures
        r@ == buf@ + varint_enc(n as nat),
    decreases n,
{
    let ghost orig = buf@;
    let mut b = buf;
    if n < 128 {
        b.push(n as u8);
        assert(b@ =~= orig + varint_enc(n as nat));
        b
    } else {
        b.push((n % 128 + 128) as u8);
        assert(n / 128 < n) by {
            vstd::arithmetic::div_mod::lemma_fundamental_div_mod(n as int, 128);
        }
        let r = write_varint(b, n / 128);
        assert(r@ =~= orig + varint_enc(n as nat));
        r
    }
}

// ---------------------------------------------------------------------------
// Tagged, length-prefixed fields
// ---------------------------------------------------------------------------

/// The key of a length-delimited field: tag number shifted over the wire type.
pub open spec fn key_enc(tag: nat) -> Seq<u8> {
    varint_enc(8 * tag + 2)
}

/// A length-delimited field: key, payload length, payload bytes.
pub open spec fn field_enc(tag: nat, payload: Seq<u8>) -> Seq<u8> {
    key_enc(tag) + varint_enc(payload.len()) + payload
}

/// A string field: the payload is the UTF-8 encoding of the characters.
pub open spec fn str_field_enc(tag: nat, s: Seq<char>) -> Seq<u8> {
    field_enc(tag, vstd::utf8::encode_utf8(s))
}

/// The largest field tag the wire format admits.
pub const MAX_TAG: u32 = 0x1FFF_FFFF;

/// The structured binary encoder: an append-only builder over a growing byte
/// buffer. Its view is the bytes written so far. Callers append fields in
/// ascending tag order; the builder itself does not enforce ordering.
pub struct WireBuilder {
    buf: Vec<u8>,
}

impl View for WireBuilder {
    type V = Seq<u8>;

    closed spec fn view(&self) -> Seq<u8> {
        self.buf@
    }
}

impl WireBuilder {
    /// A builder holding no bytes yet.
    pub fn new() -> (r: WireBuilder)
        ensures
            r@ == Seq::<u8>::empty(),
    {
        let r = WireBuilder { buf: Vec::new() };
        assert(r@ =~= Seq::<u8>::empty());
        r
    }

    /// Append a string field: key for `tag`, byte length of `value`, then the
    /// UTF-8 bytes of `value`.
    pub fn append_string(self, tag: u32, value: &str) -> (r: WireBuilder)
        requires
            1 <= tag <= MAX_TAG,
        ensures
            r@ == self@ + str_field_enc(tag as nat, value@),
    {
        let ghost orig = self@;
        let mut buf = self.buf;
        buf = write_varint(buf, 8 * (tag as u64) + 2);
        let bytes: &[u8] = value.as_bytes();
        buf = write_varint(buf, bytes.len() as u64);
        buf.extend_from_slice(bytes);
        let r = WireBuilder { buf };
        assert(r@ =~= orig + str_field_enc(tag as nat, value@));
        r
    }

    /// Append a nested message field: key for `tag`, length of the nested
    /// builder's bytes, then those bytes.
    pub fn append_message(self, tag: u32, nested: &WireBuilder) -> (r: WireBuilder)
        requires
            1 <= tag <= MAX_TAG,
        ensures
            r@ == self@ + field_enc(tag as nat, nested@),
    {
        let ghost orig = self@;
        let mut buf = self.buf;
        buf = write_varint(buf, 8 * (tag as u64) + 2);
        buf = write_varint(buf, nested.buf.len() as u64);
        buf.extend_from_slice(nested.buf.as_slice());
        let r = WireBuilder { buf };
        assert(r@ =~= orig + field_enc(tag as nat, nested@));
        r
    }

    /// Hand out the finished bytes. The builder is single-use: this consumes it.
    pub fn into_vec(self) -> (r: Vec<u8>)
        ensures
            r@ == self@,
    {
        self.buf
    }
}

// ---------------------------------------------------------------------------
// Parsing
// ---------------------------------------------------------------------------

/// Parse one length-delimited field from the front of `b`: its tag, its
/// payload, and the bytes that follow it. Fields of any other wire type are
/// rejected.
pub open spec fn field_parse(b: Seq<u8>) -> Option<(nat, Seq<u8>, Seq<u8>)> {
    match varint_parse(b) {
        None => None,
        Some((key, r1)) => if key % 8 != 2 {
            None
        } else {
            match varint_parse(r1) {
                None => None,
                Some((len, r2)) => if r2.len() < len {
                    None
                } else {
                    Some(
                        (
                            key / 8,
                            r2.subrange(0, len as int),
                            r2.subrange(len as int, r2.len() as int),
                        ),
                    )
                },
            }
        },
    }
}

/// Parsing undoes field encoding: a field written at the front of a buffer is
/// read back with its tag and payload, leaving exactly the trailing bytes.
pub proof fn lemma_field_round_trip(tag: nat, payload: Seq<u8>, rest: Seq<u8>)
    requires
        1 <= tag <= MAX_TAG,
        payload.len() < pow128(9),
    ensures
        field_parse(field_enc(tag, payload) + rest) == Some((tag, payload, rest)),
{
    let key: nat = 8 * tag + 2;
    let b = field_enc(tag, payload) + rest;
    lemma_pow128_9();
    assert(b =~= varint_enc(key) + (varint_enc(payload.len()) + (payload + rest)));
    lemma_varint_round_trip(key, varint_enc(payload.len()) + (payload + rest));
    assert(key % 8 == 2 && key / 8 == tag) by (nonlinear_arith)
        requires
            key == 8 * tag + 2,
    ;
    lemma_varint_round_trip(payload.len(), payload + rest);
    let r2 = payload + rest;
    assert(r2.subrange(0, payload.len() as int) =~= payload);
    assert(r2.subrange(payload.len() as int, r2.len() as int) =~= rest);
}

proof fn lemma_pow128_le(a: nat, b: nat)
    requires
        a <= b,
    ensures
        pow128(a) <= pow128(b),
    decreases b,
{
    if a < b {
        lemma_pow128_le(a, (b - 1) as nat);
        assert(pow128(b) == 128 * pow128((b - 1) as nat));
    }
}

/// Read a varint of at most `max` bytes out of `data[start..end]`, returning
/// the value and the index just past it.
fn read_varint_at_most(data: &Vec<u8>, start: usize, end: usize, max: u8) -> (r: Option<
    (u64, usize),
>)
    requires
        start <= end <= data@.len(),
        max <= 9,
    ensures
        match r {
            Some((v, next)) => {
                &&& start < next <= end
                &&& varint_parse_at_most(data@.subrange(start as int, end as int), max as nat)
                    == Some(((v as nat), data@.subrange(next as int, end as int)))
                &&& (v as nat) < pow128(max as nat)
            },
            None => varint_parse_at_most(
                data@.subrange(start as int, end as int),
                max as nat,
            ) is None,
        },
    decreases max,
{
    let ghost s = data@.subrange(start as int, end as int);
    if max == 0 || start == end {
        None
    } else {
        let byte = *vstd::std_specs::vec::vec_index(data, start);
        assert(s[0] == byte);
        if byte < 128 {
            assert(s.subrange(1, s.len() as int) =~= data@.subrange(start + 1, end as int));
            proof {
                lemma_pow128_le(1, max as nat);
                assert(pow128(1nat) == 128 * pow128(0nat));
            }
            Some((byte as u64, start + 1))
        } else {
            assert(data@.subrange(start + 1, end as int) =~= s.subrange(1, s.len() as int));
            match read_varint_at_most(data, start + 1, end, max - 1) {
                None => None,
                Some((v, next)) => {
                    proof {
                        lemma_pow128_le((max - 1) as nat, 8);
                        reveal_with_fuel(pow128, 10);
                        assert(pow128(max as nat) == 128 * pow128((max - 1) as nat));
                    }
                    Some(((byte - 128) as u64 + 128 * v, next))
                },
            }
        }
    }
}

/// Read a varint out of `data[start..end]`: the value and the index just past
/// it. Encodings longer than nine bytes are rejected.
fn read_varint(data: &Vec<u8>, start: usize, end: usize) -> (r: Option<(u64, usize)>)
    requires
        start <= end <= data@.len(),
    ensures
        match r {
            Some((v, next)) => {
                &&& start < next <= end
                &&& varint_parse(data@.subrange(start as int, end as int)) == Some(
                    ((v as nat), data@.subrange(next as int, end as int)),
                )
            },
            None => varint_parse(data@.subrange(start as int, end as int)) is None,
        },
{
    read_varint_at_most(data, start, end, 9)
}

/// Read one length-delimited field out of `data[start..end]`: its tag and the
/// bounds of its payload, `data[ps..pe]`. The bytes from `pe` to `end` follow
/// the field.
pub(crate) fn read_field(data: &Vec<u8>, start: usize, end: usize) -> (r: Option<(u64, usize, usize)>)
    requires
        start <= end <= data@.len(),
    ensures
        match r {
            Some((tag, ps, pe)) => {
                &&& start <= ps <= pe <= end
                &&& field_parse(data@.subrange(start as int, end as int)) == Some(
                    (
                        (tag as nat),
                        data@.subrange(ps as int, pe as int),
                        data@.subrange(pe as int, end as int),
                    ),
                )
            },
            None => field_parse(data@.subrange(start as int, end as int)) is None,
        },
{
    let ghost s = data@.subrange(start as int, end as int);
    match read_varint(data, start, end) {
        None => None,
        Some((key, i1)) => {
            if key % 8 != 2 {
                return None;
            }
            match read_varint(data, i1, end) {
                None => None,
                Some((len, i2)) => {
                    let ghost r2 = data@.subrange(i2 as int, end as int);
                    let remaining: usize = end - i2;
                    if len > remaining as u64 {
                        None
                    } else {
                        let pe: usize = i2 + (len as usize);
                        assert(r2.subrange(0, len as int) =~= data@.subrange(
                            i2 as int,
                            pe as int,
                        ));
                        assert(r2.subrange(len as int, r2.len() as int) =~= data@.subrange(
                            pe as int,
                            end as int,
                        ));
                        Some((key / 8, i2, pe))
                    }
                },
            }
        },
    }
}

} // verus!
