//! The wire encoding of the status object: base-128 varints and
//! tag-length-value fields, as the protocol's serialization rules fix
//! them for the status message (code, message text, detail records).

use vstd::prelude::*;
use vstd::utf8::decode_utf8;
use vstd::utf8::encode_utf8;
use vstd::utf8::valid_utf8;

use crate::ustatus::ProtoAny;
use crate::ustatus::UStatus;

verus! {

broadcast use vstd::seq_lib::group_seq_lib_default;

/// Two to the 64th: the modulus of the 64-bit wire representation.
pub open spec fn two_to_64() -> nat {
    0x1_0000_0000_0000_0000
}

/// The base-128 little-endian encoding of an unsigned value: seven data
/// bits per byte, the high bit marking continuation.
pub open spec fn varint_bytes(v: nat) -> Seq<u8>
    decreases v,
{
    if v < 0x80 {
        seq![v as u8]
    } else {
        seq![(0x80 + (v % 0x80)) as u8] + varint_bytes(v / 0x80)
    }
}

/// The 64-bit wire value of a signed 32-bit code: non-negative codes
/// stand for themselves, negative ones are sign-extended to 64 bits.
pub open spec fn code_wire_value(code: int) -> nat {
    if code >= 0 {
        code as nat
    } else {
        (code + two_to_64()) as nat
    }
}

/// The signed 32-bit code denoted by a 64-bit wire value: the low 32
/// bits, reinterpreted in two's complement.
pub open spec fn code_from_wire(v: u64) -> int {
    let low = (v as int) % 0x1_0000_0000;
    if low < 0x8000_0000 {
        low
    } else {
        low - 0x1_0000_0000
    }
}

/// A tag byte followed by a length-prefixed payload.
pub open spec fn len_prefixed(tag: u8, payload: Seq<u8>) -> Seq<u8> {
    seq![tag] + varint_bytes(payload.len() as nat) + payload
}

/// The mathematical content of a detail record: its type URL and its
/// payload bytes.
pub struct AnyModel {
    pub type_url: Seq<char>,
    pub value: Seq<u8>,
}

/// The mathematical content of a status object: the raw code, the
/// message text if present, and the detail records.
pub struct StatusModel {
    pub code: int,
    pub message: Option<Seq<char>>,
    pub details: Seq<AnyModel>,
}

/// The content of a detail record value.
pub open spec fn any_model(d: ProtoAny) -> AnyModel {
    AnyModel { type_url: d.type_url@, value: d.value@ }
}

/// The content of a status value.
pub open spec fn status_model(s: UStatus) -> StatusModel {
    StatusModel {
        code: s.code as int,
        message: match s.message {
            Some(m) => Some(m@),
            None => None,
        },
        details: s.details@.map_values(|d: ProtoAny| any_model(d)),
    }
}

/// The wire bytes of a detail record: its type URL as a length-prefixed
/// UTF-8 field, then its payload as a length-prefixed bytes field, each
/// omitted when empty.
pub open spec fn any_bytes(d: AnyModel) -> Seq<u8> {
    let url_bytes = encode_utf8(d.type_url);
    (if url_bytes.len() == 0 {
        Seq::<u8>::empty()
    } else {
        len_prefixed(0x0A, url_bytes)
    }) + (if d.value.len() == 0 {
        Seq::<u8>::empty()
    } else {
        len_prefixed(0x12, d.value)
    })
}

/// The wire bytes of a sequence of detail records, in order.
pub open spec fn details_bytes(ds: Seq<AnyModel>) -> Seq<u8>
    decreases ds.len(),
{
    if ds.len() == 0 {
        Seq::<u8>::empty()
    } else {
        len_prefixed(0x1A, any_bytes(ds.first())) + details_bytes(ds.drop_first())
    }
}

/// The wire bytes of a status object: the code as a varint field when it
/// is not the default, the message as a length-prefixed UTF-8 field when
/// present, then the detail records.
pub open spec fn model_bytes(m: StatusModel) -> Seq<u8> {
    (if m.code == 0 {
        Seq::<u8>::empty()
    } else {
        seq![0x08u8] + varint_bytes(code_wire_value(m.code))
    }) + (match m.message {
        Some(chars) => len_prefixed(0x12, encode_utf8(chars)),
        None => Seq::<u8>::empty(),
    }) + details_bytes(m.details)
}

/// The wire bytes of a status value.
pub open spec fn status_bytes(s: UStatus) -> Seq<u8> {
    model_bytes(status_model(s))
}

/// Appends the varint encoding of a value.
fn push_varint(out: &mut Vec<u8>, v: u64)
    ensures
        final(out)@ == old(out)@ + varint_bytes(v as nat),
    decreases v,
{
    if v < 0x80 {
        out.push(v as u8);
        assert(final(out)@ =~= old(out)@ + varint_bytes(v as nat));
    } else {
        let b: u8 = 0x80 + (v % 0x80) as u8;
        out.push(b);
        push_varint(out, v / 0x80);
        assert(varint_bytes(v as nat) == seq![b] + varint_bytes((v / 0x80) as nat));
        assert(final(out)@ =~= old(out)@ + varint_bytes(v as nat));
    }
}

/// Appends a byte slice.
fn push_bytes(out: &mut Vec<u8>, b: &[u8])
    ensures
        final(out)@ == old(out)@ + b@,
{
    let mut i: usize = 0;
    while i < b.len()
        invariant
            i <= b@.len(),
            out@ == old(out)@ + b@.take(i as int),
        decreases b@.len() - i,
    {
        let byte = b[i];
        out.push(byte);
        assert(out@ =~= old(out)@ + b@.take(i + 1));
        i = i + 1;
    }
    assert(b@.take(b@.len() as int) =~= b@);
}

/// Encodes one detail record.
fn encode_any(d: &ProtoAny) -> (r: Vec<u8>)
    ensures
        r@ == any_bytes(any_model(*d)),
{
    let mut out: Vec<u8> = Vec::new();
    let url_bytes: &[u8] = d.type_url.as_str().as_bytes();
    if url_bytes.len() > 0 {
        out.push(0x0A);
        push_varint(&mut out, url_bytes.len() as u64);
        push_bytes(&mut out, url_bytes);
    }
    if d.value.len() > 0 {
        out.push(0x12);
        push_varint(&mut out, d.value.len() as u64);
        push_bytes(&mut out, d.value.as_slice());
    }
    assert(out@ =~= any_bytes(any_model(*d)));
    out
}

/// Encodes a status object to its wire bytes.
pub fn encode_status(s: &UStatus) -> (r: Vec<u8>)
    ensures
        r@ == status_bytes(*s),
{
    let ghost m = status_model(*s);
    let mut out: Vec<u8> = Vec::new();
    if s.code != 0 {
        out.push(0x08);
        let wire: u64 = if s.code >= 0 {
            s.code as u64
        } else {
            let magnitude: u64 = (-(s.code as i64)) as u64;
            u64::MAX - (magnitude - 1)
        };
        assert(wire as nat == code_wire_value(s.code as int));
        push_varint(&mut out, wire);
    }
    let ghost code_part = out@;
    assert(code_part =~= if m.code == 0 {
        Seq::<u8>::empty()
    } else {
        seq![0x08u8] + varint_bytes(code_wire_value(m.code))
    });
    if let Some(msg) = s.message.as_ref() {
        let msg_bytes: &[u8] = msg.as_str().as_bytes();
        out.push(0x12);
        push_varint(&mut out, msg_bytes.len() as u64);
        push_bytes(&mut out, msg_bytes);
    }
    let ghost head_part = out@;
    assert(head_part =~= code_part + (match m.message {
        Some(chars) => len_prefixed(0x12, encode_utf8(chars)),
        None => Seq::<u8>::empty(),
    }));
    proof {
        assert(m.details.skip(0) =~= m.details);
    }
    let mut i: usize = 0;
    while i < s.details.len()
        invariant
            i <= s.details@.len(),
            head_part == code_part + (match m.message {
                Some(chars) => len_prefixed(0x12, encode_utf8(chars)),
                None => Seq::<u8>::empty(),
            }),
            m == status_model(*s),
            out@ + details_bytes(m.details.skip(i as int)) == head_part + details_bytes(m.details),
        decreases s.details@.len() - i,
    {
        let ghost rest = m.details.skip(i as int);
        let ghost out_before = out@;
        let any = encode_any(&s.details[i]);
        out.push(0x1A);
        push_varint(&mut out, any.len() as u64);
        push_bytes(&mut out, any.as_slice());
        proof {
            assert(rest.first() == m.details[i as int]);
            assert(rest.drop_first() =~= m.details.skip(i as int + 1));
            assert(details_bytes(rest) == len_prefixed(0x1A, any_bytes(rest.first()))
                + details_bytes(rest.drop_first()));
            assert(out@ =~= out_before + len_prefixed(0x1A, any_bytes(rest.first())));
            assert(out@ + details_bytes(m.details.skip(i as int + 1)) =~= head_part + details_bytes(
                m.details,
            ));
        }
        i = i + 1;
    }
    proof {
        assert(m.details.skip(m.details.len() as int) =~= Seq::<AnyModel>::empty());
        assert(out@ =~= head_part + details_bytes(m.details));
        assert(out@ =~= status_bytes(*s));
    }
    out
}

/// The result of parsing a varint at the head of a byte sequence: the
/// value and the count of bytes consumed. Nothing is parsed from an empty
/// sequence, an unterminated continuation, or a value beyond 64 bits.
pub open spec fn parse_varint(b: Seq<u8>) -> Option<(u64, int)>
    decreases b.len(),
{
    if b.len() == 0 {
        None
    } else if b[0] < 0x80 {
        Some((b[0] as u64, 1))
    } else {
        match parse_varint(b.skip(1)) {
            None => None,
            Some(t) => {
                if t.0 >= 0x0200_0000_0000_0000 {
                    None
                } else {
                    Some((((b[0] - 0x80) + t.0 * 0x80) as u64, t.1 + 1))
                }
            },
        }
    }
}

/// The result of parsing a tag byte followed by a length-prefixed
/// payload: the payload and the count of bytes consumed, when the length
/// is available in full.
pub open spec fn parse_len_delimited(b: Seq<u8>) -> Option<(Seq<u8>, int)> {
    match parse_varint(b.skip(1)) {
        None => None,
        Some(t) => {
            let len = t.0 as int;
            let n = t.1;
            if n < 1 || 1 + n + len > b.len() {
                None
            } else {
                Some((b.subrange(1 + n, 1 + n + len), 1 + n + len))
            }
        },
    }
}

/// The result of parsing a sequence of detail-record fields onto an
/// accumulated record: a type-URL field must hold valid UTF-8, a later
/// field of either kind replaces an earlier one, and an unknown tag
/// rejects the sequence.
pub open spec fn parse_any_fields(b: Seq<u8>, acc: AnyModel) -> Option<AnyModel>
    decreases b.len(),
{
    if b.len() == 0 {
        Some(acc)
    } else if b[0] == 0x0A {
        match parse_len_delimited(b) {
            None => None,
            Some(t) => {
                if !valid_utf8(t.0) {
                    None
                } else {
                    parse_any_fields(b.skip(t.1), AnyModel { type_url: decode_utf8(t.0), ..acc })
                }
            },
        }
    } else if b[0] == 0x12 {
        match parse_len_delimited(b) {
            None => None,
            Some(t) => parse_any_fields(b.skip(t.1), AnyModel { value: t.0, ..acc }),
        }
    } else {
        None
    }
}

/// The result of parsing a sequence of status fields onto an accumulated
/// model: a message field must hold valid UTF-8, a later scalar field
/// replaces an earlier one, detail records accumulate in order, and an
/// unknown tag rejects the sequence.
pub open spec fn parse_status_fields(b: Seq<u8>, acc: StatusModel) -> Option<StatusModel>
    decreases b.len(),
{
    if b.len() == 0 {
        Some(acc)
    } else if b[0] == 0x08 {
        match parse_varint(b.skip(1)) {
            None => None,
            Some(t) => {
                if t.1 < 1 || 1 + t.1 > b.len() {
                    None
                } else {
                    parse_status_fields(
                        b.skip(1 + t.1),
                        StatusModel { code: code_from_wire(t.0), ..acc },
                    )
                }
            },
        }
    } else if b[0] == 0x12 {
        match parse_len_delimited(b) {
            None => None,
            Some(t) => {
                if !valid_utf8(t.0) {
                    None
                } else {
                    parse_status_fields(
                        b.skip(t.1),
                        StatusModel { message: Some(decode_utf8(t.0)), ..acc },
                    )
                }
            },
        }
    } else if b[0] == 0x1A {
        match parse_len_delimited(b) {
            None => None,
            Some(t) => {
                match parse_any_fields(
                    t.0,
                    AnyModel { type_url: Seq::<char>::empty(), value: Seq::<u8>::empty() },
                ) {
                    None => None,
                    Some(a) => parse_status_fields(
                        b.skip(t.1),
                        StatusModel { details: acc.details.push(a), ..acc },
                    ),
                }
            },
        }
    } else {
        None
    }
}

/// The status model denoted by a byte sequence, when it parses.
pub open spec fn parse_status(b: Seq<u8>) -> Option<StatusModel> {
    parse_status_fields(
        b,
        StatusModel { code: 0, message: None, details: Seq::<AnyModel>::empty() },
    )
}

/// Relies on std's str::from_utf8: it accepts exactly the byte sequences
/// that are valid UTF-8, and views them as the character sequence whose
/// UTF-8 encoding is the input itself.
#[verifier::external_body]
fn bytes_to_string(b: &[u8]) -> (r: Option<String>)
    ensures
        match r {
            Some(s) => encode_utf8(s@) == b@,
            None => !valid_utf8(b@),
        },
{
    match std::str::from_utf8(b) {
        Ok(s) => Some(s.to_owned()),
        Err(_) => None,
    }
}

/// Reads a varint at a position.
fn read_varint(b: &[u8], pos: usize) -> (r: Option<(u64, usize)>)
    requires
        pos <= b@.len(),
    ensures
        ({
            let p = parse_varint(b@.skip(pos as int));
            match r {
                Some(t) => p == Some((t.0, t.1 as int)) && 1 <= t.1 && pos + t.1 <= b@.len(),
                None => p is None,
            }
        }),
    decreases b@.len() - pos,
{
    if pos == b.len() {
        return None;
    }
    let byte = b[pos];
    assert(b@.skip(pos as int)[0] == b@[pos as int]);
    if byte < 0x80 {
        Some((byte as u64, 1))
    } else {
        proof {
            assert(b@.skip(pos as int).skip(1) =~= b@.skip(pos as int + 1));
        }
        match read_varint(b, pos + 1) {
            None => None,
            Some(t) => {
                if t.0 >= 0x0200_0000_0000_0000 {
                    None
                } else {
                    Some(((byte - 0x80) as u64 + t.0 * 0x80, t.1 + 1))
                }
            },
        }
    }
}

/// Reads a tag byte and its length-prefixed payload at a position,
/// returning the payload and the count of bytes consumed.
fn read_len_delimited<'a>(b: &'a [u8], pos: usize) -> (r: Option<(&'a [u8], usize)>)
    requires
        pos < b@.len(),
    ensures
        ({
            let p = parse_len_delimited(b@.skip(pos as int));
            match r {
                Some(t) => (p matches Some(q) && q.0 == t.0@ && q.1 == t.1 as int) && 2 <= t.1
                    && pos + t.1 <= b@.len(),
                None => p is None,
            }
        }),
{
    let total = b.len();
    proof {
        assert(b@.skip(pos as int).skip(1) =~= b@.skip(pos as int + 1));
    }
    match read_varint(b, pos + 1) {
        None => None,
        Some(t) => {
            let (len_val, n) = t;
            let end_wide: u128 = pos as u128 + 1 + n as u128 + len_val as u128;
            if end_wide > total as u128 {
                None
            } else {
                let start: usize = pos + 1 + n;
                let len_us: usize = len_val as usize;
                let end: usize = start + len_us;
                let payload = vstd::slice::slice_subrange(b, start, end);
                proof {
                    assert(b@.skip(pos as int).subrange(1 + n as int, 1 + n as int + len_val as int)
                        =~= b@.subrange(start as int, end as int));
                }
                Some((payload, 1 + n + len_us))
            }
        },
    }
}

/// Reads the fields of a detail record from a position onward.
fn decode_any_fields(b: &[u8], pos: usize, acc: ProtoAny) -> (r: Option<ProtoAny>)
    requires
        pos <= b@.len(),
    ensures
        ({
            let p = parse_any_fields(b@.skip(pos as int), any_model(acc));
            match r {
                Some(d) => p == Some(any_model(d)),
                None => p is None,
            }
        }),
    decreases b@.len() - pos,
{
    if pos == b.len() {
        proof {
            assert(b@.skip(pos as int) =~= Seq::<u8>::empty());
        }
        return Some(acc);
    }
    let tag = b[pos];
    assert(b@.skip(pos as int)[0] == b@[pos as int]);
    if tag == 0x0A {
        match read_len_delimited(b, pos) {
            None => None,
            Some(t) => {
                let (payload, consumed) = t;
                match bytes_to_string(payload) {
                    None => None,
                    Some(url) => {
                        proof {
                            vstd::utf8::encode_utf8_valid_utf8(url@);
                            vstd::utf8::encode_utf8_decode_utf8(url@);
                            assert(b@.skip(pos as int).skip(consumed as int) =~= b@.skip(
                                pos as int + consumed as int,
                            ));
                        }
                        decode_any_fields(b, pos + consumed, ProtoAny { type_url: url, ..acc })
                    },
                }
            },
        }
    } else if tag == 0x12 {
        match read_len_delimited(b, pos) {
            None => None,
            Some(t) => {
                let (payload, consumed) = t;
                let value = vstd::slice::slice_to_vec(payload);
                proof {
                    assert(b@.skip(pos as int).skip(consumed as int) =~= b@.skip(
                        pos as int + consumed as int,
                    ));
                }
                decode_any_fields(b, pos + consumed, ProtoAny { value, ..acc })
            },
        }
    } else {
        None
    }
}

/// Reads the fields of a status object from a position onward.
fn decode_status_fields(b: &[u8], pos: usize, acc: UStatus) -> (r: Option<UStatus>)
    requires
        pos <= b@.len(),
    ensures
        ({
            let p = parse_status_fields(b@.skip(pos as int), status_model(acc));
            match r {
                Some(st) => p == Some(status_model(st)),
                None => p is None,
            }
        }),
    decreases b@.len() - pos,
{
    if pos == b.len() {
        proof {
            assert(b@.skip(pos as int) =~= Seq::<u8>::empty());
        }
        return Some(acc);
    }
    let tag = b[pos];
    assert(b@.skip(pos as int)[0] == b@[pos as int]);
    if tag == 0x08 {
        proof {
            assert(b@.skip(pos as int).skip(1) =~= b@.skip(pos as int + 1));
        }
        match read_varint(b, pos + 1) {
            None => None,
            Some(t) => {
                let (v, n) = t;
                let low: u64 = v % 0x1_0000_0000;
                let code: i32 = if low < 0x8000_0000 {
                    low as i32
                } else {
                    ((low as i64) - 0x1_0000_0000) as i32
                };
                assert(code as int == code_from_wire(v));
                proof {
                    assert(b@.skip(pos as int).skip(1 + n as int) =~= b@.skip(
                        pos as int + 1 + n as int,
                    ));
                }
                decode_status_fields(b, pos + 1 + n, UStatus { code, ..acc })
            },
        }
    } else if tag == 0x12 {
        match read_len_delimited(b, pos) {
            None => None,
            Some(t) => {
                let (payload, consumed) = t;
                match bytes_to_string(payload) {
                    None => None,
                    Some(msg) => {
                        proof {
                            vstd::utf8::encode_utf8_valid_utf8(msg@);
                            vstd::utf8::encode_utf8_decode_utf8(msg@);
                            assert(b@.skip(pos as int).skip(consumed as int) =~= b@.skip(
                                pos as int + consumed as int,
                            ));
                        }
                        decode_status_fields(
                            b,
                            pos + consumed,
                            UStatus { message: Some(msg), ..acc },
                        )
                    },
                }
            },
        }
    } else if tag == 0x1A {
        match read_len_delimited(b, pos) {
            None => None,
            Some(t) => {
                let (payload, consumed) = t;
                proof {
                    assert(payload@.skip(0) =~= payload@);
                }
                match decode_any_fields(
                    payload,
                    0,
                    ProtoAny { type_url: String::new(), value: Vec::new() },
                ) {
                    None => None,
                    Some(d) => {
                        let UStatus { code, message, mut details } = acc;
                        let ghost old_details = details@;
                        details.push(d);
                        proof {
                            assert(details@.map_values(|x: ProtoAny| any_model(x)) =~= old_details
                                .map_values(|x: ProtoAny| any_model(x)).push(any_model(d)));
                            assert(b@.skip(pos as int).skip(consumed as int) =~= b@.skip(
                                pos as int + consumed as int,
                            ));
                        }
                        decode_status_fields(b, pos + consumed, UStatus { code, message, details })
                    },
                }
            },
        }
    } else {
        None
    }
}

/// A varint encoding followed by anything parses back to the encoded
/// value, consuming exactly the encoding.
proof fn lemma_parse_varint(v: u64, rest: Seq<u8>)
    ensures
        parse_varint(varint_bytes(v as nat) + rest) == Some(
            (v, varint_bytes(v as nat).len() as int),
        ),
    decreases v,
{
    let bytes = varint_bytes(v as nat) + rest;
    if v < 0x80 {
        assert(bytes[0] == v as u8);
    } else {
        let first = (0x80 + (v as nat % 0x80)) as u8;
        assert(bytes[0] == first);
        assert(bytes.skip(1) =~= varint_bytes((v as nat) / 0x80) + rest);
        assert((v / 0x80) as nat == (v as nat) / 0x80);
        lemma_parse_varint(v / 0x80, rest);
        assert(v / 0x80 < 0x0200_0000_0000_0000);
        assert((first - 0x80) + (v / 0x80) * 0x80 == v);
        assert(varint_bytes(v as nat).len() == 1 + varint_bytes((v as nat) / 0x80).len());
    }
}

/// True when a detail record is small enough to carry on the wire: each
/// of its length-prefixed parts fits the 64-bit length varint.
pub open spec fn any_fits(d: AnyModel) -> bool {
    encode_utf8(d.type_url).len() < two_to_64() && d.value.len() < two_to_64()
}

/// True when a status model is small enough to carry on the wire: its
/// code fits 32 signed bits, and every length-prefixed part fits the
/// 64-bit length varint.
pub open spec fn model_fits(m: StatusModel) -> bool {
    &&& -0x8000_0000 <= m.code < 0x8000_0000
    &&& match m.message {
        Some(chars) => encode_utf8(chars).len() < two_to_64(),
        None => true,
    }
    &&& forall|i: int| 0 <= i < m.details.len() ==> #[trigger] any_fits(m.details[i]) && any_bytes(
        m.details[i],
    ).len() < two_to_64()
}

/// A length-prefixed field followed by anything parses back to its
/// payload, consuming exactly the field.
proof fn lemma_parse_len_delimited(tag: u8, payload: Seq<u8>, rest: Seq<u8>)
    requires
        payload.len() < two_to_64(),
    ensures
        ({
            let b = len_prefixed(tag, payload) + rest;
            let n = varint_bytes(payload.len() as nat).len() as int;
            parse_len_delimited(b) == Some((payload, 1 + n + payload.len()))
        }),
{
    let b = len_prefixed(tag, payload) + rest;
    let len_v = payload.len() as u64;
    let n = varint_bytes(payload.len() as nat).len() as int;
    assert(b.skip(1) =~= varint_bytes(len_v as nat) + (payload + rest));
    lemma_parse_varint(len_v, payload + rest);
    assert(b.len() == 1 + n + payload.len() + rest.len());
    assert(b.subrange(1 + n, 1 + n + payload.len() as int) =~= payload);
}

/// The wire bytes of a detail record parse back to exactly that record.
proof fn lemma_parse_any_round_trip(d: AnyModel)
    requires
        any_fits(d),
    ensures
        parse_any_fields(
            any_bytes(d),
            AnyModel { type_url: Seq::<char>::empty(), value: Seq::<u8>::empty() },
        ) == Some(d),
{
    broadcast use vstd::utf8::encode_utf8_valid_utf8, vstd::utf8::encode_utf8_decode_utf8;

    let acc = AnyModel { type_url: Seq::<char>::empty(), value: Seq::<u8>::empty() };
    let url_bytes = encode_utf8(d.type_url);
    let value_part: Seq<u8> = if d.value.len() == 0 {
        Seq::<u8>::empty()
    } else {
        len_prefixed(0x12, d.value)
    };
    let after_url = if url_bytes.len() == 0 {
        acc
    } else {
        AnyModel { type_url: d.type_url, ..acc }
    };
    if url_bytes.len() == 0 {
        assert(d.type_url =~= Seq::<char>::empty());
        assert(any_bytes(d) =~= value_part);
    } else {
        assert(any_bytes(d) =~= len_prefixed(0x0A, url_bytes) + value_part);
        lemma_parse_len_delimited(0x0A, url_bytes, value_part);
        let b = len_prefixed(0x0A, url_bytes) + value_part;
        assert(b[0] == 0x0A);
        let n = varint_bytes(url_bytes.len() as nat).len() as int;
        assert(b.skip(1 + n + url_bytes.len() as int) =~= value_part);
        assert(parse_any_fields(any_bytes(d), acc) == parse_any_fields(value_part, after_url));
    }
    if d.value.len() == 0 {
        assert(d.value =~= Seq::<u8>::empty());
        assert(parse_any_fields(value_part, after_url) == Some(after_url));
        assert(after_url == d);
    } else {
        lemma_parse_len_delimited(0x12, d.value, Seq::<u8>::empty());
        let b2 = len_prefixed(0x12, d.value) + Seq::<u8>::empty();
        assert(value_part =~= b2);
        assert(b2[0] == 0x12);
        let n2 = varint_bytes(d.value.len() as nat).len() as int;
        assert(b2.skip(1 + n2 + d.value.len() as int) =~= Seq::<u8>::empty());
        let done = AnyModel { value: d.value, ..after_url };
        assert(parse_any_fields(value_part, after_url) == parse_any_fields(
            Seq::<u8>::empty(),
            done,
        ));
        assert(done == d);
    }
}

/// A status field parses onto the accumulator: the code field sets the
/// code and hands the rest on.
proof fn lemma_parse_code_field(code: int, rest: Seq<u8>, acc: StatusModel)
    requires
        -0x8000_0000 <= code < 0x8000_0000,
        code != 0,
    ensures
        parse_status_fields(seq![0x08u8] + varint_bytes(code_wire_value(code)) + rest, acc)
            == parse_status_fields(rest, StatusModel { code: code, ..acc }),
{
    let wire_nat = code_wire_value(code);
    let wire = wire_nat as u64;
    assert(wire as nat == wire_nat);
    let b = seq![0x08u8] + varint_bytes(wire_nat) + rest;
    assert(b[0] == 0x08);
    assert(b.skip(1) =~= varint_bytes(wire as nat) + rest);
    lemma_parse_varint(wire, rest);
    let n = varint_bytes(wire as nat).len() as int;
    assert(b.len() == 1 + n + rest.len());
    assert(b.skip(1 + n) =~= rest);
    assert(code_from_wire(wire) == code) by {
        if code >= 0 {
            assert((wire as int) % 0x1_0000_0000 == code);
        } else {
            assert(wire as int == 0x1_0000_0000_0000_0000 + code);
            assert((wire as int) % 0x1_0000_0000 == 0x1_0000_0000 + code) by {
                vstd::arithmetic::div_mod::lemma_mod_sub_multiples_vanish(
                    0x1_0000_0000 + code,
                    0x1_0000_0000,
                );
                vstd::arithmetic::div_mod::lemma_small_mod(
                    (0x1_0000_0000 + code) as nat,
                    0x1_0000_0000,
                );
                assert(wire as int == (0x1_0000_0000 + code) + 0xFFFF_FFFF * 0x1_0000_0000);
            }
        }
    }
}

/// A status field parses onto the accumulator: the message field sets
/// the message and hands the rest on.
proof fn lemma_parse_message_field(chars: Seq<char>, rest: Seq<u8>, acc: StatusModel)
    requires
        encode_utf8(chars).len() < two_to_64(),
    ensures
        parse_status_fields(len_prefixed(0x12, encode_utf8(chars)) + rest, acc)
            == parse_status_fields(rest, StatusModel { message: Some(chars), ..acc }),
{
    broadcast use vstd::utf8::encode_utf8_valid_utf8, vstd::utf8::encode_utf8_decode_utf8;

    let payload = encode_utf8(chars);
    let b = len_prefixed(0x12, payload) + rest;
    assert(b[0] == 0x12);
    lemma_parse_len_delimited(0x12, payload, rest);
    let n = varint_bytes(payload.len() as nat).len() as int;
    assert(b.skip(1 + n + payload.len() as int) =~= rest);
}

/// A status field parses onto the accumulator: a detail-record field
/// appends the record and hands the rest on.
proof fn lemma_parse_detail_field(d: AnyModel, rest: Seq<u8>, acc: StatusModel)
    requires
        any_fits(d),
        any_bytes(d).len() < two_to_64(),
    ensures
        parse_status_fields(len_prefixed(0x1A, any_bytes(d)) + rest, acc) == parse_status_fields(
            rest,
            StatusModel { details: acc.details.push(d), ..acc },
        ),
{
    let payload = any_bytes(d);
    let b = len_prefixed(0x1A, payload) + rest;
    assert(b[0] == 0x1A);
    lemma_parse_len_delimited(0x1A, payload, rest);
    lemma_parse_any_round_trip(d);
    let n = varint_bytes(payload.len() as nat).len() as int;
    assert(b.skip(1 + n + payload.len() as int) =~= rest);
}

/// The wire bytes of a sequence of detail records parse back to exactly
/// those records, appended in order.
proof fn lemma_parse_details(ds: Seq<AnyModel>, acc: StatusModel)
    requires
        forall|i: int| 0 <= i < ds.len() ==> #[trigger] any_fits(ds[i]) && any_bytes(ds[i]).len()
            < two_to_64(),
    ensures
        parse_status_fields(details_bytes(ds), acc) == Some(
            StatusModel { details: acc.details + ds, ..acc },
        ),
    decreases ds.len(),
{
    if ds.len() == 0 {
        assert(acc.details + ds =~= acc.details);
        assert(StatusModel { details: acc.details + ds, ..acc } == acc);
    } else {
        let first = ds.first();
        let tail = ds.drop_first();
        lemma_parse_detail_field(first, details_bytes(tail), acc);
        let acc2 = StatusModel { details: acc.details.push(first), ..acc };
        assert(forall|i: int| 0 <= i < tail.len() ==> #[trigger] any_fits(tail[i]) && any_bytes(
            tail[i],
        ).len() < two_to_64()) by {
            assert(forall|i: int| 0 <= i < tail.len() ==> tail[i] == ds[i + 1]);
        }
        lemma_parse_details(tail, acc2);
        assert(acc.details.push(first) + tail =~= acc.details + ds);
    }
}

/// Law: the wire encoding round-trips. Any status model that fits the
/// wire limits parses back, from its own encoding, to exactly itself.
pub proof fn lemma_model_round_trip(m: StatusModel)
    requires
        model_fits(m),
    ensures
        parse_status(model_bytes(m)) == Some(m),
{
    let acc0 = StatusModel { code: 0, message: None, details: Seq::<AnyModel>::empty() };
    let code_part: Seq<u8> = if m.code == 0 {
        Seq::<u8>::empty()
    } else {
        seq![0x08u8] + varint_bytes(code_wire_value(m.code))
    };
    let message_part: Seq<u8> = match m.message {
        Some(chars) => len_prefixed(0x12, encode_utf8(chars)),
        None => Seq::<u8>::empty(),
    };
    let details_part = details_bytes(m.details);
    assert(model_bytes(m) =~= code_part + (message_part + details_part));
    let acc1 = StatusModel { code: m.code, ..acc0 };
    if m.code == 0 {
        assert(code_part + (message_part + details_part) =~= message_part + details_part);
        assert(acc1 == acc0);
    } else {
        lemma_parse_code_field(m.code, message_part + details_part, acc0);
        assert(code_part + (message_part + details_part) =~= seq![0x08u8] + varint_bytes(
            code_wire_value(m.code),
        ) + (message_part + details_part));
    }
    let acc2 = StatusModel { message: m.message, ..acc1 };
    match m.message {
        Some(chars) => {
            lemma_parse_message_field(chars, details_part, acc1);
        },
        None => {
            assert(message_part + details_part =~= details_part);
            assert(acc2 == acc1);
        },
    }
    lemma_parse_details(m.details, acc2);
    assert(acc2.details + m.details =~= m.details);
    assert(StatusModel { details: acc2.details + m.details, ..acc2 } == m);
}

/// Law: encoding a status value and parsing the bytes back yields
/// exactly the value's model. The side condition asks only that the
/// value fits the wire limits, which every value held in memory does.
pub proof fn lemma_status_round_trip(s: UStatus)
    requires
        model_fits(status_model(s)),
    ensures
        parse_status(status_bytes(s)) == Some(status_model(s)),
{
    lemma_model_round_trip(status_model(s));
}

/// Decodes a status object from its wire bytes. The result is exactly
/// the model that [`parse_status`] assigns to the bytes; byte sequences
/// to which it assigns none are rejected.
pub fn decode_status(b: &[u8]) -> (r: Option<UStatus>)
    ensures
        match r {
            Some(st) => parse_status(b@) == Some(status_model(st)),
            None => parse_status(b@) is None,
        },
{
    let start = UStatus { code: 0, message: None, details: Vec::new() };
    proof {
        assert(b@.skip(0) =~= b@);
        assert(status_model(start).details =~= Seq::<AnyModel>::empty());
        assert(status_model(start) == StatusModel {
            code: 0,
            message: None,
            details: Seq::<AnyModel>::empty(),
        });
    }
    decode_status_fields(b, 0, start)
}

} // verus!
