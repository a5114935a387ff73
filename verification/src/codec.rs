use vstd::prelude::*;

verus! {

/// Largest payload length the envelope format can carry: the length field is a
/// canonical ULEB128 value that must stay below `2^31`.
pub const MAX_PAYLOAD_LEN: usize = 0x7fff_ffff;

/// Canonical ULEB128 encoding of `n`: base-128 digits, least significant
/// first, each non-final byte carrying a continuation bit.
pub open spec fn spec_uleb128(n: nat) -> Seq<u8>
    decreases n,
{
    if n < 128 {
        seq![n as u8]
    } else {
        seq![(128 + (n % 128)) as u8] + spec_uleb128(n / 128)
    }
}

/// Parses a canonical ULEB128 value from the front of `b`, returning the value
/// and the number of bytes consumed. Rejects truncated input and
/// non-canonical encodings (a multi-byte encoding whose last digit is zero).
pub open spec fn spec_uleb128_parse(b: Seq<u8>) -> Option<(nat, nat)>
    decreases b.len(),
{
    if b.len() == 0 {
        None
    } else if b[0] < 128 {
        Some(((b[0] as nat), 1 as nat))
    } else {
        match spec_uleb128_parse(b.skip(1)) {
            None => None,
            Some((v, k)) => if v == 0 {
                None
            } else {
                Some((((b[0] - 128) as nat + 128 * v) as nat, (k + 1) as nat))
            },
        }
    }
}

/// The typed envelope on the wire: the service identifier as eight
/// little-endian bytes, the payload length as canonical ULEB128, then the
/// payload itself.
pub open spec fn spec_encode_envelope(service_id: u64, payload: Seq<u8>) -> Seq<u8> {
    vstd::bytes::spec_u64_to_le_bytes(service_id) + spec_uleb128(payload.len()) + payload
}

/// Strict decoding of a chunk as a typed envelope: the whole chunk must be
/// consumed exactly, and the length field must be canonical and below `2^31`;
/// anything else is rejected.
pub open spec fn spec_decode_envelope(b: Seq<u8>) -> Option<(u64, Seq<u8>)> {
    if b.len() < 8 {
        None
    } else {
        let id = vstd::bytes::spec_u64_from_le_bytes(b.subrange(0, 8));
        match spec_uleb128_parse(b.skip(8)) {
            None => None,
            Some((len, k)) => if len > MAX_PAYLOAD_LEN {
                None
            } else if b.len() == 8 + k + len {
                Some((id, b.subrange(8 + k as int, b.len() as int)))
            } else {
                None
            },
        }
    }
}

/// A ULEB128 encoding parses back to the value it encodes, whatever bytes
/// follow it.
proof fn lemma_uleb128_parse_encode(n: nat, rest: Seq<u8>)
    ensures
        spec_uleb128_parse(spec_uleb128(n) + rest) == Some((n, spec_uleb128(n).len())),
    decreases n,
{
    let b = spec_uleb128(n) + rest;
    if n < 128 {
        assert(b[0] == n as u8);
    } else {
        assert(b[0] == (128 + (n % 128)) as u8);
        assert(b.skip(1) =~= spec_uleb128(n / 128) + rest);
        lemma_uleb128_parse_encode(n / 128, rest);
        assert(n / 128 > 0);
        assert((b[0] - 128) as nat + 128 * (n / 128) == n);
    }
}

/// Round trip of the envelope codec: a payload that fits the format, once
/// encoded for a service identifier, decodes back to exactly that identifier
/// and payload.
pub proof fn lemma_envelope_round_trip(service_id: u64, payload: Seq<u8>)
    requires
        payload.len() <= MAX_PAYLOAD_LEN,
    ensures
        spec_decode_envelope(spec_encode_envelope(service_id, payload)) == Some(
            (service_id, payload),
        ),
{
    vstd::bytes::lemma_auto_spec_u64_to_from_le_bytes();
    let idb = vstd::bytes::spec_u64_to_le_bytes(service_id);
    let ul = spec_uleb128(payload.len());
    let b = spec_encode_envelope(service_id, payload);
    assert(idb.len() == 8);
    assert(b.subrange(0, 8) =~= idb);
    assert(b.skip(8) =~= ul + payload);
    lemma_uleb128_parse_encode(payload.len(), payload);
    assert(b.len() == 8 + ul.len() + payload.len());
    assert(b.subrange(8 + ul.len() as int, b.len() as int) =~= payload);
}

/// Appends the canonical ULEB128 encoding of `n` to `out`.
fn uleb128_encode(n: u32, out: &mut Vec<u8>)
    ensures
        final(out)@ == old(out)@ + spec_uleb128(n as nat),
    decreases n,
{
    if n < 128 {
        out.push(n as u8);
        assert(out@ =~= old(out)@ + spec_uleb128(n as nat));
    } else {
        let ghost mid = out@;
        let digit: u32 = 128 + n % 128;
        out.push(digit as u8);
        uleb128_encode(n / 128, out);
        assert(out@ =~= old(out)@ + spec_uleb128(n as nat));
    }
}

/// Encodes a typed envelope addressed to `service_id` carrying `payload`.
pub fn encode_envelope(service_id: u64, payload: &[u8]) -> (r: Vec<u8>)
    requires
        payload@.len() <= MAX_PAYLOAD_LEN,
    ensures
        r@ == spec_encode_envelope(service_id, payload@),
{
    let mut out = vstd::bytes::u64_to_le_bytes(service_id);
    uleb128_encode(payload.len() as u32, &mut out);
    let mut i: usize = 0;
    while i < payload.len()
        invariant
            i <= payload@.len(),
            out@ == vstd::bytes::spec_u64_to_le_bytes(service_id) + spec_uleb128(
                payload@.len(),
            ) + payload@.subrange(0, i as int),
        decreases payload@.len() - i,
    {
        out.push(payload[i]);
        i = i + 1;
        assert(out@ =~= vstd::bytes::spec_u64_to_le_bytes(service_id) + spec_uleb128(
            payload@.len(),
        ) + payload@.subrange(0, i as int));
    }
    assert(payload@.subrange(0, payload@.len() as int) =~= payload@);
    out
}

/// Parses a canonical ULEB128 value from `b` starting at `pos`, rejecting
/// values that do not fit the envelope's length field.
fn uleb128_parse(b: &[u8], pos: usize) -> (r: Option<(u32, usize)>)
    requires
        pos <= b@.len(),
    ensures
        match r {
            Some(vk) => spec_uleb128_parse(b@.skip(pos as int)) == Some(
                (vk.0 as nat, vk.1 as nat),
            ) && vk.0 <= MAX_PAYLOAD_LEN && vk.1 <= b@.len() - pos,
            None => match spec_uleb128_parse(b@.skip(pos as int)) {
                None => true,
                Some(vk) => vk.0 > MAX_PAYLOAD_LEN,
            },
        },
    decreases b@.len() - pos,
{
    if pos == b.len() {
        return None;
    }
    let byte = b[pos];
    if byte < 128 {
        assert(b@.skip(pos as int)[0] == byte);
        Some((byte as u32, 1))
    } else {
        assert(b@.skip(pos as int)[0] == byte);
        assert(b@.skip(pos as int).skip(1) =~= b@.skip(pos as int + 1));
        match uleb128_parse(b, pos + 1) {
            None => None,
            Some((v, k)) => {
                if v == 0 {
                    None
                } else {
                    let value: u64 = (byte - 128) as u64 + 128 * (v as u64);
                    if value > MAX_PAYLOAD_LEN as u64 {
                        None
                    } else {
                        Some((value as u32, k + 1))
                    }
                }
            },
        }
    }
}

/// Decodes a chunk as a typed envelope; returns the service identifier and
/// payload exactly when the chunk is a well-formed envelope, and `None` for
/// any malformed chunk.
pub fn decode_envelope(chunk: &[u8]) -> (r: Option<(u64, Vec<u8>)>)
    ensures
        match r {
            Some(m) => spec_decode_envelope(chunk@) == Some((m.0, m.1@)),
            None => spec_decode_envelope(chunk@) is None,
        },
{
    if chunk.len() < 8 {
        return None;
    }
    let idb = vstd::slice::slice_subrange(chunk, 0, 8);
    let id = vstd::bytes::u64_from_le_bytes(idb);
    match uleb128_parse(chunk, 8) {
        None => None,
        Some((len, k)) => {
            let start = 8 + k;
            if chunk.len() - start == len as usize {
                let payload = vstd::slice::slice_to_vec(
                    vstd::slice::slice_subrange(chunk, start, chunk.len()),
                );
                Some((id, payload))
            } else {
                None
            }
        },
    }
}

} // verus!
