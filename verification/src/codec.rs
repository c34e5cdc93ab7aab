use vstd::prelude::*;

use crate::error::PlugError;

verus! {

/// The four big-endian bytes of a 32-bit frame length.
pub open spec fn spec_be_bytes(n: u32) -> Seq<u8> {
    seq![
        ((n / 0x100_0000) % 0x100) as u8,
        ((n / 0x1_0000) % 0x100) as u8,
        ((n / 0x100) % 0x100) as u8,
        (n % 0x100) as u8,
    ]
}

/// The length value carried by the first four bytes of a frame, big-endian.
pub open spec fn spec_be_val(s: Seq<u8>) -> nat
    recommends
        s.len() >= 4,
{
    (s[0] as nat) * 0x100_0000 + (s[1] as nat) * 0x1_0000 + (s[2] as nat) * 0x100 + (s[3] as nat)
}

/// Reading back the four big-endian bytes of a length yields that length.
pub proof fn lemma_be_round_trip(n: u32)
    ensures
        spec_be_val(spec_be_bytes(n)) == n,
{
    assert(((n / 0x100_0000) % 0x100) * 0x100_0000 + ((n / 0x1_0000) % 0x100) * 0x1_0000 + ((n
        / 0x100) % 0x100) * 0x100 + (n % 0x100) == n) by (bit_vector);
}

/// The running-key byte cipher, one output byte at a time: the first
/// plaintext byte is masked with the seed key 171, and every later
/// plaintext byte is masked with the previous ciphertext byte.
pub open spec fn cipher_byte(data: Seq<u8>, i: int) -> u8
    recommends
        0 <= i < data.len(),
    decreases i,
{
    if i <= 0 {
        data[0] ^ 171u8
    } else {
        data[i] ^ cipher_byte(data, i - 1)
    }
}

/// The ciphertext of a whole payload.
pub open spec fn spec_cipher(data: Seq<u8>) -> Seq<u8> {
    Seq::new(data.len(), |i: int| cipher_byte(data, i))
}

/// The inverse transformation: each ciphertext byte is unmasked with the
/// ciphertext byte before it (the seed key 171 for the first one).
pub open spec fn spec_decipher(c: Seq<u8>) -> Seq<u8> {
    Seq::new(c.len(), |i: int| c[i] ^ (if i == 0 { 171u8 } else { c[i - 1] }))
}

/// A whole encoded frame: big-endian length prefix of the plaintext,
/// then the ciphertext.
pub open spec fn spec_encode(data: Seq<u8>) -> Seq<u8>
    recommends
        data.len() <= u32::MAX,
{
    spec_be_bytes(data.len() as u32) + spec_cipher(data)
}

/// What decoding a wire buffer yields: `None` stands for a truncated
/// frame, one whose buffer is shorter than four bytes or shorter than
/// the length its own prefix declares. Bytes past the declared length
/// are ignored.
pub open spec fn spec_decode(w: Seq<u8>) -> Option<Seq<u8>> {
    if w.len() < 4 {
        None
    } else {
        let n = spec_be_val(w.subrange(0, 4));
        if w.len() - 4 < n {
            None
        } else {
            Some(spec_decipher(w.subrange(4, 4 + n as int)))
        }
    }
}

pub fn size_to_bytes(size: u32) -> (r: [u8; 4])
    ensures
        r@ == spec_be_bytes(size),
{
    let b1 = ((size >> 24) & 0xff) as u8;
    let b2 = ((size >> 16) & 0xff) as u8;
    let b3 = ((size >> 8) & 0xff) as u8;
    let b4 = (size & 0xff) as u8;
    proof {
        assert(((size >> 24) & 0xff) as u8 == ((size / 0x100_0000) % 0x100) as u8) by (bit_vector);
        assert(((size >> 16) & 0xff) as u8 == ((size / 0x1_0000) % 0x100) as u8) by (bit_vector);
        assert(((size >> 8) & 0xff) as u8 == ((size / 0x100) % 0x100) as u8) by (bit_vector);
        assert((size & 0xff) as u8 == (size % 0x100) as u8) by (bit_vector);
    }
    let r = [b1, b2, b3, b4];
    proof {
        assert(r@ =~= spec_be_bytes(size));
    }
    r
}

pub fn size_from_bytes(size: &[u8]) -> (r: usize)
    requires
        size@.len() >= 4,
    ensures
        r == spec_be_val(size@),
{
    (size[0] as usize) * 0x100_0000 + (size[1] as usize) * 0x1_0000 + (size[2] as usize) * 0x100
        + (size[3] as usize)
}

/// Encode a payload as one wire frame: the payload's length as a
/// four-byte big-endian prefix, then the payload under the running-key
/// cipher seeded with 171.
pub fn encrypt_payload(data: Vec<u8>) -> (r: Vec<u8>)
    requires
        data@.len() <= u32::MAX,
    ensures
        r@ == spec_encode(data@),
        r@.len() == data@.len() + 4,
        r@.subrange(0, 4) == spec_be_bytes(data@.len() as u32),
{
    let mut v2: Vec<u8> = Vec::new();
    let prefix = size_to_bytes(data.len() as u32);
    v2.push(prefix[0]);
    v2.push(prefix[1]);
    v2.push(prefix[2]);
    v2.push(prefix[3]);
    assert(v2@ =~= spec_be_bytes(data@.len() as u32));
    let mut key: u8 = 171;
    let mut idx: usize = 0;
    while idx < data.len()
        invariant
            idx <= data@.len(),
            data@.len() <= u32::MAX,
            v2@.len() == 4 + idx,
            v2@.subrange(0, 4) =~= spec_be_bytes(data@.len() as u32),
            forall|j: int| 0 <= j < idx ==> v2@[4 + j] == cipher_byte(data@, j),
            key == if idx == 0 { 171u8 } else { cipher_byte(data@, idx - 1) },
        decreases data@.len() - idx,
    {
        let tmp = data[idx] ^ key;
        assert(tmp == cipher_byte(data@, idx as int));
        v2.push(tmp);
        key = tmp;
        idx = idx + 1;
    }
    assert(v2@ =~= spec_encode(data@));
    assert(v2@.subrange(0, 4) =~= spec_be_bytes(data@.len() as u32));
    v2
}

/// Decode one wire frame: read the four-byte big-endian length, then
/// undo the running-key cipher over exactly that many bytes. A buffer
/// shorter than the length its prefix declares is rejected as a
/// truncated frame rather than read out of range.
pub fn decrypt_payload(data: &[u8]) -> (r: Result<Vec<u8>, PlugError>)
    ensures
        match r {
            Ok(p) => spec_decode(data@) == Some(p@),
            Err(e) => spec_decode(data@) is None && e@ == "Truncated frame"@,
        },
{
    if data.len() < 4 {
        return Err(PlugError::new("Truncated frame"));
    }
    let payload_size = size_from_bytes(data);
    assert(data@.subrange(0, 4) =~= data@.subrange(0, 4));
    assert(spec_be_val(data@.subrange(0, 4)) == spec_be_val(data@)) by {
        assert(data@.subrange(0, 4)[0] == data@[0]);
        assert(data@.subrange(0, 4)[1] == data@[1]);
        assert(data@.subrange(0, 4)[2] == data@[2]);
        assert(data@.subrange(0, 4)[3] == data@[3]);
    }
    if data.len() - 4 < payload_size {
        return Err(PlugError::new("Truncated frame"));
    }
    let ghost body = data@.subrange(4, 4 + payload_size as int);
    let mut v2: Vec<u8> = Vec::new();
    let mut key: u8 = 171;
    let mut idx: usize = 0;
    while idx < payload_size
        invariant
            idx <= payload_size,
            payload_size + 4 <= data@.len(),
            data@.len() <= usize::MAX,
            body == data@.subrange(4, 4 + payload_size as int),
            v2@.len() == idx,
            forall|j: int| 0 <= j < idx ==> v2@[j] == spec_decipher(body)[j],
            key == if idx == 0 { 171u8 } else { body[idx - 1] },
        decreases payload_size - idx,
    {
        let tmp = data[4 + idx] ^ key;
        assert(body[idx as int] == data@[4 + idx]);
        v2.push(tmp);
        key = data[4 + idx];
        idx = idx + 1;
    }
    assert(v2@ =~= spec_decipher(body));
    Ok(v2)
}

/// Deciphering inverts enciphering: the cipher applied twice in the two
/// directions gives back every payload, whatever bytes it holds.
pub proof fn lemma_cipher_round_trip(x: Seq<u8>)
    ensures
        spec_decipher(spec_cipher(x)) =~= x,
{
    let c = spec_cipher(x);
    assert forall|i: int| 0 <= i < x.len() implies spec_decipher(c)[i] == x[i] by {
        let k = if i == 0 { 171u8 } else { c[i - 1] };
        let a = x[i];
        assert(cipher_byte(x, i) == a ^ k);
        assert((a ^ k) ^ k == a) by (bit_vector);
    }
}

/// Round trip: decoding an encoded frame yields the original payload,
/// for every payload whose length fits the four-byte prefix.
pub proof fn lemma_codec_round_trip(x: Seq<u8>)
    requires
        x.len() <= u32::MAX,
    ensures
        spec_decode(spec_encode(x)) == Some(x),
{
    let w = spec_encode(x);
    lemma_be_round_trip(x.len() as u32);
    assert(w.subrange(0, 4) =~= spec_be_bytes(x.len() as u32));
    assert(w.subrange(4, 4 + x.len() as int) =~= spec_cipher(x));
    lemma_cipher_round_trip(x);
    assert(spec_decode(w) == Some(spec_decipher(spec_cipher(x))));
    assert(spec_decipher(spec_cipher(x)) == x);
}

/// Framing: an encoded frame is exactly four bytes longer than its
/// payload, and its first four bytes carry the payload length big-endian.
pub proof fn lemma_framing(x: Seq<u8>)
    requires
        x.len() <= u32::MAX,
    ensures
        spec_encode(x).len() == x.len() + 4,
        spec_encode(x).subrange(0, 4) == spec_be_bytes(x.len() as u32),
        spec_be_val(spec_encode(x).subrange(0, 4)) == x.len(),
{
    lemma_be_round_trip(x.len() as u32);
    assert(spec_encode(x).subrange(0, 4) =~= spec_be_bytes(x.len() as u32));
}

/// Determinism: the encoding of a payload depends on its bytes alone.
pub proof fn lemma_encode_deterministic(x: Seq<u8>, y: Seq<u8>)
    requires
        x == y,
    ensures
        spec_encode(x) == spec_encode(y),
{
}

} // verus!
