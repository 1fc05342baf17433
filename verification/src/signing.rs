//! Signed text: HMAC-SHA256 signatures over short messages, carried as
//! unpadded URL-safe base64 in the form `message.signature`.
use vstd::prelude::*;
use base64ct::Encoding;

verus! {

broadcast use vstd::array::group_array_axioms;

/// Largest input (in bytes) that HMAC-SHA256 accepts, plus one.
pub const HMAC_INPUT_LIMIT: u64 = 0x2000_0000_0000_0000;

/// HMAC-SHA256 of `data` under the key `key`.
pub uninterp spec fn hmac_sha256(key: Seq<u8>, data: Seq<u8>) -> [u8; 32];

/// The unpadded URL-safe base64 text of `data`.
pub uninterp spec fn base64url_text(data: Seq<u8>) -> Seq<char>;

/// The bytes encoded by `text` as `Base64UrlUnpadded::decode` reads them,
/// or `None` where `text` is not a valid unpadded URL-safe encoding.
pub uninterp spec fn base64url_bytes(text: Seq<char>) -> Option<Seq<u8>>;

/// The bytes encoded by `text` as `Base64UrlUnpadded::decode_vec` reads
/// them, or `None` where `text` is not a valid unpadded URL-safe encoding.
pub uninterp spec fn base64url_bytes_vec(text: Seq<char>) -> Option<Seq<u8>>;

/// Whether `c` belongs to the URL-safe base64 alphabet
/// (`A-Z`, `a-z`, `0-9`, `-`, `_`).
pub open spec fn is_base64url_char(c: char) -> bool {
    let v = c as u32;
    (65 <= v <= 90) || (97 <= v <= 122) || (48 <= v <= 57) || v == 45 || v == 95
}

#[verifier::external_type_specification]
#[verifier::external_body]
pub struct ExBase64Error(base64ct::Error);

/// `Base64UrlUnpadded::encode_string`: the text of `data`, made of URL-safe
/// base64 characters only, which the crate's two decoders read back as
/// `data`. The crate panics on inputs longer than `usize::MAX / 4`.
#[verifier::external_body]
fn base64url_encode(data: &[u8]) -> (r: String)
    requires
        data@.len() <= usize::MAX / 4,
    ensures
        r@ == base64url_text(data@),
        base64url_bytes(r@) == Some(data@),
        base64url_bytes_vec(r@) == Some(data@),
        forall|i: int| 0 <= i < r@.len() ==> is_base64url_char(#[trigger] r@[i]),
{
    base64ct::Base64UrlUnpadded::encode_string(data)
}

/// `Base64UrlUnpadded::decode` into `dst`: succeeds when `text` is a valid
/// encoding whose bytes fit in `dst`, writing them at the start of `dst`
/// and leaving the rest of `dst` as it was. What `dst` holds after a
/// failure is not stated.
#[verifier::external_body]
fn base64url_decode_into(text: &str, dst: &mut Vec<u8>) -> (r: Result<usize, base64ct::Error>)
    ensures
        final(dst)@.len() == old(dst)@.len(),
        r is Ok <==> (base64url_bytes(text@) is Some && base64url_bytes(text@)->0.len()
            <= old(dst)@.len()),
        r is Ok ==> ({
            let b = base64url_bytes(text@)->0;
            &&& r->Ok_0 == b.len()
            &&& final(dst)@ == b + old(dst)@.subrange(b.len() as int, old(dst)@.len() as int)
        }),
{
    match base64ct::Base64UrlUnpadded::decode(text, dst.as_mut_slice()) {
        Ok(decoded) => Ok(decoded.len()),
        Err(e) => Err(e),
    }
}

/// `Base64UrlUnpadded::decode_vec`: the bytes of `text`, or an error where
/// `text` is not a valid encoding. It decodes into a buffer of the decoded
/// length with `decode`, so it gives what `decode` gives.
#[verifier::external_body]
fn base64url_decode_vec(text: &str) -> (r: Result<Vec<u8>, base64ct::Error>)
    ensures
        r is Ok <==> base64url_bytes_vec(text@) is Some,
        r is Ok ==> r->Ok_0@ == base64url_bytes_vec(text@)->0,
        r is Ok <==> base64url_bytes(text@) is Some,
        r is Ok ==> r->Ok_0@ == base64url_bytes(text@)->0,
{
    base64ct::Base64UrlUnpadded::decode_vec(text)
}

/// `ring::hmac::sign` with an HMAC-SHA256 key made from `key`
/// (`ring::hmac::Key::new`): the 32 byte tag of `data`. Both ring
/// functions panic only on inputs beyond the SHA-256 length limit.
#[verifier::external_body]
fn hmac_sign(key: &[u8], data: &[u8]) -> (r: [u8; 32])
    requires
        key@.len() < HMAC_INPUT_LIMIT,
        data@.len() < HMAC_INPUT_LIMIT,
    ensures
        r == hmac_sha256(key@, data@),
{
    let key = ring::hmac::Key::new(ring::hmac::HMAC_SHA256, key);
    let tag = ring::hmac::sign(&key, data);
    let mut out = [0u8; 32];
    out.copy_from_slice(tag.as_ref());
    out
}

/// `ring::hmac::verify` with an HMAC-SHA256 key made from `key`: whether
/// `tag` equals the tag of `data` (compared in constant time).
#[verifier::external_body]
fn hmac_verify(key: &[u8], data: &[u8], tag: &[u8]) -> (r: bool)
    requires
        key@.len() < HMAC_INPUT_LIMIT,
        data@.len() < HMAC_INPUT_LIMIT,
    ensures
        r == (tag@ == hmac_sha256(key@, data@)@),
{
    let key = ring::hmac::Key::new(ring::hmac::HMAC_SHA256, key);
    ring::hmac::verify(&key, data, tag).is_ok()
}

/// 64 random bytes from `rand::random`. Nothing is stated of their value.
#[verifier::external_body]
fn random_key_bytes() -> (r: [u8; 64]) {
    rand::random::<[u8; 64]>()
}

/// Key used to sign and check tokens.
pub struct SigningKey {
    secret: Vec<u8>,
}

impl View for SigningKey {
    type V = Seq<u8>;

    closed spec fn view(&self) -> Seq<u8> {
        self.secret@
    }
}

impl SigningKey {
    #[verifier::type_invariant]
    spec fn inv(self) -> bool {
        self.secret@.len() < HMAC_INPUT_LIMIT
    }

    /// A key with the secret `bytes`.
    pub fn new(bytes: &[u8]) -> (r: SigningKey)
        requires
            bytes@.len() < HMAC_INPUT_LIMIT,
        ensures
            r@ == bytes@,
    {
        let mut secret: Vec<u8> = Vec::new();
        crate::packet::extend_bytes(&mut secret, bytes);
        SigningKey { secret }
    }

    /// A key with a fresh random 64 byte secret, returned beside it.
    pub fn generate() -> (r: (SigningKey, [u8; 64]))
        ensures
            r.0@ == r.1@,
    {
        let bytes = random_key_bytes();
        let key = SigningKey::new(bytes.as_slice());
        (key, bytes)
    }

    /// The HMAC-SHA256 tag of `data` under this key.
    pub fn sign(&self, data: &[u8]) -> (r: [u8; 32])
        requires
            data@.len() < HMAC_INPUT_LIMIT,
        ensures
            r == hmac_sha256(self@, data@),
    {
        proof {
            use_type_invariant(self);
        }
        hmac_sign(self.secret.as_slice(), data)
    }

    /// Whether `tag` is the tag of `data` under this key.
    pub fn verify(&self, data: &[u8], tag: &[u8]) -> (r: bool)
        requires
            data@.len() < HMAC_INPUT_LIMIT,
        ensures
            r == (tag@ == hmac_sha256(self@, data@)@),
    {
        proof {
            use_type_invariant(self);
        }
        hmac_verify(self.secret.as_slice(), data, tag)
    }
}

/// Big-endian bytes of a 32 bit value.
pub open spec fn be32(v: u32) -> Seq<u8> {
    seq![(v >> 24u32) as u8, (v >> 16u32) as u8, (v >> 8u32) as u8, v as u8]
}

/// The 32 bit value of the first four big-endian bytes of `s`.
pub open spec fn read_be32(s: Seq<u8>) -> u32 {
    ((s[0] as u32) << 24u32) | ((s[1] as u32) << 16u32) | ((s[2] as u32) << 8u32) | (s[3] as u32)
}

/// Big-endian bytes of a 64 bit value.
pub open spec fn be64(v: u64) -> Seq<u8> {
    be32((v >> 32u64) as u32) + be32(v as u32)
}

/// The 64 bit value of the first eight big-endian bytes of `s`.
pub open spec fn read_be64(s: Seq<u8>) -> u64 {
    ((read_be32(s) as u64) << 32u64) | (read_be32(s.subrange(4, 8)) as u64)
}

/// The 128 bit value of the first sixteen big-endian bytes of `s`.
pub open spec fn read_be128(s: Seq<u8>) -> u128 {
    ((read_be64(s.subrange(0, 8)) as u128) << 64u128) | (read_be64(s.subrange(8, 16)) as u128)
}

/// Reading back the bytes of a 32 bit value gives the value.
pub proof fn lemma_be32_roundtrip(v: u32)
    ensures
        read_be32(be32(v)) == v,
{
    let b0 = (v >> 24u32) as u8;
    let b1 = (v >> 16u32) as u8;
    let b2 = (v >> 8u32) as u8;
    let b3 = v as u8;
    assert(((b0 as u32) << 24u32) | ((b1 as u32) << 16u32) | ((b2 as u32) << 8u32) | (b3 as u32)
        == v) by (bit_vector)
        requires
            b0 == (v >> 24u32) as u8,
            b1 == (v >> 16u32) as u8,
            b2 == (v >> 8u32) as u8,
            b3 == v as u8,
    ;
}

/// Reading back the bytes of a 64 bit value gives the value.
pub proof fn lemma_be64_roundtrip(v: u64)
    ensures
        read_be64(be64(v)) == v,
{
    let hi = (v >> 32u64) as u32;
    let lo = v as u32;
    lemma_be32_roundtrip(hi);
    lemma_be32_roundtrip(lo);
    assert(be64(v).subrange(4, 8) =~= be32(lo));
    assert(be64(v).subrange(0, 4) =~= be32(hi));
    assert(read_be32(be64(v)) == read_be32(be32(hi)));
    assert(((hi as u64) << 32u64) | (lo as u64) == v) by (bit_vector)
        requires
            hi == (v >> 32u64) as u32,
            lo == v as u32,
    ;
}

/// Appends the big-endian bytes of `v`.
pub fn push_be32(dst: &mut Vec<u8>, v: u32)
    ensures
        final(dst)@ == old(dst)@ + be32(v),
{
    dst.push((v >> 24u32) as u8);
    dst.push((v >> 16u32) as u8);
    dst.push((v >> 8u32) as u8);
    dst.push(v as u8);
    assert(final(dst)@ =~= old(dst)@ + be32(v));
}

/// Appends the big-endian bytes of `v`.
pub fn push_be64(dst: &mut Vec<u8>, v: u64)
    ensures
        final(dst)@ == old(dst)@ + be64(v),
{
    push_be32(dst, (v >> 32u64) as u32);
    push_be32(dst, v as u32);
    assert(final(dst)@ =~= old(dst)@ + be64(v));
}

/// Reads the big-endian 32 bit value at `at`.
pub fn get_be32(src: &[u8], at: usize) -> (r: u32)
    requires
        at + 4 <= src@.len(),
    ensures
        r == read_be32(src@.subrange(at as int, at + 4)),
{
    ((src[at] as u32) << 24u32) | ((src[at + 1] as u32) << 16u32) | ((src[at + 2] as u32) << 8u32)
        | (src[at + 3] as u32)
}

/// Reads the big-endian 64 bit value at `at`.
pub fn get_be64(src: &[u8], at: usize) -> (r: u64)
    requires
        at + 8 <= src@.len(),
    ensures
        r == read_be64(src@.subrange(at as int, at + 8)),
{
    let len = src.len();
    let hi = get_be32(src, at);
    let lo = get_be32(src, at + 4);
    assert(src@.subrange(at as int, at + 8).subrange(0, 4) =~= src@.subrange(at as int, at + 4));
    assert(src@.subrange(at as int, at + 8).subrange(4, 8) =~= src@.subrange(at + 4, at + 8));
    ((hi as u64) << 32u64) | (lo as u64)
}

/// Whether `text` is `parts.0`, the separator `sep`, then `parts.1`, with
/// no `sep` in `parts.0`.
pub open spec fn splits_at_first(text: Seq<char>, sep: char, parts: (Seq<char>, Seq<char>)) -> bool {
    text == parts.0 + seq![sep] + parts.1 && !parts.0.contains(sep)
}

/// Splits `text` at its first `sep`: the text before it and the text after
/// it, or `None` where `text` has no `sep`.
pub open spec fn split_first(text: Seq<char>, sep: char) -> Option<(Seq<char>, Seq<char>)> {
    if text.contains(sep) {
        Some(choose|p: (Seq<char>, Seq<char>)| splits_at_first(text, sep, p))
    } else {
        None
    }
}

/// Splits `text` at its first `.`.
pub open spec fn dot_split(text: Seq<char>) -> Option<(Seq<char>, Seq<char>)> {
    split_first(text, '.')
}

/// A text made of a head without `sep`, `sep` and a tail splits into that
/// head and tail.
pub proof fn lemma_split_first(head: Seq<char>, sep: char, tail: Seq<char>)
    requires
        !head.contains(sep),
    ensures
        split_first(head + seq![sep] + tail, sep) == Some((head, tail)),
{
    let text = head + seq![sep] + tail;
    assert(text[head.len() as int] == sep);
    assert(text.contains(sep));
    assert(splits_at_first(text, sep, (head, tail)));
    let p = split_first(text, sep)->0;
    assert(splits_at_first(text, sep, p));
    if p.0.len() < head.len() {
        assert(text[p.0.len() as int] == sep);
        assert(head[p.0.len() as int] == text[p.0.len() as int]);
        assert(head.contains(sep));
    }
    if head.len() < p.0.len() {
        assert(p.0[head.len() as int] == text[head.len() as int]);
        assert(p.0.contains(sep));
    }
    assert(p.0 =~= text.subrange(0, head.len() as int));
    assert(head =~= text.subrange(0, head.len() as int));
    assert(p.1 =~= text.subrange(head.len() as int + 1, text.len() as int));
    assert(tail =~= text.subrange(head.len() as int + 1, text.len() as int));
    assert(p == (head, tail));
}

/// Splits `text` at its first `sep`: the text before it and the text
/// after it, or `None` where the text holds no `sep`.
pub(crate) fn split_once_char(text: &str, sep: char) -> (r: Option<(&str, &str)>)
    ensures
        match r {
            None => !text@.contains(sep),
            Some(parts) => text@ == parts.0@ + seq![sep] + parts.1@ && !parts.0@.contains(sep),
        },
{
    let n = text.unicode_len();
    let mut i: usize = 0;
    while i < n
        invariant
            n == text@.len(),
            0 <= i <= n,
            forall|k: int| 0 <= k < i ==> text@[k] != sep,
        decreases n - i,
    {
        if text.get_char(i) == sep {
            let head = text.substring_char(0, i);
            let tail = text.substring_char(i + 1, n);
            proof {
                assert(text@ =~= head@ + seq![sep] + tail@);
                if head@.contains(sep) {
                    let k = choose|k: int| 0 <= k < head@.len() && head@[k] == sep;
                    assert(text@[k] == sep);
                }
            }
            return Some((head, tail));
        }
        i = i + 1;
    }
    proof {
        if text@.contains(sep) {
            let k = choose|k: int| 0 <= k < text@.len() && text@[k] == sep;
            assert(text@[k] != sep);
        }
    }
    None
}

/// The text after decoding `text` into a buffer of `n` zero bytes: the
/// decoded bytes followed by the zeros they did not overwrite.
pub open spec fn decode_padded(text: Seq<char>, n: nat) -> Option<Seq<u8>> {
    match base64url_bytes(text) {
        Some(b) => if b.len() <= n {
            Some(b + Seq::new((n - b.len()) as nat, |i: int| 0u8))
        } else {
            None
        },
        None => None,
    }
}

/// The `n` byte message of a signed text under `key`: the text splits at
/// its first `.` into two base64 parts, the first decodes into `n` bytes,
/// the second into 32 bytes, and those are the HMAC-SHA256 tag of the
/// message. `None` when any of these fails.
pub open spec fn signed_message(key: Seq<u8>, text: Seq<char>, n: nat) -> Option<Seq<u8>> {
    match dot_split(text) {
        None => None,
        Some(parts) => match decode_padded(parts.0, n) {
            None => None,
            Some(msg) => match decode_padded(parts.1, 32) {
                None => None,
                Some(sig) => if sig == hmac_sha256(key, msg)@ {
                    Some(msg)
                } else {
                    None
                },
            },
        },
    }
}

/// Like `signed_message`, but the signature part decodes to exactly the
/// tag's bytes (no zero padding).
pub open spec fn signed_message_exact(key: Seq<u8>, text: Seq<char>, n: nat) -> Option<Seq<u8>> {
    match dot_split(text) {
        None => None,
        Some(parts) => match decode_padded(parts.0, n) {
            None => None,
            Some(msg) => match base64url_bytes_vec(parts.1) {
                None => None,
                Some(sig) => if sig == hmac_sha256(key, msg)@ {
                    Some(msg)
                } else {
                    None
                },
            },
        },
    }
}

/// The signed text of `msg` under `key`: its base64 text, a `.`, and the
/// base64 text of its HMAC-SHA256 tag.
pub open spec fn signed_text(key: Seq<u8>, msg: Seq<u8>) -> Seq<char> {
    base64url_text(msg) + seq!['.'] + base64url_text(hmac_sha256(key, msg)@)
}

/// `n` zero bytes.
fn zero_bytes(n: usize) -> (r: Vec<u8>)
    ensures
        r@ == Seq::new(n as nat, |i: int| 0u8),
{
    let mut r: Vec<u8> = Vec::new();
    while r.len() < n
        invariant
            r@.len() <= n,
            forall|i: int| 0 <= i < r@.len() ==> r@[i] == 0u8,
        decreases n - r@.len(),
    {
        r.push(0u8);
    }
    assert(r@ =~= Seq::new(n as nat, |i: int| 0u8));
    r
}

/// Decodes `text` into a buffer of `n` zero bytes.
fn decode_into_zeros(text: &str, n: usize) -> (r: Option<Vec<u8>>)
    ensures
        match r {
            Some(buf) => decode_padded(text@, n as nat) == Some(buf@),
            None => decode_padded(text@, n as nat) is None,
        },
{
    let mut buf = zero_bytes(n);
    let ghost zeros = buf@;
    match base64url_decode_into(text, &mut buf) {
        Ok(_) => {
            let ghost b = base64url_bytes(text@)->0;
            assert(zeros.subrange(b.len() as int, n as int) =~= Seq::new(
                (n - b.len()) as nat,
                |i: int| 0u8,
            ));
            Some(buf)
        },
        Err(_) => None,
    }
}

/// No character of a base64 text is a `.`.
proof fn lemma_no_dot(text: Seq<char>)
    requires
        forall|i: int| 0 <= i < text.len() ==> is_base64url_char(#[trigger] text[i]),
    ensures
        !text.contains('.'),
{
    if text.contains('.') {
        let i = choose|i: int| 0 <= i < text.len() && text[i] == '.';
        assert(is_base64url_char(text[i]));
    }
}

/// Signs `msg` with `key`, giving its signed text, from which
/// `read_signed` reads `msg` back.
pub fn sign_message(key: &SigningKey, msg: &[u8]) -> (r: String)
    requires
        msg@.len() <= 0x1000_0000,
    ensures
        r@ == signed_text(key@, msg@),
        signed_message(key@, r@, msg@.len()) == Some(msg@),
        signed_message_exact(key@, r@, msg@.len()) == Some(msg@),
{
    let msg_text = base64url_encode(msg);
    let tag = key.sign(msg);
    let tag_text = base64url_encode(tag.as_slice());
    let mut out = msg_text;
    proof {
        reveal_strlit(".");
    }
    out.append(".");
    out.append(tag_text.as_str());
    proof {
        lemma_no_dot(msg_text@);
        lemma_split_first(msg_text@, '.', tag_text@);
        assert(out@ =~= msg_text@ + seq!['.'] + tag_text@);
        assert(msg@ + Seq::new((msg@.len() - msg@.len()) as nat, |i: int| 0u8) =~= msg@);
        assert(tag@ + Seq::new((32 - tag@.len()) as nat, |i: int| 0u8) =~= tag@);
    }
    out
}

/// Reads the `n` byte message signed by `key` in `text`.
pub fn read_signed(key: &SigningKey, text: &str, n: usize) -> (r: Option<Vec<u8>>)
    requires
        n <= 0x1000_0000,
    ensures
        match r {
            Some(msg) => signed_message(key@, text@, n as nat) == Some(msg@),
            None => signed_message(key@, text@, n as nat) is None,
        },
{
    let parts = split_once_char(text, '.');
    match parts {
        None => None,
        Some((head, tail)) => {
            proof {
                lemma_split_first(head@, '.', tail@);
            }
            let msg = match decode_into_zeros(head, n) {
                Some(m) => m,
                None => return None,
            };
            let sig = match decode_into_zeros(tail, 32) {
                Some(s) => s,
                None => return None,
            };
            if key.verify(msg.as_slice(), sig.as_slice()) {
                Some(msg)
            } else {
                None
            }
        },
    }
}

/// Reads the `n` byte message signed by `key` in `text`, where the
/// signature must decode to exactly the tag.
pub fn read_signed_exact(key: &SigningKey, text: &str, n: usize) -> (r: Option<Vec<u8>>)
    requires
        n <= 0x1000_0000,
    ensures
        match r {
            Some(msg) => signed_message_exact(key@, text@, n as nat) == Some(msg@),
            None => signed_message_exact(key@, text@, n as nat) is None,
        },
{
    let parts = split_once_char(text, '.');
    match parts {
        None => None,
        Some((head, tail)) => {
            proof {
                lemma_split_first(head@, '.', tail@);
            }
            let msg = match decode_into_zeros(head, n) {
                Some(m) => m,
                None => return None,
            };
            let sig = match base64url_decode_vec(tail) {
                Ok(s) => s,
                Err(_) => return None,
            };
            if key.verify(msg.as_slice(), sig.as_slice()) {
                Some(msg)
            } else {
                None
            }
        },
    }
}

} // verus!
