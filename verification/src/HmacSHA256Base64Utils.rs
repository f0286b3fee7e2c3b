//! HMAC-based request signing and query-string assembly for REST venues.
//!
//! The keyed digests, hashes and base64 codecs are supplied by outside
//! crates behind trusted wrappers; everything that assembles their inputs
//! and outputs is verified here.

use vstd::prelude::*;
use vstd::string::*;

use base64::Engine;
use hmac::Mac;
use sha2::Digest;

verus! {

/// Marker type grouping the signing utilities of this module.
pub struct HmacSHA256Base64Utils {}

// ---------------------------------------------------------------------------
// Names for the outside digests and codecs.
// ---------------------------------------------------------------------------

/// The HMAC-SHA-256 digest of a message under a key: 32 bytes, a function of
/// the key bytes and the message text alone.
pub uninterp spec fn hmac_sha256_of(key: Seq<u8>, msg: Seq<char>) -> Seq<u8>;

/// The HMAC-SHA-384 digest: 48 bytes, a function of key and message alone.
pub uninterp spec fn hmac_sha384_of(key: Seq<u8>, msg: Seq<char>) -> Seq<u8>;

/// The HMAC-SHA-512 digest: 64 bytes, a function of key and message alone.
pub uninterp spec fn hmac_sha512_of(key: Seq<u8>, msg: Seq<char>) -> Seq<u8>;

/// The SHA-512 digest of a text: 64 bytes, a function of the text alone.
pub uninterp spec fn sha512_of(msg: Seq<char>) -> Seq<u8>;

/// Standard-alphabet, padded base64 encoding of a byte sequence.
pub uninterp spec fn base64_std_of(bytes: Seq<u8>) -> Seq<char>;

/// Standard-alphabet, padded base64 decoding: `None` exactly on text that is
/// not valid base64.
pub uninterp spec fn base64_std_decode_of(text: Seq<char>) -> Option<Seq<u8>>;

/// The uppercase form of a text: a function of its characters alone.
pub uninterp spec fn upper_of(text: Seq<char>) -> Seq<char>;

// ---------------------------------------------------------------------------
// Trusted wrappers around the outside crates.
// ---------------------------------------------------------------------------

/// Relies on hmac::Hmac<sha2::Sha256>: `new_from_slice` accepts a key of any
/// length, and the finalized digest is 32 bytes determined by key and message.
#[verifier::external_body]
fn hmac_sha256_sign(key: &[u8], msg: &str) -> (r: Vec<u8>)
    ensures
        r@ == hmac_sha256_of(key@, msg@),
        r@.len() == 32,
{
    let mut mac = hmac::Hmac::<sha2::Sha256>::new_from_slice(key)
        .expect("HMAC can take key of any size");
    mac.update(msg.as_bytes());
    mac.finalize().into_bytes().to_vec()
}

/// Relies on hmac::Hmac<sha2::Sha384>: any key length; 48-byte digest
/// determined by key and message.
#[verifier::external_body]
fn hmac_sha384_sign(key: &[u8], msg: &str) -> (r: Vec<u8>)
    ensures
        r@ == hmac_sha384_of(key@, msg@),
        r@.len() == 48,
{
    let mut mac = hmac::Hmac::<sha2::Sha384>::new_from_slice(key)
        .expect("HMAC can take key of any size");
    mac.update(msg.as_bytes());
    mac.finalize().into_bytes().to_vec()
}

/// Relies on hmac::Hmac<sha2::Sha512>: any key length; 64-byte digest
/// determined by key and message.
#[verifier::external_body]
fn hmac_sha512_sign(key: &[u8], msg: &str) -> (r: Vec<u8>)
    ensures
        r@ == hmac_sha512_of(key@, msg@),
        r@.len() == 64,
{
    let mut mac = hmac::Hmac::<sha2::Sha512>::new_from_slice(key)
        .expect("HMAC can take key of any size");
    mac.update(msg.as_bytes());
    mac.finalize().into_bytes().to_vec()
}

/// Relies on sha2::Sha512: 64-byte digest determined by the input alone.
#[verifier::external_body]
fn sha512_digest(msg: &str) -> (r: Vec<u8>)
    ensures
        r@ == sha512_of(msg@),
        r@.len() == 64,
{
    let mut hasher = sha2::Sha512::new();
    hasher.update(msg.as_bytes());
    hasher.finalize().to_vec()
}

/// Relies on hex::encode: each byte becomes two lowercase hex digits, high
/// nibble first.
#[verifier::external_body]
fn hex_encode(data: &[u8]) -> (r: String)
    ensures
        r@ == hex_of(data@),
{
    hex::encode(data)
}

/// Relies on base64's STANDARD engine: padded encoding over the standard
/// alphabet, four output characters for every three input bytes; the same
/// engine's decoder accepts the canonical padding it emits and returns
/// exactly the input bytes.
#[verifier::external_body]
fn base64_encode(data: &[u8]) -> (r: String)
    ensures
        r@ == base64_std_of(data@),
        r@.len() == 4 * ((data@.len() + 2) / 3),
        base64_std_decode_of(r@) == Some::<Seq<u8>>(data@),
{
    base64::engine::general_purpose::STANDARD.encode(data)
}

/// Relies on base64's STANDARD engine: decoding returns the decoded bytes,
/// or an error exactly on text that is not valid padded base64.
#[verifier::external_body]
fn base64_decode(text: &str) -> (r: Option<Vec<u8>>)
    ensures
        r is Some <==> base64_std_decode_of(text@) is Some,
        r matches Some(v) ==> base64_std_decode_of(text@) == Some::<Seq<u8>>(v@),
{
    base64::engine::general_purpose::STANDARD.decode(text).ok()
}

/// Relies on str::to_uppercase: the result depends on the characters alone.
#[verifier::external_body]
fn to_uppercase_owned(s: &str) -> (r: String)
    ensures
        r@ == upper_of(s@),
{
    s.to_uppercase()
}

/// Relies on String::pop: removes and returns the last character, `None` on
/// an empty string.
#[verifier::external_body]
fn string_pop(s: &mut String) -> (r: Option<char>)
    ensures
        old(s)@.len() == 0 ==> final(s)@ == old(s)@ && r is None,
        old(s)@.len() > 0 ==> final(s)@ == old(s)@.drop_last() && r == Some(old(s)@.last()),
{
    s.pop()
}

// ---------------------------------------------------------------------------
// Hex encoding, stated in full.
// ---------------------------------------------------------------------------

/// The lowercase hex digit for a nibble.
pub open spec fn hex_char(n: u8) -> char {
    if n == 0 {
        '0'
    } else if n == 1 {
        '1'
    } else if n == 2 {
        '2'
    } else if n == 3 {
        '3'
    } else if n == 4 {
        '4'
    } else if n == 5 {
        '5'
    } else if n == 6 {
        '6'
    } else if n == 7 {
        '7'
    } else if n == 8 {
        '8'
    } else if n == 9 {
        '9'
    } else if n == 10 {
        'a'
    } else if n == 11 {
        'b'
    } else if n == 12 {
        'c'
    } else if n == 13 {
        'd'
    } else if n == 14 {
        'e'
    } else {
        'f'
    }
}

/// Lowercase hex encoding of a byte sequence: two digits per byte, high
/// nibble first.
pub open spec fn hex_of(bytes: Seq<u8>) -> Seq<char>
    decreases bytes.len(),
{
    if bytes.len() == 0 {
        Seq::empty()
    } else {
        seq![hex_char(bytes[0] / 16), hex_char(bytes[0] % 16)] + hex_of(bytes.drop_first())
    }
}

/// Hex encoding yields two digits per byte.
pub proof fn lemma_hex_of_len(bytes: Seq<u8>)
    ensures
        hex_of(bytes).len() == 2 * bytes.len(),
    decreases bytes.len(),
{
    if bytes.len() > 0 {
        lemma_hex_of_len(bytes.drop_first());
    }
}

// ---------------------------------------------------------------------------
// Signatures over secrets and parameter strings.
// ---------------------------------------------------------------------------

/// Hex form of the HMAC-SHA-256 of `param_string` under the bytes of
/// `secret`: 64 hex digits.
pub fn hex_hmac_sha256(secret: &str, param_string: &str) -> (r: String)
    ensures
        r@ == hex_of(hmac_sha256_of(secret.spec_bytes(), param_string@)),
        r@.len() == 64,
{
    let digest = hmac_sha256_sign(secret.as_bytes(), param_string);
    proof {
        lemma_hex_of_len(digest@);
    }
    hex_encode(digest.as_slice())
}

/// Base64 form of the HMAC-SHA-256 of `param_string` under the bytes of
/// `secret`: 44 characters.
pub fn hex_hmac_sha256_base64(secret: &str, param_string: &str) -> (r: String)
    ensures
        r@ == base64_std_of(hmac_sha256_of(secret.spec_bytes(), param_string@)),
        r@.len() == 44,
        base64_std_decode_of(r@) == Some::<Seq<u8>>(
            hmac_sha256_of(secret.spec_bytes(), param_string@),
        ),
{
    let digest = hmac_sha256_sign(secret.as_bytes(), param_string);
    base64_encode(digest.as_slice())
}

/// Hex form of the HMAC-SHA-384 of `param_string` under the bytes of
/// `secret`: 96 hex digits.
pub fn hex_hmac_sha384(secret: &str, param_string: &str) -> (r: String)
    ensures
        r@ == hex_of(hmac_sha384_of(secret.spec_bytes(), param_string@)),
        r@.len() == 96,
{
    let digest = hmac_sha384_sign(secret.as_bytes(), param_string);
    proof {
        lemma_hex_of_len(digest@);
    }
    hex_encode(digest.as_slice())
}

/// Hex form of the HMAC-SHA-512 of `param_string` under the bytes of
/// `secret`: 128 hex digits.
pub fn hex_hmac_sha512(secret: &str, param_string: &str) -> (r: String)
    ensures
        r@ == hex_of(hmac_sha512_of(secret.spec_bytes(), param_string@)),
        r@.len() == 128,
{
    let digest = hmac_sha512_sign(secret.as_bytes(), param_string);
    proof {
        lemma_hex_of_len(digest@);
    }
    hex_encode(digest.as_slice())
}

/// Hex form of the SHA-512 digest of `data`: 128 hex digits.
pub fn hex_sha512(data: &str) -> (r: String)
    ensures
        r@ == hex_of(sha512_of(data@)),
        r@.len() == 128,
{
    let digest = sha512_digest(data);
    proof {
        lemma_hex_of_len(digest@);
    }
    hex_encode(digest.as_slice())
}

/// The text that `sign` and `sign_cb` feed to the keyed digest: timestamp,
/// uppercased method, path, then the query string behind `?` when present,
/// then the body when present.
pub open spec fn pre_hash_of(
    time: Seq<char>,
    method: Seq<char>,
    path: Seq<char>,
    query_string: Seq<char>,
    body: Seq<char>,
) -> Seq<char> {
    time + upper_of(method) + path + (if query_string.len() == 0 {
        Seq::<char>::empty()
    } else {
        "?"@ + query_string
    }) + body
}

fn build_pre_hash(time: &str, method: &str, path: &str, query_string: &str, body: &str) -> (r: String)
    ensures
        r@ == pre_hash_of(time@, method@, path@, query_string@, body@),
{
    let mut pre_hash = String::new();
    pre_hash.append(time);
    let upper_method = to_uppercase_owned(method);
    pre_hash.append(upper_method.as_str());
    pre_hash.append(path);
    if !query_string.is_empty() {
        pre_hash.append("?");
        pre_hash.append(query_string);
    }
    if !body.is_empty() {
        pre_hash.append(body);
    }
    proof {
        assert(pre_hash@ =~= pre_hash_of(time@, method@, path@, query_string@, body@));
    }
    pre_hash
}

/// Base64 HMAC-SHA-256 signature of a request under a plain-text secret:
/// 44 characters.
pub fn sign(
    time: &str,
    method: &str,
    path: &str,
    query_string: &str,
    body: &str,
    secret: &str,
) -> (r: String)
    ensures
        r@ == base64_std_of(
            hmac_sha256_of(
                secret.spec_bytes(),
                pre_hash_of(time@, method@, path@, query_string@, body@),
            ),
        ),
        r@.len() == 44,
        base64_std_decode_of(r@) == Some::<Seq<u8>>(
            hmac_sha256_of(
                secret.spec_bytes(),
                pre_hash_of(time@, method@, path@, query_string@, body@),
            ),
        ),
{
    let pre_hash = build_pre_hash(time, method, path, query_string, body);
    let digest = hmac_sha256_sign(secret.as_bytes(), pre_hash.as_str());
    base64_encode(digest.as_slice())
}

/// Base64 HMAC-SHA-256 signature of a request under a base64-encoded
/// secret: 44 characters.
///
/// The secret must itself be valid base64; `sign_cb_checked` performs that
/// test for callers that cannot establish it.
pub fn sign_cb(
    time: &str,
    method: &str,
    path: &str,
    query_string: &str,
    body: &str,
    secret: &str,
) -> (r: String)
    requires
        base64_std_decode_of(secret@) is Some,
    ensures
        r@ == base64_std_of(
            hmac_sha256_of(
                base64_std_decode_of(secret@)->Some_0,
                pre_hash_of(time@, method@, path@, query_string@, body@),
            ),
        ),
        r@.len() == 44,
        base64_std_decode_of(r@) == Some::<Seq<u8>>(
            hmac_sha256_of(
                base64_std_decode_of(secret@)->Some_0,
                pre_hash_of(time@, method@, path@, query_string@, body@),
            ),
        ),
{
    let pre_hash = build_pre_hash(time, method, path, query_string, body);
    match base64_decode(secret) {
        Some(key) => {
            let digest = hmac_sha256_sign(key.as_slice(), pre_hash.as_str());
            base64_encode(digest.as_slice())
        },
        None => vstd::pervasive::unreached(),
    }
}

/// `sign_cb` for a secret not yet known to be valid base64: `None` exactly
/// when the secret fails to decode.
pub fn sign_cb_checked(
    time: &str,
    method: &str,
    path: &str,
    query_string: &str,
    body: &str,
    secret: &str,
) -> (r: Option<String>)
    ensures
        r is Some <==> base64_std_decode_of(secret@) is Some,
        r matches Some(sig) ==> sig@ == base64_std_of(
            hmac_sha256_of(
                base64_std_decode_of(secret@)->Some_0,
                pre_hash_of(time@, method@, path@, query_string@, body@),
            ),
        ) && sig@.len() == 44 && base64_std_decode_of(sig@) == Some::<Seq<u8>>(
            hmac_sha256_of(
                base64_std_decode_of(secret@)->Some_0,
                pre_hash_of(time@, method@, path@, query_string@, body@),
            ),
        ),
{
    match base64_decode(secret) {
        Some(_) => Some(sign_cb(time, method, path, query_string, body, secret)),
        None => None,
    }
}

// ---------------------------------------------------------------------------
// Query-string assembly.
// ---------------------------------------------------------------------------

/// The views of a list of key/value pairs.
pub open spec fn pair_views(pairs: Seq<(String, String)>) -> Seq<(Seq<char>, Seq<char>)> {
    pairs.map_values(|p: (String, String)| (p.0@, p.1@))
}

/// `&key=value` for every pair, in order.
pub open spec fn amp_query_of(pairs: Seq<(Seq<char>, Seq<char>)>) -> Seq<char>
    decreases pairs.len(),
{
    if pairs.len() == 0 {
        Seq::empty()
    } else {
        "&"@ + pairs[0].0 + "="@ + pairs[0].1 + amp_query_of(pairs.drop_first())
    }
}

/// `key=value&` for every pair, in order.
pub open spec fn kv_amp_query_of(pairs: Seq<(Seq<char>, Seq<char>)>) -> Seq<char>
    decreases pairs.len(),
{
    if pairs.len() == 0 {
        Seq::empty()
    } else {
        pairs[0].0 + "="@ + pairs[0].1 + "&"@ + kv_amp_query_of(pairs.drop_first())
    }
}

proof fn lemma_amp_query_of_snoc(pairs: Seq<(Seq<char>, Seq<char>)>, p: (Seq<char>, Seq<char>))
    ensures
        amp_query_of(pairs.push(p)) =~= amp_query_of(pairs) + "&"@ + p.0 + "="@ + p.1,
    decreases pairs.len(),
{
    if pairs.len() == 0 {
        assert(pairs.push(p).drop_first() =~= pairs);
    } else {
        assert(pairs.push(p).drop_first() =~= pairs.drop_first().push(p));
        lemma_amp_query_of_snoc(pairs.drop_first(), p);
    }
}

proof fn lemma_kv_amp_query_of_snoc(pairs: Seq<(Seq<char>, Seq<char>)>, p: (Seq<char>, Seq<char>))
    ensures
        kv_amp_query_of(pairs.push(p)) =~= kv_amp_query_of(pairs) + p.0 + "="@ + p.1 + "&"@,
    decreases pairs.len(),
{
    if pairs.len() == 0 {
        assert(pairs.push(p).drop_first() =~= pairs);
    } else {
        assert(pairs.push(p).drop_first() =~= pairs.drop_first().push(p));
        lemma_kv_amp_query_of_snoc(pairs.drop_first(), p);
    }
}

/// Appends `&key=value` for every pair to `temp`, in the order given.
///
/// The pair list stands for a map's entries in iteration order: callers are
/// expected to hand over pairs with unique keys, as a map would.
pub fn map_to_query_string(temp: String, map: &Vec<(String, String)>) -> (r: String)
    ensures
        r@ == temp@ + amp_query_of(pair_views(map@)),
{
    let mut out = temp;
    let n = map.len();
    for i in 0..n
        invariant
            n == map@.len(),
            out@ =~= temp@ + amp_query_of(pair_views(map@.take(i as int))),
    {
        out.append("&");
        out.append(map[i].0.as_str());
        out.append("=");
        out.append(map[i].1.as_str());
        proof {
            assert(map@.take(i + 1) =~= map@.take(i as int).push(map@[i as int]));
            assert(pair_views(map@.take(i + 1)) =~= pair_views(map@.take(i as int)).push(
                (map@[i as int].0@, map@[i as int].1@),
            ));
            lemma_amp_query_of_snoc(
                pair_views(map@.take(i as int)),
                (map@[i as int].0@, map@[i as int].1@),
            );
        }
    }
    proof {
        assert(map@.take(n as int) =~= map@);
    }
    out
}

/// `key=value` pairs joined by `&`, with no trailing separator.
///
/// The pair list stands for a map's entries in iteration order: callers are
/// expected to hand over pairs with unique keys, as a map would.
pub fn map_to_query_string_new(map: &Vec<(String, String)>) -> (r: String)
    ensures
        r@ == (if map@.len() == 0 {
            Seq::<char>::empty()
        } else {
            kv_amp_query_of(pair_views(map@)).drop_last()
        }),
{
    let mut temp = String::new();
    let n = map.len();
    for i in 0..n
        invariant
            n == map@.len(),
            temp@ =~= kv_amp_query_of(pair_views(map@.take(i as int))),
    {
        temp.append(map[i].0.as_str());
        temp.append("=");
        temp.append(map[i].1.as_str());
        temp.append("&");
        proof {
            assert(map@.take(i + 1) =~= map@.take(i as int).push(map@[i as int]));
            assert(pair_views(map@.take(i + 1)) =~= pair_views(map@.take(i as int)).push(
                (map@[i as int].0@, map@[i as int].1@),
            ));
            lemma_kv_amp_query_of_snoc(
                pair_views(map@.take(i as int)),
                (map@[i as int].0@, map@[i as int].1@),
            );
        }
    }
    proof {
        assert(map@.take(n as int) =~= map@);
        if map@.len() > 0 {
            lemma_kv_amp_query_of_last_sep(pair_views(map@));
        }
    }
    let _ = string_pop(&mut temp);
    temp
}

proof fn lemma_kv_amp_query_of_last_sep(pairs: Seq<(Seq<char>, Seq<char>)>)
    requires
        pairs.len() > 0,
    ensures
        kv_amp_query_of(pairs).len() > 0,
    decreases pairs.len(),
{
    if pairs.drop_first().len() > 0 {
        lemma_kv_amp_query_of_last_sep(pairs.drop_first());
    } else {
        reveal_strlit("&");
        reveal_strlit("=");
    }
}

/// Query string with `timestamp` first and `recvWindow` second, as some
/// venues require, followed by `&key=value` for every pair.
///
/// The pair list stands for a map's entries in iteration order: callers are
/// expected to hand over pairs with unique keys, as a map would.
#[allow(non_snake_case)]
pub fn map_to_query_string_bian(
    map: &Vec<(String, String)>,
    recvWindow: &str,
    timestamp: &str,
) -> (r: String)
    ensures
        r@ == "timestamp="@ + timestamp@ + "&recvWindow="@ + recvWindow@ + amp_query_of(
            pair_views(map@),
        ),
{
    let mut temp = String::new();
    temp.append("timestamp=");
    temp.append(timestamp);
    temp.append("&recvWindow=");
    temp.append(recvWindow);
    let r = map_to_query_string(temp, map);
    proof {
        assert(r@ =~= "timestamp="@ + timestamp@ + "&recvWindow="@ + recvWindow@ + amp_query_of(
            pair_views(map@),
        ));
    }
    r
}

/// Appends `key=value&` for every pair to `temp`, then removes the final
/// character; on an empty pair list this shortens `temp` itself by one.
///
/// The pair list stands for an ordered map's entries: callers are expected
/// to hand over pairs with unique keys in ascending key order, as an
/// ordered map's iteration would, since this venue requires the sorted
/// form; the pairs are emitted exactly in the order given.
pub fn map_to_query_string_huobi(temp: &mut String, map: &Vec<(String, String)>)
    ensures
        final(temp)@ == (if (old(temp)@ + kv_amp_query_of(pair_views(map@))).len() == 0 {
            Seq::<char>::empty()
        } else {
            (old(temp)@ + kv_amp_query_of(pair_views(map@))).drop_last()
        }),
{
    let n = map.len();
    for i in 0..n
        invariant
            n == map@.len(),
            temp@ =~= old(temp)@ + kv_amp_query_of(pair_views(map@.take(i as int))),
    {
        temp.append(map[i].0.as_str());
        temp.append("=");
        temp.append(map[i].1.as_str());
        temp.append("&");
        proof {
            assert(map@.take(i + 1) =~= map@.take(i as int).push(map@[i as int]));
            assert(pair_views(map@.take(i + 1)) =~= pair_views(map@.take(i as int)).push(
                (map@[i as int].0@, map@[i as int].1@),
            ));
            lemma_kv_amp_query_of_snoc(
                pair_views(map@.take(i as int)),
                (map@[i as int].0@, map@[i as int].1@),
            );
        }
    }
    proof {
        assert(map@.take(n as int) =~= map@);
    }
    let _ = string_pop(temp);
}

} // verus!
