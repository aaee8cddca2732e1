//! Sealing of settings values for the encrypted local store.
//!
//! A sealed value is `hex(nonce) ++ ":" ++ hex(ciphertext)`: a fresh random
//! 12-byte nonce and the AES-256-GCM ciphertext of the plaintext under the
//! store's 32-byte key, both lowercase hex. The key is supplied by the
//! caller — it is deliberately not baked into this crate.

use vstd::prelude::*;

use rand::RngCore;

verus! {

/// AES-256 key width in bytes.
pub const KEY_LEN: usize = 32;

/// AES-GCM nonce width in bytes.
pub const NONCE_LEN: usize = 12;

/// Longest plaintext AES-GCM can seal (2^36 bytes).
pub const SEAL_MAX_LEN: u64 = 68719476736;

/// Why sealing or opening a value failed.
#[derive(Clone, Copy, PartialEq, Eq, Structural, Debug)]
pub enum CryptoError {
    /// Not exactly one `:` separator.
    Format,
    /// A part of the sealed value is not valid hex.
    MalformedHex,
    /// The decoded nonce is not `NONCE_LEN` bytes.
    BadNonce,
    /// Authentication failed: wrong key, or the value was altered.
    AuthFailed,
    /// The OS random source yielded no nonce.
    RngUnavailable,
    /// The plaintext exceeds `SEAL_MAX_LEN`.
    TooLong,
}

/// The lowercase hex digit of a nibble.
pub open spec fn hex_digit(n: int) -> char {
    if n == 0 {
        '0'
    } else if n == 1 {
        '1'
    } else if n == 2 {
        '2'
    } else if n == 3 {
        '3'
    } else if n == 4 {
        '4'
    } else if n == 5 {
        '5'
    } else if n == 6 {
        '6'
    } else if n == 7 {
        '7'
    } else if n == 8 {
        '8'
    } else if n == 9 {
        '9'
    } else if n == 10 {
        'a'
    } else if n == 11 {
        'b'
    } else if n == 12 {
        'c'
    } else if n == 13 {
        'd'
    } else if n == 14 {
        'e'
    } else {
        'f'
    }
}

/// The nibble a hex character denotes, either case, or -1.
pub open spec fn hex_val(c: char) -> int {
    if c == '0' {
        0
    } else if c == '1' {
        1
    } else if c == '2' {
        2
    } else if c == '3' {
        3
    } else if c == '4' {
        4
    } else if c == '5' {
        5
    } else if c == '6' {
        6
    } else if c == '7' {
        7
    } else if c == '8' {
        8
    } else if c == '9' {
        9
    } else if c == 'a' || c == 'A' {
        10
    } else if c == 'b' || c == 'B' {
        11
    } else if c == 'c' || c == 'C' {
        12
    } else if c == 'd' || c == 'D' {
        13
    } else if c == 'e' || c == 'E' {
        14
    } else if c == 'f' || c == 'F' {
        15
    } else {
        -1
    }
}

/// Lowercase hex of a byte sequence: two digits per byte, high nibble
/// first.
pub open spec fn hex_of(b: Seq<u8>) -> Seq<char>
    decreases b.len(),
{
    if b.len() == 0 {
        Seq::empty()
    } else {
        seq![hex_digit(b[0] as int / 16), hex_digit(b[0] as int % 16)] + hex_of(b.drop_first())
    }
}

/// Parse hex, either case: `None` on odd length or any non-hex character.
pub open spec fn hex_parse(s: Seq<char>) -> Option<Seq<u8>>
    decreases s.len(),
{
    if s.len() == 0 {
        Some(Seq::empty())
    } else if s.len() == 1 {
        None
    } else {
        let hi = hex_val(s[0]);
        let lo = hex_val(s[1]);
        if hi < 0 || lo < 0 {
            None
        } else {
            match hex_parse(s.skip(2)) {
                Some(rest) => Some(seq![(16 * hi + lo) as u8] + rest),
                None => None,
            }
        }
    }
}

/// Occurrences of `c` in `s`.
pub open spec fn count_char(s: Seq<char>, c: char) -> int
    decreases s.len(),
{
    if s.len() == 0 {
        0
    } else {
        (if s[0] == c {
            1int
        } else {
            0int
        }) + count_char(s.drop_first(), c)
    }
}

/// Index of the first occurrence of `c` in `s` (the length if absent).
pub open spec fn find_char(s: Seq<char>, c: char) -> int
    decreases s.len(),
{
    if s.len() == 0 {
        0
    } else if s[0] == c {
        0
    } else {
        1 + find_char(s.drop_first(), c)
    }
}

/// What AES-256-GCM sealing returns: a function of key, nonce and
/// plaintext alone.
pub uninterp spec fn aead_seal(key: Seq<u8>, nonce: Seq<u8>, plain: Seq<u8>) -> Seq<u8>;

/// What AES-256-GCM opening returns: a function of key, nonce and
/// ciphertext alone; `None` when authentication fails.
pub uninterp spec fn aead_open(key: Seq<u8>, nonce: Seq<u8>, cipher: Seq<u8>) -> Option<Seq<u8>>;

/// The exact outcome of opening a sealed value with a key.
pub open spec fn open_spec(key: Seq<u8>, s: Seq<char>) -> Result<Seq<u8>, CryptoError> {
    if count_char(s, ':') != 1 {
        Err(CryptoError::Format)
    } else {
        let i = find_char(s, ':');
        let nonce_hex = s.take(i);
        let cipher_hex = s.skip(i + 1);
        if hex_parse(nonce_hex) is None || hex_parse(cipher_hex) is None {
            Err(CryptoError::MalformedHex)
        } else {
            let nonce = hex_parse(nonce_hex).unwrap();
            let cipher = hex_parse(cipher_hex).unwrap();
            if nonce.len() != NONCE_LEN {
                Err(CryptoError::BadNonce)
            } else {
                match aead_open(key, nonce, cipher) {
                    Some(p) => Ok(p),
                    None => Err(CryptoError::AuthFailed),
                }
            }
        }
    }
}

/// Relies on rand::rngs::OsRng through rand::RngCore::try_fill_bytes: fills
/// the buffer from the operating system's random source. Nothing is
/// promised of the bytes themselves.
#[verifier::external_body]
fn os_random_nonce() -> (r: Option<Vec<u8>>)
    ensures
        r matches Some(v) ==> v@.len() == NONCE_LEN,
{
    let mut bytes = [0u8; 12];
    match rand::rngs::OsRng.try_fill_bytes(&mut bytes) {
        Ok(()) => Some(bytes.to_vec()),
        Err(_) => None,
    }
}

/// Relies on hex::encode: two lowercase digits per byte, high nibble
/// first.
#[verifier::external_body]
fn hex_encode(b: &[u8]) -> (r: String)
    ensures
        r@ == hex_of(b@),
{
    hex::encode(b)
}

/// Relies on hex::decode: accepts upper and lower case digits, rejects an
/// odd length and any non-hex character.
#[verifier::external_body]
fn hex_decode(s: &str) -> (r: Option<Vec<u8>>)
    ensures
        r is Some <==> hex_parse(s@) is Some,
        r matches Some(b) ==> Some(b@) == hex_parse(s@),
{
    match hex::decode(s) {
        Ok(b) => Some(b),
        Err(_) => None,
    }
}

/// Relies on aes_gcm::Aes256Gcm through aes_gcm::aead::Aead::encrypt:
/// AES-256-GCM with a postfix 16-byte tag, a function of key, nonce and
/// plaintext alone, failing exactly beyond the plaintext bound, and
/// inverted by Aead::decrypt under the same key and nonce.
#[allow(deprecated)]
#[verifier::external_body]
fn aes_seal(key: &[u8], nonce: &[u8], plain: &[u8]) -> (r: Option<Vec<u8>>)
    requires
        key@.len() == KEY_LEN,
        nonce@.len() == NONCE_LEN,
    ensures
        r is Some <==> plain@.len() <= SEAL_MAX_LEN,
        r matches Some(c) ==> c@ == aead_seal(key@, nonce@, plain@),
        r matches Some(c) ==> aead_open(key@, nonce@, c@) == Some(plain@),
{
    let cipher = match <aes_gcm::Aes256Gcm as aes_gcm::aead::NewAead>::new_from_slice(key) {
        Ok(c) => c,
        Err(_) => return None,
    };
    match aes_gcm::aead::Aead::encrypt(&cipher, aes_gcm::Nonce::from_slice(nonce), plain) {
        Ok(c) => Some(c),
        Err(_) => None,
    }
}

/// Relies on aes_gcm::Aes256Gcm through aes_gcm::aead::Aead::decrypt:
/// authenticated opening, a function of key, nonce and ciphertext alone;
/// it fails exactly when authentication does.
#[allow(deprecated)]
#[verifier::external_body]
fn aes_open(key: &[u8], nonce: &[u8], cipher_text: &[u8]) -> (r: Option<Vec<u8>>)
    requires
        key@.len() == KEY_LEN,
        nonce@.len() == NONCE_LEN,
    ensures
        r is Some <==> aead_open(key@, nonce@, cipher_text@) is Some,
        r matches Some(p) ==> Some(p@) == aead_open(key@, nonce@, cipher_text@),
{
    let cipher = match <aes_gcm::Aes256Gcm as aes_gcm::aead::NewAead>::new_from_slice(key) {
        Ok(c) => c,
        Err(_) => return None,
    };
    match aes_gcm::aead::Aead::decrypt(&cipher, aes_gcm::Nonce::from_slice(nonce), cipher_text) {
        Ok(p) => Some(p),
        Err(_) => None,
    }
}

proof fn lemma_hex_of_len(b: Seq<u8>)
    ensures
        hex_of(b).len() == 2 * b.len(),
    decreases b.len(),
{
    if b.len() > 0 {
        lemma_hex_of_len(b.drop_first());
    }
}

proof fn lemma_hex_no_colon(b: Seq<u8>)
    ensures
        forall|k: int| 0 <= k < hex_of(b).len() ==> #[trigger] hex_of(b)[k] != ':',
    decreases b.len(),
{
    if b.len() > 0 {
        lemma_hex_no_colon(b.drop_first());
        let s = hex_of(b);
        let rest = hex_of(b.drop_first());
        assert forall|k: int| 0 <= k < s.len() implies s[k] != ':' by {
            if k == 0 {
                assert(s[0] == hex_digit(b[0] as int / 16));
            } else if k == 1 {
                assert(s[1] == hex_digit(b[0] as int % 16));
            } else {
                assert(s[k] == rest[k - 2]);
            }
        }
    }
}

proof fn lemma_hex_roundtrip(b: Seq<u8>)
    ensures
        hex_parse(hex_of(b)) == Some(b),
    decreases b.len(),
{
    if b.len() == 0 {
        assert(b =~= Seq::<u8>::empty());
    } else {
        lemma_hex_roundtrip(b.drop_first());
        lemma_hex_of_len(b.drop_first());
        let s = hex_of(b);
        let pair = seq![hex_digit(b[0] as int / 16), hex_digit(b[0] as int % 16)];
        assert(s =~= pair + hex_of(b.drop_first()));
        assert(s.skip(2) =~= hex_of(b.drop_first()));
        assert(hex_val(s[0]) == b[0] as int / 16);
        assert(hex_val(s[1]) == b[0] as int % 16);
        assert(16 * (b[0] as int / 16) + b[0] as int % 16 == b[0] as int);
        assert(seq![(16 * (b[0] as int / 16) + b[0] as int % 16) as u8] + b.drop_first() =~= b);
    }
}

proof fn lemma_count_push(s: Seq<char>, c: char, x: char)
    ensures
        count_char(s.push(x), c) == count_char(s, c) + (if x == c {
            1int
        } else {
            0int
        }),
    decreases s.len(),
{
    if s.len() == 0 {
        assert(s.push(x).drop_first() =~= s);
    } else {
        assert(s.push(x).drop_first() =~= s.drop_first().push(x));
        lemma_count_push(s.drop_first(), c, x);
    }
}

proof fn lemma_count_concat(a: Seq<char>, b: Seq<char>, c: char)
    ensures
        count_char(a + b, c) == count_char(a, c) + count_char(b, c),
    decreases a.len(),
{
    if a.len() == 0 {
        assert(a + b =~= b);
    } else {
        assert((a + b).drop_first() =~= a.drop_first() + b);
        lemma_count_concat(a.drop_first(), b, c);
        assert((a + b)[0] == a[0]);
    }
}

proof fn lemma_count_zero(s: Seq<char>, c: char)
    requires
        forall|k: int| 0 <= k < s.len() ==> #[trigger] s[k] != c,
    ensures
        count_char(s, c) == 0,
    decreases s.len(),
{
    if s.len() > 0 {
        assert(forall|k: int|
            0 <= k < s.drop_first().len() ==> #[trigger] s.drop_first()[k] == s[k + 1]);
        lemma_count_zero(s.drop_first(), c);
    }
}

proof fn lemma_find_char_at(s: Seq<char>, c: char, i: int)
    requires
        0 <= i < s.len(),
        s[i] == c,
        forall|k: int| 0 <= k < i ==> #[trigger] s[k] != c,
    ensures
        find_char(s, c) == i,
    decreases i,
{
    if i > 0 {
        assert(forall|k: int|
            0 <= k < i - 1 ==> #[trigger] s.drop_first()[k] == s[k + 1]);
        lemma_find_char_at(s.drop_first(), c, i - 1);
    }
}

/// Seal one settings value under the store's key: a fresh random nonce,
/// the AES-256-GCM ciphertext, both as hex around one `:`. Whatever comes
/// out opens back to exactly the plaintext under the same key.
pub fn encrypt_value(key: &[u8], plain: &[u8]) -> (r: Result<String, CryptoError>)
    requires
        key@.len() == KEY_LEN,
    ensures
        r matches Ok(s) ==> open_spec(key@, s@) == Ok::<Seq<u8>, CryptoError>(plain@),
        r matches Err(e) ==> e == CryptoError::RngUnavailable || e == CryptoError::TooLong,
        r == Err::<String, CryptoError>(CryptoError::TooLong) ==> plain@.len() > SEAL_MAX_LEN,
        plain@.len() > SEAL_MAX_LEN ==> r is Err,
{
    let nonce = match os_random_nonce() {
        Some(v) => v,
        None => {
            return Err(CryptoError::RngUnavailable);
        },
    };
    let cipher_text = match aes_seal(key, nonce.as_slice(), plain) {
        Some(v) => v,
        None => {
            return Err(CryptoError::TooLong);
        },
    };
    let mut out = hex_encode(nonce.as_slice());
    let cipher_hex = hex_encode(cipher_text.as_slice());
    out.append(":");
    out.append(cipher_hex.as_str());
    proof {
        reveal_strlit(":");
        let s = out@;
        let nh = hex_of(nonce@);
        let ch = hex_of(cipher_text@);
        assert(":"@ =~= seq![':']);
        assert(s =~= nh + seq![':'] + ch);
        lemma_hex_of_len(nonce@);
        lemma_hex_no_colon(nonce@);
        lemma_hex_no_colon(cipher_text@);
        lemma_count_zero(nh, ':');
        lemma_count_zero(ch, ':');
        lemma_count_concat(nh + seq![':'], ch, ':');
        lemma_count_concat(nh, seq![':'], ':');
        assert(seq![':'].drop_first() =~= Seq::<char>::empty());
        assert(count_char(Seq::<char>::empty(), ':') == 0);
        assert(count_char(seq![':'], ':') == 1);
        assert(count_char(s, ':') == 1);
        assert(s[nh.len() as int] == ':');
        assert(forall|k: int| 0 <= k < nh.len() ==> #[trigger] s[k] != ':');
        lemma_find_char_at(s, ':', nh.len() as int);
        assert(s.take(nh.len() as int) =~= nh);
        assert(s.skip(nh.len() as int + 1) =~= ch);
        lemma_hex_roundtrip(nonce@);
        lemma_hex_roundtrip(cipher_text@);
    }
    Ok(out)
}

/// Open one sealed settings value with the store's key: split at the `:`,
/// decode both hex parts, and authenticate-decrypt. Each malformed input
/// yields its exact error; nothing panics.
pub fn decrypt_value(key: &[u8], sealed: &str) -> (r: Result<Vec<u8>, CryptoError>)
    requires
        key@.len() == KEY_LEN,
    ensures
        r is Ok <==> open_spec(key@, sealed@) is Ok,
        r matches Ok(v) ==> open_spec(key@, sealed@) == Ok::<Seq<u8>, CryptoError>(v@),
        r matches Err(e) ==> open_spec(key@, sealed@) == Err::<Seq<u8>, CryptoError>(e),
{
    let n = sealed.unicode_len();
    let mut colons: usize = 0;
    let mut first: usize = n;
    let mut j: usize = 0;
    while j < n
        invariant
            n == sealed@.len(),
            j <= n,
            colons <= j,
            colons as int == count_char(sealed@.take(j as int), ':'),
            colons > 0 ==> first < j && sealed@[first as int] == ':' && (forall|k: int|
                0 <= k < first ==> #[trigger] sealed@[k] != ':'),
            colons == 0 ==> first == n && (forall|k: int|
                0 <= k < j ==> #[trigger] sealed@[k] != ':'),
        decreases n - j,
    {
        let c = sealed.get_char(j);
        proof {
            assert(sealed@.take(j as int + 1) =~= sealed@.take(j as int).push(sealed@[j as int]));
            lemma_count_push(sealed@.take(j as int), ':', sealed@[j as int]);
        }
        if c == ':' {
            if colons == 0 {
                first = j;
            }
            colons = colons + 1;
        }
        j = j + 1;
    }
    proof {
        assert(sealed@.take(n as int) =~= sealed@);
    }
    if colons != 1 {
        return Err(CryptoError::Format);
    }
    proof {
        lemma_find_char_at(sealed@, ':', first as int);
    }
    let nonce_hex = sealed.substring_char(0, first);
    let cipher_hex = sealed.substring_char(first + 1, n);
    proof {
        assert(nonce_hex@ =~= sealed@.take(first as int));
        assert(cipher_hex@ =~= sealed@.skip(first as int + 1));
    }
    let nonce = match hex_decode(nonce_hex) {
        Some(v) => v,
        None => {
            return Err(CryptoError::MalformedHex);
        },
    };
    let cipher_text = match hex_decode(cipher_hex) {
        Some(v) => v,
        None => {
            return Err(CryptoError::MalformedHex);
        },
    };
    if nonce.len() != NONCE_LEN {
        return Err(CryptoError::BadNonce);
    }
    match aes_open(key, nonce.as_slice(), cipher_text.as_slice()) {
        Some(p) => Ok(p),
        None => Err(CryptoError::AuthFailed),
    }
}

} // verus!
