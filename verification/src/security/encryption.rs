//! Encryption of authentication tokens with AES-256-GCM, and the JSON envelope that
//! carries an encrypted token as Base64 text.
use vstd::prelude::*;
use vstd::string::*;
use vstd::utf8::*;
use aes_gcm::aead::{Aead, KeyInit, OsRng};
use aes_gcm::{Aes256Gcm, Nonce};
use base64::engine::general_purpose;
use base64::Engine as _;
use rand::RngCore;
use serde::ser::{SerializeMap, Serializer};

verus! {

broadcast use {encode_utf8_valid_utf8, encode_utf8_decode_utf8};

/// Largest plaintext, in bytes, that AES-GCM accepts.
pub open spec fn aes_gcm_max_plaintext() -> int {
    0x10_0000_0000
}

/// The ciphertext (with its tag) that AES-256-GCM makes of `plaintext` under `key` and `nonce`.
pub uninterp spec fn aes_gcm_sealed(key: Seq<u8>, nonce: Seq<u8>, plaintext: Seq<u8>) -> Seq<u8>;

/// The plaintext that AES-256-GCM recovers from `ciphertext` under `key` and
/// `nonce`, or None when the ciphertext is rejected.
pub uninterp spec fn aes_gcm_opened(key: Seq<u8>, nonce: Seq<u8>, ciphertext: Seq<u8>) -> Option<Seq<u8>>;

/// The standard, padded Base64 text of `data`.
pub uninterp spec fn base64_encoded(data: Seq<u8>) -> Seq<char>;

/// The bytes that standard, padded Base64 decoding gives for `text`, or the
/// text of the decoding error when it is not valid Base64.
pub uninterp spec fn base64_decoded(text: Seq<char>) -> Result<Seq<u8>, Seq<char>>;

/// Whether standard Base64 decoding of `text` gives `data`.
pub open spec fn base64_decodes_to(text: Seq<char>, data: Seq<u8>) -> bool {
    base64_decoded(text) == Ok::<Seq<u8>, Seq<char>>(data)
}

/// Whether serde_json reads the record (c, n, a) from `text`.
pub open spec fn envelope_reads_as(text: Seq<char>, c: Seq<char>, n: Seq<char>, a: Seq<char>) -> bool {
    envelope_record(text) == Ok::<(Seq<char>, Seq<char>, Seq<char>), Seq<char>>((c, n, a))
}

/// A character of the standard Base64 alphabet or its padding.
pub open spec fn is_base64_char(c: char) -> bool {
    ('A' <= c && c <= 'Z') || ('a' <= c && c <= 'z') || ('0' <= c && c <= '9') || c == '+' || c == '/' || c == '='
}

/// How a call into AES-GCM failed.
pub enum CipherFailure {
    /// The key was not 32 bytes long.
    InvalidKey(String),
    /// The cipher refused the input.
    Rejected(String),
}

/// aes_gcm: `Aes256Gcm::new_from_slice` (key schedule) followed by
/// `Aead::encrypt`. Claimed: construction fails exactly when the key is not 32
/// bytes; encryption fails exactly when the plaintext exceeds the crate's
/// `P_MAX` (2^36 bytes); the ciphertext is the named result, and decrypting it
/// under the same key and nonce gives the plaintext back.
#[verifier::external_body]
fn seal_aes256gcm(key: &[u8], nonce: &[u8], plaintext: &[u8]) -> (r: Result<Vec<u8>, CipherFailure>)
    requires
        nonce@.len() == 12,
    ensures
        match r {
            Ok(c) => key@.len() == 32 && plaintext@.len() <= aes_gcm_max_plaintext()
                && c@ == aes_gcm_sealed(key@, nonce@, plaintext@)
                && aes_gcm_opened(key@, nonce@, c@) == Some(plaintext@),
            Err(CipherFailure::InvalidKey(m)) => key@.len() != 32 && m@ == "Invalid Length"@,
            Err(CipherFailure::Rejected(m)) => key@.len() == 32 && plaintext@.len() > aes_gcm_max_plaintext()
                && m@ == "aead::Error"@,
        },
{
    let cipher = match Aes256Gcm::new_from_slice(key) {
        Ok(c) => c,
        Err(e) => return Err(CipherFailure::InvalidKey(e.to_string())),
    };
    cipher.encrypt(Nonce::from_slice(nonce), plaintext).map_err(|e| CipherFailure::Rejected(e.to_string()))
}

/// aes_gcm: `Aes256Gcm::new_from_slice` (key schedule) followed by
/// `Aead::decrypt`. Claimed: construction fails exactly when the key is not 32
/// bytes; otherwise the result is the named outcome of decryption.
#[verifier::external_body]
fn open_aes256gcm(key: &[u8], nonce: &[u8], ciphertext: &[u8]) -> (r: Result<Vec<u8>, CipherFailure>)
    requires
        nonce@.len() == 12,
    ensures
        match r {
            Ok(p) => key@.len() == 32 && aes_gcm_opened(key@, nonce@, ciphertext@) == Some(p@),
            Err(CipherFailure::InvalidKey(m)) => key@.len() != 32 && m@ == "Invalid Length"@,
            Err(CipherFailure::Rejected(m)) => key@.len() == 32 && aes_gcm_opened(key@, nonce@, ciphertext@) is None
                && m@ == "aead::Error"@,
        },
{
    let cipher = match Aes256Gcm::new_from_slice(key) {
        Ok(c) => c,
        Err(e) => return Err(CipherFailure::InvalidKey(e.to_string())),
    };
    cipher.decrypt(Nonce::from_slice(nonce), ciphertext).map_err(|e| CipherFailure::Rejected(e.to_string()))
}

/// rand_core: `OsRng::fill_bytes` on a buffer of `length` bytes. Claimed:
/// `length` bytes come back; what they are is left open (they come from the
/// operating system).
#[verifier::external_body]
fn random_bytes(length: usize) -> (r: Vec<u8>)
    ensures
        r@.len() == length,
{
    let mut bytes = vec![0u8; length];
    OsRng.fill_bytes(&mut bytes);
    bytes
}

/// base64: `general_purpose::STANDARD.encode`. Claimed: the text is the named
/// encoding, four characters for every three bytes or part of three, made of
/// the standard alphabet and padding, and decoding it gives the data back.
#[verifier::external_body]
fn base64_encode(data: &[u8]) -> (r: String)
    ensures
        r@ == base64_encoded(data@),
        r@.len() == 4 * ((data@.len() + 2) / 3),
        base64_decodes_to(r@, data@),
        forall|i: int| 0 <= i < r@.len() ==> is_base64_char(#[trigger] r@[i]),
{
    general_purpose::STANDARD.encode(data)
}

/// base64: `general_purpose::STANDARD.decode`. Claimed: the result is the
/// named decoding: the bytes, or the text of the crate's `DecodeError`.
#[verifier::external_body]
fn base64_decode(text: &str) -> (r: Result<Vec<u8>, String>)
    ensures
        match r {
            Ok(b) => base64_decoded(text@) matches Ok(d) && d == b@,
            Err(m) => base64_decoded(text@) matches Err(x) && x == m@,
        },
{
    general_purpose::STANDARD.decode(text).map_err(|e| e.to_string())
}

/// The text of std's `FromUtf8Error` for bytes that are not valid UTF-8.
pub uninterp spec fn utf8_error_text(bytes: Seq<u8>) -> Seq<char>;

/// std: `String::from_utf8`. Claimed: it succeeds exactly on valid UTF-8 and then
/// holds the decoded characters; otherwise the error text is the named text
/// of std's error, which depends on the bytes alone.
#[verifier::external_body]
fn string_from_utf8(bytes: Vec<u8>) -> (r: Result<String, String>)
    ensures
        match r {
            Ok(s) => valid_utf8(bytes@) && s@ == decode_utf8(bytes@),
            Err(m) => !valid_utf8(bytes@) && m@ == utf8_error_text(bytes@),
        },
{
    String::from_utf8(bytes).map_err(|e| e.to_string())
}

/// The JSON text that serde_json writes for the record (ciphertext, nonce,
/// algorithm): an object with those three string members, in that order.
pub uninterp spec fn envelope_json(ciphertext: Seq<char>, nonce: Seq<char>, algorithm: Seq<char>) -> Seq<char>;

/// The record that serde_json reads from a JSON text: an array of three
/// strings, or the string members `ciphertext`, `nonce` and `algorithm` of an
/// object; otherwise the text of serde_json's error.
pub uninterp spec fn envelope_record(text: Seq<char>) -> Result<(Seq<char>, Seq<char>, Seq<char>), Seq<char>>;

/// serde_json: `Serializer::new` over a byte buffer, `serialize_map` with the
/// entries `ciphertext`, `nonce`, `algorithm` in that order, then `end`.
/// Claimed: the text is the named JSON of the record, and serde_json reads
/// the record back from it (its strings are escaped and unescaped). Writing
/// strings into a byte buffer does not fail, and the output is UTF-8.
#[verifier::external_body]
fn write_envelope(ciphertext: &str, nonce: &str, algorithm: &str) -> (r: String)
    ensures
        r@ == envelope_json(ciphertext@, nonce@, algorithm@),
        envelope_reads_as(r@, ciphertext@, nonce@, algorithm@),
        r@.len() > 0,
{
    let mut out: Vec<u8> = Vec::new();
    let mut ser = serde_json::Serializer::new(&mut out);
    let mut map = ser.serialize_map(Some(3)).expect("JSON object");
    map.serialize_entry("ciphertext", ciphertext).expect("JSON member");
    map.serialize_entry("nonce", nonce).expect("JSON member");
    map.serialize_entry("algorithm", algorithm).expect("JSON member");
    map.end().expect("JSON object");
    String::from_utf8(out).expect("UTF-8 JSON")
}

/// serde_json: `from_str` into a tuple of three strings (the array form);
/// failing that, `from_str` into a `Map<String, Value>`, each of the three
/// members taken with `from_value::<String>`, and a missing one reported
/// with `de::Error::missing_field`. Claimed: the result is the named record
/// of the text, or serde_json's error text (without the position serde_json
/// adds when it reads a whole struct; of members given twice, the last one
/// counts).
#[verifier::external_body]
fn read_envelope(text: &str) -> (r: Result<(String, String, String), String>)
    ensures
        match r {
            Ok((c, n, a)) => envelope_record(text@) matches Ok(f) && f == (c@, n@, a@),
            Err(m) => envelope_record(text@) matches Err(x) && x == m@,
        },
{
    if let Ok(fields) = serde_json::from_str::<(String, String, String)>(text) {
        return Ok(fields);
    }
    let mut object: serde_json::Map<String, serde_json::Value> = serde_json::from_str(text).map_err(|e| e.to_string())?;
    let mut take = |k: &'static str| match object.remove(k) {
        Some(v) => serde_json::from_value::<String>(v).map_err(|e| e.to_string()),
        None => Err(<serde_json::Error as serde::de::Error>::missing_field(k).to_string()),
    };
    Ok((take("ciphertext")?, take("nonce")?, take("algorithm")?))
}

/// Kinds of encryption failure.
#[derive(Debug, Clone, Copy, PartialEq, Eq, Structural)]
pub enum EncryptionErrorKind {
    EncryptionFailed,
    DecryptionFailed,
    KeyGenerationFailed,
    Base64Error,
    FormatError,
}

/// An encryption failure with its message.
#[derive(Debug, Clone)]
pub enum EncryptionError {
    EncryptionFailed(String),
    DecryptionFailed(String),
    KeyGenerationFailed(String),
    Base64Error(String),
    FormatError(String),
}

impl EncryptionError {
    /// The message the error carries.
    pub open spec fn message(&self) -> Seq<char> {
        match self {
            EncryptionError::EncryptionFailed(m) => m@,
            EncryptionError::DecryptionFailed(m) => m@,
            EncryptionError::KeyGenerationFailed(m) => m@,
            EncryptionError::Base64Error(m) => m@,
            EncryptionError::FormatError(m) => m@,
        }
    }

    pub open spec fn kind(&self) -> EncryptionErrorKind {
        match self {
            EncryptionError::EncryptionFailed(_) => EncryptionErrorKind::EncryptionFailed,
            EncryptionError::DecryptionFailed(_) => EncryptionErrorKind::DecryptionFailed,
            EncryptionError::KeyGenerationFailed(_) => EncryptionErrorKind::KeyGenerationFailed,
            EncryptionError::Base64Error(_) => EncryptionErrorKind::Base64Error,
            EncryptionError::FormatError(_) => EncryptionErrorKind::FormatError,
        }
    }

    /// The displayed form of the error: its kind's heading, then its message.
    pub fn to_display_string(&self) -> (r: String)
        ensures
            r@ == (match self {
                EncryptionError::EncryptionFailed(m) => "暗号化エラー: "@ + m@,
                EncryptionError::DecryptionFailed(m) => "復号化エラー: "@ + m@,
                EncryptionError::KeyGenerationFailed(m) => "キー生成エラー: "@ + m@,
                EncryptionError::Base64Error(m) => "Base64エンコードエラー: "@ + m@,
                EncryptionError::FormatError(m) => "データ形式エラー: "@ + m@,
            }),
    {
        let (head, m): (&str, &String) = match self {
            EncryptionError::EncryptionFailed(m) => ("暗号化エラー: ", m),
            EncryptionError::DecryptionFailed(m) => ("復号化エラー: ", m),
            EncryptionError::KeyGenerationFailed(m) => ("キー生成エラー: ", m),
            EncryptionError::Base64Error(m) => ("Base64エンコードエラー: ", m),
            EncryptionError::FormatError(m) => ("データ形式エラー: ", m),
        };
        let mut s = String::from_str(head);
        s.append(m.as_str());
        s
    }
}

/// An encrypted value: Base64 ciphertext, Base64 nonce and algorithm name.
#[derive(Debug, Clone)]
pub struct EncryptedData {
    pub ciphertext: String,
    pub nonce: String,
    pub algorithm: String,
}

pub open spec fn algorithm_name() -> Seq<char> {
    "AES-256-GCM"@
}

/// The 32-byte key made from a passphrase: its UTF-8 bytes, cut or padded with zeros.
pub open spec fn padded_key(k: Seq<char>) -> Seq<u8> {
    Seq::new(32, |i: int| if i < encode_utf8(k).len() { encode_utf8(k)[i] } else { 0u8 })
}

/// The key of a passphrase shorter than 32 bytes is its UTF-8 bytes followed by
/// zero bytes, so a NUL character appended to it leaves the key unchanged; the
/// key of a longer passphrase is its first 32 bytes.
pub proof fn lemma_key_padding(k: Seq<char>)
    ensures
        padded_key(k).len() == 32,
        encode_utf8(k).len() < 32 ==> padded_key(k) == encode_utf8(k) + Seq::new(
            (32 - encode_utf8(k).len()) as nat, |i: int| 0u8),
        encode_utf8(k).len() < 32 ==> padded_key(k.push('\0')) == padded_key(k),
        encode_utf8(k).len() >= 32 ==> padded_key(k) == encode_utf8(k).take(32),
{
    let b = encode_utf8(k);
    if b.len() < 32 {
        assert(padded_key(k) =~= b + Seq::new((32 - b.len()) as nat, |i: int| 0u8));
        crate::text::lemma_encode_utf8_push(k, '\0');
        assert(('\0' as u32) == 0u32);
        assert((0u32 & 0x7Fu32) as u8 == 0u8) by (bit_vector);
        assert(encode_scalar(0u32) =~= seq![0u8]);
        assert(encode_utf8(k.push('\0')) =~= b.push(0u8));
        assert(padded_key(k.push('\0')) =~= padded_key(k));
    } else {
        assert(padded_key(k) =~= b.take(32));
    }
}

/// What decrypting the record (ciphertext, nonce, algorithm) under `key` gives.
pub open spec fn decrypt_outcome(key: Seq<u8>, c: Seq<char>, n: Seq<char>, a: Seq<char>) -> Result<Seq<char>, EncryptionErrorKind> {
    if a != algorithm_name() {
        Err(EncryptionErrorKind::FormatError)
    } else {
        match base64_decoded(c) {
            Err(_) => Err(EncryptionErrorKind::Base64Error),
            Ok(ct) => match base64_decoded(n) {
                Err(_) => Err(EncryptionErrorKind::Base64Error),
                Ok(nb) => if nb.len() != 12 {
                    Err(EncryptionErrorKind::FormatError)
                } else {
                    match aes_gcm_opened(key, nb, ct) {
                        None => Err(EncryptionErrorKind::DecryptionFailed),
                        Some(pt) => if valid_utf8(pt) {
                            Ok(decode_utf8(pt))
                        } else {
                            Err(EncryptionErrorKind::DecryptionFailed)
                        },
                    }
                },
            },
        }
    }
}

/// What decrypting an encrypted token text under `key` gives.
pub open spec fn decrypt_token_outcome(key: Seq<u8>, t: Seq<char>) -> Result<Seq<char>, EncryptionErrorKind> {
    match base64_decoded(t) {
        Err(_) => Err(EncryptionErrorKind::Base64Error),
        Ok(bytes) => if !valid_utf8(bytes) {
            Err(EncryptionErrorKind::FormatError)
        } else {
            match envelope_record(decode_utf8(bytes)) {
                Err(_) => Err(EncryptionErrorKind::FormatError),
                Ok((c, n, a)) => decrypt_outcome(key, c, n, a),
            }
        },
    }
}

/// The message of a failed decryption of the record (ciphertext, nonce,
/// algorithm) under `key`, along the same steps as [`decrypt_outcome`].
pub open spec fn decrypt_error_message(key: Seq<u8>, c: Seq<char>, n: Seq<char>, a: Seq<char>) -> Seq<char> {
    if a != algorithm_name() {
        "サポートされていないアルゴリズム: "@ + a
    } else {
        match base64_decoded(c) {
            Err(m) => "暗号文デコードエラー: "@ + m,
            Ok(ct) => match base64_decoded(n) {
                Err(m) => "ナンスデコードエラー: "@ + m,
                Ok(nb) => if nb.len() != 12 {
                    "ナンスのサイズが正しくありません"@
                } else {
                    match aes_gcm_opened(key, nb, ct) {
                        None => "aead::Error"@,
                        Some(pt) => "UTF-8変換エラー: "@ + utf8_error_text(pt),
                    }
                },
            },
        }
    }
}

/// The message of a failed decryption of a token text under `key`, along
/// the same steps as [`decrypt_token_outcome`].
pub open spec fn decrypt_token_error_message(key: Seq<u8>, t: Seq<char>) -> Seq<char> {
    match base64_decoded(t) {
        Err(m) => "Base64デコードエラー: "@ + m,
        Ok(bytes) => if !valid_utf8(bytes) {
            "UTF-8変換エラー: "@ + utf8_error_text(bytes)
        } else {
            match envelope_record(decode_utf8(bytes)) {
                Err(m) => "JSON解析エラー: "@ + m,
                Ok((c, n, a)) => decrypt_error_message(key, c, n, a),
            }
        },
    }
}

/// The record made by encrypting `plaintext` under `key` with `nonce`.
pub open spec fn sealed_record(key: Seq<u8>, nonce: Seq<u8>, plaintext: Seq<char>) -> (Seq<char>, Seq<char>, Seq<char>) {
    (base64_encoded(aes_gcm_sealed(key, nonce, encode_utf8(plaintext))), base64_encoded(nonce), algorithm_name())
}

/// The token text made by encrypting `token` under `key` with `nonce`.
pub open spec fn token_envelope(key: Seq<u8>, nonce: Seq<u8>, token: Seq<char>) -> Seq<char> {
    let r = sealed_record(key, nonce, token);
    base64_encoded(encode_utf8(envelope_json(r.0, r.1, r.2)))
}

pub open spec fn result_view(r: Result<String, EncryptionError>) -> Result<Seq<char>, EncryptionErrorKind> {
    match r {
        Ok(s) => Ok(s@),
        Err(e) => Err(e.kind()),
    }
}

/// Encrypts tokens with a fixed 32-byte key.
pub struct TokenEncryption {
    encryption_key: Vec<u8>,
}

impl TokenEncryption {
    #[verifier::type_invariant]
    spec fn key_is_32_bytes(self) -> bool {
        self.encryption_key@.len() == 32
    }

    /// A copy of the service, with the same key.
    pub fn duplicate(&self) -> (r: TokenEncryption)
        ensures
            r.key() == self.key(),
    {
        proof { use_type_invariant(self); }
        let k = self.encryption_key.clone();
        assert(k@ =~= self.encryption_key@);
        TokenEncryption { encryption_key: k }
    }

    /// The key in use.
    pub closed spec fn key(&self) -> Seq<u8> {
        self.encryption_key@
    }

    /// Makes the encryption service for a passphrase; the key is the
    /// passphrase's UTF-8 bytes cut or padded with zeros to 32 bytes.
    pub fn new(key: String) -> (r: Result<TokenEncryption, EncryptionError>)
        ensures
            r matches Ok(t) && t.key() == padded_key(key@),
    {
        Ok(Self::with_passphrase(key))
    }

    /// The encryption service for a passphrase, as [`TokenEncryption::new`] makes it.
    pub fn with_passphrase(key: String) -> (t: TokenEncryption)
        ensures
            t.key() == padded_key(key@),
    {
        let bytes = key.as_str().as_bytes();
        let mut k: Vec<u8> = Vec::new();
        let mut i: usize = 0;
        while i < 32
            invariant
                i <= 32,
                bytes@ == encode_utf8(key@),
                k@.len() == i,
                forall|j: int| 0 <= j < i ==> k@[j] == padded_key(key@)[j],
            decreases 32 - i,
        {
            if i < bytes.len() {
                k.push(bytes[i]);
            } else {
                k.push(0u8);
            }
            i = i + 1;
        }
        assert(k@ =~= padded_key(key@));
        TokenEncryption { encryption_key: k }
    }

    /// Encrypts `plaintext` with a fresh random nonce. It fails only when the
    /// plaintext exceeds what AES-GCM accepts; the record it returns decrypts
    /// back to the plaintext.
    pub fn encrypt(&self, plaintext: &str) -> (r: Result<EncryptedData, EncryptionError>)
        ensures
            r is Ok <==> encode_utf8(plaintext@).len() <= aes_gcm_max_plaintext(),
            r matches Err(e) ==> e.kind() == EncryptionErrorKind::EncryptionFailed,
            r matches Ok(d) ==> (exists|nonce: Seq<u8>| nonce.len() == 12
                && (d.ciphertext@, d.nonce@, d.algorithm@) == sealed_record(self.key(), nonce, plaintext@)),
            r matches Ok(d) ==> decrypt_outcome(self.key(), d.ciphertext@, d.nonce@, d.algorithm@) == Ok::<Seq<char>, EncryptionErrorKind>(plaintext@),
    {
        proof { use_type_invariant(self); }
        let nonce = random_bytes(12);
        let pt = plaintext.as_bytes();
        let ct = match seal_aes256gcm(self.encryption_key.as_slice(), nonce.as_slice(), pt) {
            Ok(c) => c,
            Err(CipherFailure::InvalidKey(m)) => return Err(EncryptionError::KeyGenerationFailed(m)),
            Err(CipherFailure::Rejected(m)) => return Err(EncryptionError::EncryptionFailed(m)),
        };
        let c = base64_encode(ct.as_slice());
        let n = base64_encode(nonce.as_slice());
        let a = String::from_str("AES-256-GCM");
        proof {
            assert(decode_utf8(encode_utf8(plaintext@)) == plaintext@);
        }
        Ok(EncryptedData { ciphertext: c, nonce: n, algorithm: a })
    }

    /// Decrypts a record; the result is exactly `decrypt_outcome` of it.
    pub fn decrypt(&self, encrypted_data: &EncryptedData) -> (r: Result<String, EncryptionError>)
        ensures
            result_view(r) == decrypt_outcome(self.key(), encrypted_data.ciphertext@, encrypted_data.nonce@,
                encrypted_data.algorithm@),
            r matches Err(e) ==> e.message() == decrypt_error_message(self.key(), encrypted_data.ciphertext@,
                encrypted_data.nonce@, encrypted_data.algorithm@),
    {
        proof { use_type_invariant(self); }
        let expected = String::from_str("AES-256-GCM");
        if encrypted_data.algorithm != expected {
            let mut m = String::from_str("サポートされていないアルゴリズム: ");
            m.append(encrypted_data.algorithm.as_str());
            return Err(EncryptionError::FormatError(m));
        }
        let ciphertext = match base64_decode(encrypted_data.ciphertext.as_str()) {
            Ok(b) => b,
            Err(e) => {
                let mut m = String::from_str("暗号文デコードエラー: ");
                m.append(e.as_str());
                return Err(EncryptionError::Base64Error(m));
            },
        };
        let nonce = match base64_decode(encrypted_data.nonce.as_str()) {
            Ok(b) => b,
            Err(e) => {
                let mut m = String::from_str("ナンスデコードエラー: ");
                m.append(e.as_str());
                return Err(EncryptionError::Base64Error(m));
            },
        };
        if nonce.len() != 12 {
            return Err(EncryptionError::FormatError(String::from_str("ナンスのサイズが正しくありません")));
        }
        let plain = match open_aes256gcm(self.encryption_key.as_slice(), nonce.as_slice(), ciphertext.as_slice()) {
            Ok(p) => p,
            Err(CipherFailure::InvalidKey(m)) => return Err(EncryptionError::KeyGenerationFailed(m)),
            Err(CipherFailure::Rejected(m)) => return Err(EncryptionError::DecryptionFailed(m)),
        };
        match string_from_utf8(plain) {
            Ok(s) => Ok(s),
            Err(e) => {
                let mut m = String::from_str("UTF-8変換エラー: ");
                m.append(e.as_str());
                Err(EncryptionError::DecryptionFailed(m))
            },
        }
    }

    /// Encrypts a token into Base64 text that carries the encrypted record.
    /// It fails only when the token exceeds what AES-GCM accepts; the text it
    /// returns decrypts back to the token.
    pub fn encrypt_token(&self, token: &str) -> (r: Result<String, EncryptionError>)
        ensures
            r is Ok <==> encode_utf8(token@).len() <= aes_gcm_max_plaintext(),
            r matches Err(e) ==> e.kind() == EncryptionErrorKind::EncryptionFailed,
            r matches Ok(t) ==> (exists|nonce: Seq<u8>| nonce.len() == 12 && t@ == token_envelope(self.key(), nonce, token@)),
            r matches Ok(t) ==> decrypt_token_outcome(self.key(), t@) == Ok::<Seq<char>, EncryptionErrorKind>(token@),
            r matches Ok(t) ==> t@.len() > 0,
    {
        let data = match self.encrypt(token) {
            Ok(d) => d,
            Err(e) => return Err(e),
        };
        let ghost key = self.key();
        let ghost nonce = choose|nonce: Seq<u8>| nonce.len() == 12
            && (data.ciphertext@, data.nonce@, data.algorithm@) == sealed_record(key, nonce, token@);
        let json = write_envelope(data.ciphertext.as_str(), data.nonce.as_str(), data.algorithm.as_str());
        let text = base64_encode(json.as_str().as_bytes());
        proof {
            assert(decode_utf8(encode_utf8(json@)) == json@);
            crate::text::lemma_prefix_encodings_grow(json@, 0, json@.len() as int);
            assert(json@.take(json@.len() as int) =~= json@);
            assert(text@ == token_envelope(key, nonce, token@));
        }
        Ok(text)
    }

    /// Decrypts a token text; the result is exactly `decrypt_token_outcome` of it.
    pub fn decrypt_token(&self, encrypted_token: &str) -> (r: Result<String, EncryptionError>)
        ensures
            result_view(r) == decrypt_token_outcome(self.key(), encrypted_token@),
            r matches Err(e) ==> e.message() == decrypt_token_error_message(self.key(), encrypted_token@),
    {
        let bytes = match base64_decode(encrypted_token) {
            Ok(b) => b,
            Err(e) => {
                let mut m = String::from_str("Base64デコードエラー: ");
                m.append(e.as_str());
                return Err(EncryptionError::Base64Error(m));
            },
        };
        let json = match string_from_utf8(bytes) {
            Ok(s) => s,
            Err(e) => {
                let mut m = String::from_str("UTF-8変換エラー: ");
                m.append(e.as_str());
                return Err(EncryptionError::FormatError(m));
            },
        };
        match read_envelope(json.as_str()) {
            Ok((c, n, a)) => {
                let data = EncryptedData { ciphertext: c, nonce: n, algorithm: a };
                self.decrypt(&data)
            },
            Err(e) => {
                let mut m = String::from_str("JSON解析エラー: ");
                m.append(e.as_str());
                Err(EncryptionError::FormatError(m))
            },
        }
    }
}


/// Keys of a list of (key, value) pairs.
pub open spec fn keys_of(v: Seq<(String, String)>) -> Seq<Seq<char>> {
    v.map_values(|p: (String, String)| p.0@)
}

/// What decrypting each value of a list of (key, encrypted token) pairs gives:
/// the decrypted pairs, or the failure of the first value that does not decrypt.
pub open spec fn decrypt_all_outcome(key: Seq<u8>, v: Seq<(Seq<char>, Seq<char>)>)
    -> Result<Seq<(Seq<char>, Seq<char>)>, EncryptionErrorKind>
    decreases v.len(),
{
    if v.len() == 0 {
        Ok(Seq::empty())
    } else {
        match decrypt_token_outcome(key, v[0].1) {
            Err(k) => Err(k),
            Ok(t) => match decrypt_all_outcome(key, v.drop_first()) {
                Ok(rest) => Ok(seq![(v[0].0, t)] + rest),
                Err(k) => Err(k),
            },
        }
    }
}

pub open spec fn pair_views(v: Seq<(String, String)>) -> Seq<(Seq<char>, Seq<char>)> {
    v.map_values(|p: (String, String)| (p.0@, p.1@))
}

/// Decrypting token texts that each decrypt to a value gives those values,
/// under the same keys, in the same order.
pub proof fn lemma_decrypt_all_of_round_trips(key: Seq<u8>, enc: Seq<(Seq<char>, Seq<char>)>, plain: Seq<(Seq<char>, Seq<char>)>)
    requires
        enc.len() == plain.len(),
        forall|i: int| 0 <= i < enc.len() ==> #[trigger] enc[i].0 == plain[i].0
            && decrypt_token_outcome(key, enc[i].1) == Ok::<Seq<char>, EncryptionErrorKind>(plain[i].1),
    ensures
        decrypt_all_outcome(key, enc) == Ok::<Seq<(Seq<char>, Seq<char>)>, EncryptionErrorKind>(plain),
    decreases enc.len(),
{
    if enc.len() == 0 {
        assert(plain =~= Seq::<(Seq<char>, Seq<char>)>::empty());
    } else {
        assert(enc[0].0 == plain[0].0);
        assert forall|i: int| 0 <= i < enc.drop_first().len() implies #[trigger] enc.drop_first()[i].0 == plain.drop_first()[i].0
            && decrypt_token_outcome(key, enc.drop_first()[i].1) == Ok::<Seq<char>, EncryptionErrorKind>(plain.drop_first()[i].1) by {
            assert(enc.drop_first()[i] == enc[i + 1]);
            assert(plain.drop_first()[i] == plain[i + 1]);
        }
        lemma_decrypt_all_of_round_trips(key, enc.drop_first(), plain.drop_first());
        assert(enc[0].0 == plain[0].0);
        assert(seq![(enc[0].0, plain[0].1)] + plain.drop_first() =~= plain);
    }
}

impl TokenEncryption {
    /// Encrypts each token of a list of (key, token) pairs with distinct keys
    /// (a map's entries), keeping keys and
    /// order; it fails, with the first failure, only when a token exceeds what
    /// AES-GCM accepts. Each returned text decrypts back to its token.
    pub fn encrypt_tokens(&self, tokens: &Vec<(String, String)>) -> (r: Result<Vec<(String, String)>, EncryptionError>)
        requires
            keys_of(tokens@).no_duplicates(),
        ensures
            r is Ok <==> (forall|i: int| 0 <= i < tokens@.len()
                ==> encode_utf8(#[trigger] tokens@[i].1@).len() <= aes_gcm_max_plaintext()),
            r matches Err(e) ==> e.kind() == EncryptionErrorKind::EncryptionFailed,
            r matches Ok(v) ==> v@.len() == tokens@.len() && keys_of(v@) == keys_of(tokens@),
            r matches Ok(v) ==> forall|i: int| 0 <= i < v@.len()
                ==> decrypt_token_outcome(self.key(), #[trigger] v@[i].1@) == Ok::<Seq<char>, EncryptionErrorKind>(tokens@[i].1@),
    {
        let mut out: Vec<(String, String)> = Vec::new();
        let mut i: usize = 0;
        while i < tokens.len()
            invariant
                i <= tokens@.len(),
                out@.len() == i,
                forall|j: int| 0 <= j < i ==> encode_utf8(#[trigger] tokens@[j].1@).len() <= aes_gcm_max_plaintext(),
                forall|j: int| 0 <= j < i ==> #[trigger] out@[j].0@ == tokens@[j].0@,
                forall|j: int| 0 <= j < i ==> decrypt_token_outcome(self.key(), #[trigger] out@[j].1@)
                    == Ok::<Seq<char>, EncryptionErrorKind>(tokens@[j].1@),
            decreases tokens@.len() - i,
        {
            let t = match self.encrypt_token(tokens[i].1.as_str()) {
                Ok(t) => t,
                Err(e) => return Err(e),
            };
            out.push((tokens[i].0.clone(), t));
            i = i + 1;
        }
        assert(keys_of(out@) =~= keys_of(tokens@));
        Ok(out)
    }

    /// Decrypts each token text of a list of (key, text) pairs with distinct
    /// keys (a map's entries), keeping keys and
    /// order; the result is exactly `decrypt_all_outcome` of the list.
    pub fn decrypt_tokens(&self, encrypted_tokens: &Vec<(String, String)>) -> (r: Result<Vec<(String, String)>, EncryptionError>)
        requires
            keys_of(encrypted_tokens@).no_duplicates(),
        ensures
            match r {
                Ok(v) => decrypt_all_outcome(self.key(), pair_views(encrypted_tokens@))
                    == Ok::<Seq<(Seq<char>, Seq<char>)>, EncryptionErrorKind>(pair_views(v@)),
                Err(e) => decrypt_all_outcome(self.key(), pair_views(encrypted_tokens@))
                    == Err::<Seq<(Seq<char>, Seq<char>)>, EncryptionErrorKind>(e.kind()),
            },
    {
        let ghost all = pair_views(encrypted_tokens@);
        let mut out: Vec<(String, String)> = Vec::new();
        let mut i: usize = 0;
        proof {
            assert(all.subrange(0, all.len() as int) =~= all);
            match decrypt_all_outcome(self.key(), all) {
                Ok(rest) => { assert(pair_views(out@) + rest =~= rest); },
                Err(_) => {},
            }
        }
        while i < encrypted_tokens.len()
            invariant
                i <= encrypted_tokens@.len(),
                all == pair_views(encrypted_tokens@),
                decrypt_all_outcome(self.key(), all) == (match decrypt_all_outcome(self.key(), all.subrange(i as int, all.len() as int)) {
                    Ok(rest) => Ok(pair_views(out@) + rest),
                    Err(k) => Err::<Seq<(Seq<char>, Seq<char>)>, EncryptionErrorKind>(k),
                }),
            decreases encrypted_tokens@.len() - i,
        {
            let ghost tail = all.subrange(i as int, all.len() as int);
            assert(tail.drop_first() =~= all.subrange(i as int + 1, all.len() as int));
            assert(tail[0] == (encrypted_tokens@[i as int].0@, encrypted_tokens@[i as int].1@));
            let t = match self.decrypt_token(encrypted_tokens[i].1.as_str()) {
                Ok(t) => t,
                Err(e) => return Err(e),
            };
            let ghost before = pair_views(out@);
            let k = encrypted_tokens[i].0.clone();
            out.push((k, t));
            assert(pair_views(out@) =~= before + seq![(k@, t@)]);
            proof {
                match decrypt_all_outcome(self.key(), all.subrange(i as int + 1, all.len() as int)) {
                    Ok(rest) => {
                        assert(before + (seq![(k@, t@)] + rest) =~= pair_views(out@) + rest);
                    },
                    Err(_) => {},
                }
            }
            i = i + 1;
        }
        assert(all.subrange(i as int, all.len() as int) =~= Seq::<(Seq<char>, Seq<char>)>::empty());
        assert(pair_views(out@) + Seq::<(Seq<char>, Seq<char>)>::empty() =~= pair_views(out@));
        Ok(out)
    }
}

/// A random key of `length` bytes from the operating system, as standard
/// Base64 text.
pub fn generate_secure_key(length: usize) -> (r: String)
    ensures
        exists|key: Seq<u8>| #![trigger base64_encoded(key)]
            key.len() == length && r@ == base64_encoded(key) && base64_decoded(r@) == Ok::<Seq<u8>, Seq<char>>(key),
{
    let key = random_bytes(length);
    base64_encode(key.as_slice())
}

} // verus!
