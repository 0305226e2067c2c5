//! Credential encryption at rest: the master key's life cycle and the
//! authenticated encryption of stored settings.
//!
//! The master key lives in the platform credential store. Reading and writing
//! that store is the caller's business; what to do with each outcome is
//! decided here. A caller that needs the key reports [`KeyEvent::Start`] to
//! [`load_or_create_master_key`], performs the [`KeyAction`] it gets back,
//! reports the outcome as the next event, and goes on until the action is
//! [`KeyAction::Ready`] or [`KeyAction::Fail`].

use crate::encoding::{
    base64_decode, base64_decoded, base64_encode, base64_encoded, string_from_utf8, utf8_error,
    utf8_outcome,
};
use crate::error::{AppError, ErrorView};
use aes_gcm::aead::{Aead, KeyInit};
use rand::RngCore;
use vstd::array::*;
use vstd::prelude::*;
use vstd::slice::*;
use vstd::string::*;
use vstd::utf8::*;

verus! {

/// Service under which the master key is filed in the credential store.
pub const KEYRING_SERVICE: &'static str = "ADuiTools";

/// Account under which the master key is filed in the credential store.
pub const KEYRING_ACCOUNT: &'static str = "master_key_v1";

/// Bytes in a master key.
pub const KEY_LEN: usize = 32;

/// Bytes in a nonce.
pub const NONCE_LEN: usize = 12;

/// Bytes that authenticated encryption appends to a message.
pub const TAG_LEN: usize = 16;

/// The longest message, in bytes, that AES-GCM encrypts.
pub const MAX_PLAINTEXT_LEN: u64 = 0x10_0000_0000;

/// What AES-256-GCM encryption without associated data yields for a key, a
/// nonce and a message: the ciphertext followed by the tag, or nothing when
/// the cipher refuses the message.
pub uninterp spec fn aes256_gcm_sealed(key: Seq<u8>, nonce: Seq<u8>, plaintext: Seq<u8>) -> Option<
    Seq<u8>,
>;

/// What AES-256-GCM decryption without associated data yields for a key, a
/// nonce and a ciphertext with its tag: the message, or nothing when the tag
/// does not authenticate the ciphertext.
pub uninterp spec fn aes256_gcm_opened(key: Seq<u8>, nonce: Seq<u8>, sealed: Seq<u8>) -> Option<
    Seq<u8>,
>;

/// The bytes of an optional buffer.
pub open spec fn bytes_view(bytes: Option<Vec<u8>>) -> Option<Seq<u8>> {
    match bytes {
        Some(b) => Some(b@),
        None => None,
    }
}

/// `Aead::encrypt` of `aes_gcm::Aes256Gcm`, keyed with `key`. It succeeds
/// exactly on messages of at most 2^36 bytes; the result is the message's
/// length plus a 16-byte tag, and decrypts to the message under the same key
/// and nonce.
#[verifier::external_body]
pub(crate) fn aes256_gcm_encrypt(key: &[u8; 32], nonce: &[u8; 12], plaintext: &[u8]) -> (sealed:
    Option<Vec<u8>>)
    ensures
        bytes_view(sealed) == aes256_gcm_sealed(key@, nonce@, plaintext@),
        sealed is Some <==> plaintext@.len() <= MAX_PLAINTEXT_LEN,
        sealed matches Some(s) ==> s@.len() == plaintext@.len() + TAG_LEN,
        sealed matches Some(s) ==> aes256_gcm_opened(key@, nonce@, s@) == Some(plaintext@),
{
    let cipher = aes_gcm::Aes256Gcm::new(aes_gcm::Key::<aes_gcm::Aes256Gcm>::from_slice(key));
    cipher.encrypt(aes_gcm::Nonce::from_slice(nonce), plaintext).ok()
}

/// `Aead::decrypt` of `aes_gcm::Aes256Gcm`, keyed with `key`: the message
/// that [`aes256_gcm_opened`] names, if the tag authenticates the ciphertext.
#[verifier::external_body]
pub(crate) fn aes256_gcm_decrypt(key: &[u8; 32], nonce: &[u8; 12], sealed: &[u8]) -> (opened:
    Option<Vec<u8>>)
    ensures
        bytes_view(opened) == aes256_gcm_opened(key@, nonce@, sealed@),
{
    let cipher = aes_gcm::Aes256Gcm::new(aes_gcm::Key::<aes_gcm::Aes256Gcm>::from_slice(key));
    cipher.decrypt(aes_gcm::Nonce::from_slice(nonce), sealed).ok()
}

/// `RngCore::fill_bytes` of `rand::thread_rng()` over a new array: random
/// bytes, of which nothing is promised.
#[verifier::external_body]
pub(crate) fn random_array<const N: usize>() -> (bytes: [u8; N]) {
    let mut bytes = [0u8; N];
    rand::thread_rng().fill_bytes(&mut bytes);
    bytes
}

fn crypto_error(summary: &str, detail: &str) -> (error: AppError)
    ensures
        error@ == ErrorView::Crypto(summary@ + detail@),
{
    let mut text = String::from_str(summary);
    text.append(detail);
    AppError::Crypto(text)
}

fn keyring_error(summary: &str, detail: &str) -> (error: AppError)
    ensures
        error@ == ErrorView::Keyring(summary@ + detail@),
{
    let mut text = String::from_str(summary);
    text.append(detail);
    AppError::Keyring(text)
}

/// The key that the decoded content of an entry is: the bytes themselves,
/// provided that there are exactly 32 of them.
pub open spec fn key_of_bytes(raw: Seq<u8>) -> Result<Seq<u8>, ErrorView> {
    if raw.len() == KEY_LEN {
        Ok(raw)
    } else {
        Err(ErrorView::Crypto("invalid master key length"@))
    }
}

/// The key that a credential-store entry holds: its base64 content, provided
/// that it decodes to exactly 32 bytes.
pub open spec fn stored_key(stored: Seq<char>) -> Result<Seq<u8>, ErrorView> {
    match base64_decoded(stored) {
        Ok(raw) => key_of_bytes(raw),
        Err(reason) => Err(ErrorView::Crypto("master key base64 decode failed: "@ + reason)),
    }
}

/// The entry content `stored` holds exactly the key `key`.
pub open spec fn holds_key(stored: Seq<char>, key: Seq<u8>) -> bool {
    stored_key(stored) == Ok::<Seq<u8>, ErrorView>(key)
}

/// The mathematical content of a key or an error.
pub open spec fn key_outcome(outcome: Result<[u8; 32], AppError>) -> Result<Seq<u8>, ErrorView> {
    match outcome {
        Ok(key) => Ok(key@),
        Err(error) => Err(error@),
    }
}

/// Makes a master key of the decoded content of its entry.
pub fn master_key_from_bytes(raw: &[u8]) -> (outcome: Result<[u8; 32], AppError>)
    ensures
        key_outcome(outcome) == key_of_bytes(raw@),
{
    if raw.len() != KEY_LEN {
        return Err(AppError::Crypto(String::from_str("invalid master key length")));
    }
    let mut key = [0u8;32];
    let mut i: usize = 0;
    while i < KEY_LEN
        invariant
            i <= KEY_LEN,
            raw@.len() == KEY_LEN,
            forall|j: int| 0 <= j < i ==> key@[j] == raw@[j],
        decreases KEY_LEN - i,
    {
        key.set(i, raw[i]);
        i += 1;
    }
    assert(key@ =~= raw@);
    Ok(key)
}

/// Reads the master key out of the content of its credential-store entry.
pub fn decode_master_key(stored: &str) -> (outcome: Result<[u8; 32], AppError>)
    ensures
        key_outcome(outcome) == stored_key(stored@),
{
    match base64_decode(stored) {
        Ok(raw) => master_key_from_bytes(raw.as_slice()),
        Err(reason) => Err(crypto_error("master key base64 decode failed: ", reason.as_str())),
    }
}

/// Writes a master key as the content of its credential-store entry. What is
/// written reads back as the same key.
pub fn encode_master_key(key: &[u8; 32]) -> (encoded: String)
    ensures
        encoded@ == base64_encoded(key@),
        holds_key(encoded@, key@),
{
    base64_encode(key.as_slice())
}

/// The master key once it is known to this process. The first key to arrive
/// stays for the life of the process.
pub struct MasterKeyCache {
    key: Option<[u8; 32]>,
}

impl View for MasterKeyCache {
    type V = Option<Seq<u8>>;

    /// The key held, if any.
    closed spec fn view(&self) -> Option<Seq<u8>> {
        match self.key {
            Some(key) => Some(key@),
            None => None,
        }
    }
}

impl MasterKeyCache {
    /// A cache that holds no key yet.
    pub fn new() -> (cache: Self)
        ensures
            cache@ is None,
    {
        MasterKeyCache { key: None }
    }

    /// The key held, if any.
    pub fn get(&self) -> (key: Option<[u8; 32]>)
        ensures
            match key {
                Some(k) => self@ == Some(k@),
                None => self@ is None,
            },
    {
        self.key
    }

    /// Keeps `key` unless a key is already held.
    pub fn set(&mut self, key: [u8; 32])
        ensures
            final(self)@ == keep_first(old(self)@, key@),
    {
        if self.key.is_none() {
            self.key = Some(key);
        }
    }
}

impl Default for MasterKeyCache {
    fn default() -> (cache: Self)
        ensures
            cache@ is None,
    {
        MasterKeyCache::new()
    }
}

/// A cache after `key` arrived: what it held, or `key` if it held nothing.
pub open spec fn keep_first(cache: Option<Seq<u8>>, key: Seq<u8>) -> Option<Seq<u8>> {
    match cache {
        Some(_) => cache,
        None => Some(key),
    }
}

/// How an attempt to read the master key's credential-store entry ended.
#[derive(Debug, Clone, PartialEq, Eq)]
pub enum EntryLookup {
    /// The store could not be reached at all; the payload says why.
    Unavailable(String),
    /// The entry exists and holds this text.
    Found(String),
    /// The store was reached and has no such entry.
    NoEntry,
    /// The store was reached but the read failed; the payload says why.
    Failed(String),
}

/// What the caller reports to the key procedure.
#[derive(Debug, Clone, PartialEq, Eq)]
pub enum KeyEvent {
    /// The master key is needed.
    Start,
    /// The entry was looked up.
    Lookup(EntryLookup),
    /// The entry was written; the payload is the key it now holds.
    Written([u8; 32]),
    /// Writing the entry failed; the payload says why.
    WriteFailed(String),
}

/// What the key procedure asks of the caller.
#[derive(Debug, Clone, PartialEq, Eq)]
pub enum KeyAction {
    /// Use this key; the procedure is over.
    Ready([u8; 32]),
    /// Look the entry up and report the outcome.
    ReadEntry,
    /// Write `encoded` as the entry and report the outcome; `key` is the key
    /// that it encodes.
    WriteEntry { key: [u8; 32], encoded: String },
    /// Give up with this error; the procedure is over.
    Fail(AppError),
}

/// The mathematical content of a [`KeyAction`].
pub enum KeyActionView {
    Ready(Seq<u8>),
    ReadEntry,
    WriteEntry(Seq<u8>, Seq<char>),
    Fail(ErrorView),
}

impl View for KeyAction {
    type V = KeyActionView;

    open spec fn view(&self) -> KeyActionView {
        match *self {
            KeyAction::Ready(key) => KeyActionView::Ready(key@),
            KeyAction::ReadEntry => KeyActionView::ReadEntry,
            KeyAction::WriteEntry { key, encoded } => KeyActionView::WriteEntry(key@, encoded@),
            KeyAction::Fail(error) => KeyActionView::Fail(error@),
        }
    }
}

/// The move after the entry was looked up. Only a store that was reached and
/// has no entry makes a new key, `fresh`; an entry that exists is used or
/// refused, and every other outcome ends the procedure with an error, so that
/// a key that is merely out of reach is never replaced.
pub open spec fn on_lookup(cache: Option<Seq<u8>>, lookup: EntryLookup, fresh: Seq<u8>) -> (
    KeyActionView,
    Option<Seq<u8>>,
) {
    match lookup {
        EntryLookup::Unavailable(reason) => (
            KeyActionView::Fail(ErrorView::Keyring("keyring entry new failed: "@ + reason@)),
            cache,
        ),
        EntryLookup::Found(stored) => match stored_key(stored@) {
            Ok(key) => (KeyActionView::Ready(key), keep_first(cache, key)),
            Err(error) => (KeyActionView::Fail(error), cache),
        },
        EntryLookup::NoEntry => (KeyActionView::WriteEntry(fresh, base64_encoded(fresh)), cache),
        EntryLookup::Failed(reason) => (
            KeyActionView::Fail(ErrorView::Keyring("keyring get_password failed: "@ + reason@)),
            cache,
        ),
    }
}

/// One step of the key procedure: the action asked of the caller and the
/// cache afterwards. `fresh` is the key to adopt if one has to be made.
pub open spec fn key_step(cache: Option<Seq<u8>>, event: KeyEvent, fresh: Seq<u8>) -> (
    KeyActionView,
    Option<Seq<u8>>,
) {
    match event {
        KeyEvent::Start => match cache {
            Some(key) => (KeyActionView::Ready(key), cache),
            None => (KeyActionView::ReadEntry, cache),
        },
        KeyEvent::Lookup(lookup) => on_lookup(cache, lookup, fresh),
        KeyEvent::Written(key) => (KeyActionView::Ready(key@), keep_first(cache, key@)),
        KeyEvent::WriteFailed(reason) => (
            KeyActionView::Fail(ErrorView::Keyring("keyring set_password failed: "@ + reason@)),
            cache,
        ),
    }
}

/// One step of the key procedure, with the key to adopt in case one has to be
/// made. An entry that this step asks to write reads back as that key.
pub fn master_key_step(cache: &mut MasterKeyCache, event: KeyEvent, fresh: [u8; 32]) -> (action:
    KeyAction)
    ensures
        (action@, final(cache)@) == key_step(old(cache)@, event, fresh@),
        action matches KeyAction::WriteEntry { key, encoded } ==> holds_key(encoded@, key@),
{
    match event {
        KeyEvent::Start => match cache.get() {
            Some(key) => KeyAction::Ready(key),
            None => KeyAction::ReadEntry,
        },
        KeyEvent::Lookup(EntryLookup::Unavailable(reason)) => KeyAction::Fail(
            keyring_error("keyring entry new failed: ", reason.as_str()),
        ),
        KeyEvent::Lookup(EntryLookup::Found(stored)) => match decode_master_key(stored.as_str()) {
            Ok(key) => {
                cache.set(key);
                KeyAction::Ready(key)
            },
            Err(error) => KeyAction::Fail(error),
        },
        KeyEvent::Lookup(EntryLookup::NoEntry) => {
            let encoded = encode_master_key(&fresh);
            KeyAction::WriteEntry { key: fresh, encoded }
        },
        KeyEvent::Lookup(EntryLookup::Failed(reason)) => KeyAction::Fail(
            keyring_error("keyring get_password failed: ", reason.as_str()),
        ),
        KeyEvent::Written(key) => {
            cache.set(key);
            KeyAction::Ready(key)
        },
        KeyEvent::WriteFailed(reason) => KeyAction::Fail(
            keyring_error("keyring set_password failed: ", reason.as_str()),
        ),
    }
}

/// One step of the key procedure. A key is drawn at random only when the
/// store was reached and has no entry; whatever is drawn, the step is the one
/// that [`master_key_step`] takes with it.
pub fn load_or_create_master_key(cache: &mut MasterKeyCache, event: KeyEvent) -> (action:
    KeyAction)
    ensures
        exists|fresh: [u8; 32]|
            (action@, final(cache)@) == #[trigger] key_step(old(cache)@, event, fresh@),
        action matches KeyAction::WriteEntry { key, encoded } ==> holds_key(encoded@, key@),
{
    let fresh: [u8; 32] = match &event {
        KeyEvent::Lookup(EntryLookup::NoEntry) => random_array::<32>(),
        _ => [0u8;32],
    };
    master_key_step(cache, event, fresh)
}

/// A key is made, and an entry written, on one event only: a lookup that
/// reached the store and found no entry.
pub proof fn law_key_is_made_only_without_entry(
    cache: Option<Seq<u8>>,
    event: KeyEvent,
    fresh: Seq<u8>,
)
    ensures
        key_step(cache, event, fresh).0 is WriteEntry <==> event == KeyEvent::Lookup(
            EntryLookup::NoEntry,
        ),
{
}

/// Once a key exists, loading it again yields the same bytes every time and
/// makes no new key: from the cache when the process has seen it, from the
/// entry otherwise, whatever key stood by to be adopted.
pub proof fn law_existing_key_is_returned(
    key: Seq<u8>,
    stored: String,
    cache: Option<Seq<u8>>,
    fresh: Seq<u8>,
)
    requires
        holds_key(stored@, key),
    ensures
        key_step(Some(key), KeyEvent::Start, fresh) == (KeyActionView::Ready(key), Some(key)),
        key_step(cache, KeyEvent::Lookup(EntryLookup::Found(stored)), fresh).0
            == KeyActionView::Ready(key),
        key_step(None, KeyEvent::Lookup(EntryLookup::Found(stored)), fresh).1 == Some(key),
{
}

/// The payload made of a nonce and what the cipher returned for it: the
/// nonce followed by the sealed message, in base64; an error when the cipher
/// refused the message.
pub open spec fn payload_of(nonce: Seq<u8>, sealed: Option<Seq<u8>>) -> Result<
    Seq<char>,
    ErrorView,
> {
    match sealed {
        Some(s) => Ok(base64_encoded(nonce + s)),
        None => Err(ErrorView::Crypto("encrypt failed: aead::Error"@)),
    }
}

/// The payload that encrypting a text under a key and a nonce yields: the
/// nonce followed by the sealed UTF-8 form of the text, in base64.
pub open spec fn encrypted(key: Seq<u8>, nonce: Seq<u8>, plaintext: Seq<char>) -> Result<
    Seq<char>,
    ErrorView,
> {
    payload_of(nonce, aes256_gcm_sealed(key, nonce, encode_utf8(plaintext)))
}

/// The bytes of a payload, once it is known to be base64 of more than a
/// nonce.
pub open spec fn decoded_payload(payload: Seq<char>) -> Result<Seq<u8>, ErrorView> {
    match base64_decoded(payload) {
        Err(reason) => Err(ErrorView::Crypto("decrypt base64 decode failed: "@ + reason)),
        Ok(raw) => if raw.len() <= NONCE_LEN {
            Err(ErrorView::Crypto("invalid encrypted payload"@))
        } else {
            Ok(raw)
        },
    }
}

/// The text that an opened message is: its bytes read as UTF-8; an error when
/// the cipher opened nothing or the bytes are not UTF-8.
pub open spec fn plaintext_of(opened: Option<Seq<u8>>) -> Result<Seq<char>, ErrorView> {
    match opened {
        None => Err(ErrorView::Crypto("decrypt failed: aead::Error"@)),
        Some(bytes) => match utf8_outcome(bytes, utf8_error(bytes)) {
            Ok(text) => Ok(text),
            Err(reason) => Err(ErrorView::Crypto("utf8 decode failed: "@ + reason)),
        },
    }
}

/// What decrypting the bytes of a payload under a key yields. They must be
/// more than a nonce; the first twelve are the nonce, and the rest is opened
/// with it.
pub open spec fn opened_payload(key: Seq<u8>, raw: Seq<u8>) -> Result<Seq<char>, ErrorView> {
    if raw.len() <= NONCE_LEN {
        Err(ErrorView::Crypto("invalid encrypted payload"@))
    } else {
        plaintext_of(
            aes256_gcm_opened(
                key,
                raw.subrange(0, NONCE_LEN as int),
                raw.subrange(NONCE_LEN as int, raw.len() as int),
            ),
        )
    }
}

/// What decrypting a payload under a key yields. The payload must be base64
/// of more than a nonce; its first twelve bytes are the nonce, the rest is
/// opened with it, and the message must be UTF-8. Whatever goes wrong is
/// reported as a cryptographic error and nothing of the message is returned.
pub open spec fn decrypted(key: Seq<u8>, payload: Seq<char>) -> Result<Seq<char>, ErrorView> {
    match decoded_payload(payload) {
        Err(error) => Err(error),
        Ok(raw) => opened_payload(key, raw),
    }
}

/// The mathematical content of a text or an error.
pub open spec fn text_result(outcome: Result<String, AppError>) -> Result<Seq<char>, ErrorView> {
    match outcome {
        Ok(text) => Ok(text@),
        Err(error) => Err(error@),
    }
}

/// The mathematical content of a buffer or an error.
pub open spec fn bytes_result(outcome: Result<Vec<u8>, AppError>) -> Result<Seq<u8>, ErrorView> {
    match outcome {
        Ok(bytes) => Ok(bytes@),
        Err(error) => Err(error@),
    }
}

/// The payload `payload` is base64 of exactly the bytes `raw`.
pub open spec fn decodes_to(payload: Seq<char>, raw: Seq<u8>) -> bool {
    base64_decoded(payload) == Ok::<Seq<u8>, Seq<char>>(raw)
}

/// The text `plaintext` is what `payload` decrypts to under `key`.
pub open spec fn decrypts_to(key: Seq<u8>, payload: Seq<char>, plaintext: Seq<char>) -> bool {
    decrypted(key, payload) == Ok::<Seq<char>, ErrorView>(plaintext)
}

/// Makes the payload of a nonce and what the cipher returned for it. The
/// payload is base64 of the nonce followed by the sealed message.
pub fn frame_payload(nonce: &[u8; 12], sealed: Option<Vec<u8>>) -> (outcome: Result<
    String,
    AppError,
>)
    ensures
        text_result(outcome) == payload_of(nonce@, bytes_view(sealed)),
        outcome matches Ok(payload) ==> sealed matches Some(s) && decodes_to(
            payload@,
            nonce@ + s@,
        ),
{
    match sealed {
        Some(sealed) => {
            let mut out: Vec<u8> = Vec::new();
            out.extend_from_slice(nonce.as_slice());
            out.extend_from_slice(sealed.as_slice());
            assert(out@ =~= nonce@ + sealed@);
            Ok(base64_encode(out.as_slice()))
        },
        None => Err(AppError::Crypto(String::from_str("encrypt failed: aead::Error"))),
    }
}

/// Encrypts a text under a key with the given nonce. It succeeds exactly on
/// texts of at most 2^36 bytes. What it returns is base64 of the nonce
/// followed by the sealed text, which is the text's UTF-8 form and a 16-byte
/// tag long, and decrypts to the text.
pub fn encrypt_with_nonce(key: &[u8; 32], nonce: &[u8; 12], plaintext: &str) -> (outcome: Result<
    String,
    AppError,
>)
    ensures
        text_result(outcome) == encrypted(key@, nonce@, plaintext@),
        outcome is Ok <==> encode_utf8(plaintext@).len() <= MAX_PLAINTEXT_LEN,
        outcome matches Ok(payload) ==> {
            &&& aes256_gcm_sealed(key@, nonce@, encode_utf8(plaintext@)) matches Some(sealed)
            &&& decodes_to(payload@, nonce@ + sealed)
        },
        outcome matches Ok(payload) ==> {
            &&& base64_decoded(payload@) matches Ok(raw)
            &&& raw.len() == NONCE_LEN + encode_utf8(plaintext@).len() + TAG_LEN
            &&& raw.subrange(0, NONCE_LEN as int) == nonce@
        },
        outcome matches Ok(payload) ==> decrypts_to(key@, payload@, plaintext@),
{
    let sealed = aes256_gcm_encrypt(key, nonce, plaintext.as_bytes());
    proof {
        if sealed is Some {
            let raw = nonce@ + sealed->0@;
            assert(raw.subrange(0, NONCE_LEN as int) =~= nonce@);
            assert(raw.subrange(NONCE_LEN as int, raw.len() as int) =~= sealed->0@);
            encode_utf8_valid_utf8(plaintext@);
            encode_utf8_decode_utf8(plaintext@);
        }
    }
    frame_payload(nonce, sealed)
}

/// Encrypts a text under a key with a nonce drawn at random for this call.
/// Whatever nonce is drawn, the payload is the one that
/// [`encrypt_with_nonce`] returns for it: base64 of that nonce followed by the
/// sealed text, and it decrypts to the text.
pub fn encrypt_json(key: &[u8; 32], plaintext: &str) -> (outcome: Result<String, AppError>)
    ensures
        exists|nonce: [u8; 12]|
            text_result(outcome) == #[trigger] encrypted(key@, nonce@, plaintext@),
        outcome is Ok <==> encode_utf8(plaintext@).len() <= MAX_PLAINTEXT_LEN,
        outcome matches Ok(payload) ==> {
            &&& base64_decoded(payload@) matches Ok(raw)
            &&& raw.len() == NONCE_LEN + encode_utf8(plaintext@).len() + TAG_LEN
            &&& aes256_gcm_sealed(
                key@,
                raw.subrange(0, NONCE_LEN as int),
                encode_utf8(plaintext@),
            ) == Some(raw.subrange(NONCE_LEN as int, raw.len() as int))
        },
        outcome matches Ok(payload) ==> decrypts_to(key@, payload@, plaintext@),
{
    let nonce = random_array::<12>();
    let outcome = encrypt_with_nonce(key, &nonce, plaintext);
    proof {
        if outcome is Ok {
            let sealed = aes256_gcm_sealed(key@, nonce@, encode_utf8(plaintext@))->0;
            let raw = nonce@ + sealed;
            assert(raw.subrange(0, NONCE_LEN as int) =~= nonce@);
            assert(raw.subrange(NONCE_LEN as int, raw.len() as int) =~= sealed);
        }
    }
    outcome
}

/// Decodes a payload and checks that it holds more than a nonce. No key is
/// needed for this.
pub fn decode_payload(payload_b64: &str) -> (outcome: Result<Vec<u8>, AppError>)
    ensures
        bytes_result(outcome) == decoded_payload(payload_b64@),
{
    match base64_decode(payload_b64) {
        Ok(raw) => {
            if raw.len() <= NONCE_LEN {
                Err(AppError::Crypto(String::from_str("invalid encrypted payload")))
            } else {
                Ok(raw)
            }
        },
        Err(reason) => Err(crypto_error("decrypt base64 decode failed: ", reason.as_str())),
    }
}

/// Reads the text of what the cipher opened.
pub fn message_text(opened: Option<Vec<u8>>) -> (outcome: Result<String, AppError>)
    ensures
        text_result(outcome) == plaintext_of(bytes_view(opened)),
{
    match opened {
        Some(bytes) => match string_from_utf8(bytes) {
            Ok(text) => Ok(text),
            Err(reason) => Err(crypto_error("utf8 decode failed: ", reason.as_str())),
        },
        None => Err(AppError::Crypto(String::from_str("decrypt failed: aead::Error"))),
    }
}

/// Decrypts the bytes of a payload under a key.
pub fn decrypt_payload(key: &[u8; 32], raw: &[u8]) -> (outcome: Result<String, AppError>)
    ensures
        text_result(outcome) == opened_payload(key@, raw@),
{
    if raw.len() <= NONCE_LEN {
        return Err(AppError::Crypto(String::from_str("invalid encrypted payload")));
    }
    let mut nonce = [0u8;12];
    let mut i: usize = 0;
    while i < NONCE_LEN
        invariant
            i <= NONCE_LEN,
            raw@.len() > NONCE_LEN,
            forall|j: int| 0 <= j < i ==> nonce@[j] == raw@[j],
        decreases NONCE_LEN - i,
    {
        nonce.set(i, raw[i]);
        i += 1;
    }
    assert(nonce@ =~= raw@.subrange(0, NONCE_LEN as int));
    let sealed = slice_subrange(raw, NONCE_LEN, raw.len());
    message_text(aes256_gcm_decrypt(key, &nonce, sealed))
}

/// Decrypts a payload under a key.
pub fn decrypt_json(key: &[u8; 32], payload_b64: &str) -> (outcome: Result<String, AppError>)
    ensures
        text_result(outcome) == decrypted(key@, payload_b64@),
{
    match decode_payload(payload_b64) {
        Ok(raw) => decrypt_payload(key, raw.as_slice()),
        Err(error) => Err(error),
    }
}

/// A payload whose decoded form is shorter than a nonce is rejected with a
/// cryptographic error, whatever the key.
pub proof fn law_short_payload_is_rejected(key: Seq<u8>, payload: Seq<char>)
    requires
        base64_decoded(payload) matches Ok(raw) && raw.len() < NONCE_LEN,
    ensures
        decrypted(key, payload) == Err::<Seq<char>, ErrorView>(
            ErrorView::Crypto("invalid encrypted payload"@),
        ),
{
}

/// A payload that fails the check made without a key fails decryption with
/// the same error under every key.
pub proof fn law_payload_is_checked_without_key(key: Seq<u8>, payload: Seq<char>)
    ensures
        decoded_payload(payload) matches Err(error) ==> decrypted(key, payload) == Err::<
            Seq<char>,
            ErrorView,
        >(error),
        decoded_payload(payload) matches Ok(raw) ==> decrypted(key, payload) == opened_payload(
            key,
            raw,
        ),
{
}

/// Decryption fails with cryptographic errors only.
pub proof fn law_decryption_fails_as_crypto(key: Seq<u8>, payload: Seq<char>)
    ensures
        decrypted(key, payload) matches Err(error) ==> error is Crypto,
{
}

} // verus!
