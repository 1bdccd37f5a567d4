//! Envelope encryption: a payload is sealed under a fresh symmetric key, and
//! that key is wrapped under the recipient's RSA public key.
//!
//! Keys travel as PKCS#1 DER. The symmetric cipher is AES-256-GCM, the
//! wrapping is RSA-OAEP with SHA-256. What is wrapped is the symmetric key
//! followed by the nonce.

use aes_gcm::aead::rand_core::RngCore;
use aes_gcm::aead::{Aead, KeyInit, OsRng};
use rsa::pkcs1::{
    DecodeRsaPrivateKey, DecodeRsaPublicKey, EncodeRsaPrivateKey, EncodeRsaPublicKey,
};
use vstd::prelude::*;
use vstd::slice::{slice_subrange, slice_to_vec};

verus! {

/// Bytes of a symmetric key.
pub const KEY_LEN: usize = 32;

/// Bytes of a nonce.
pub const NONCE_LEN: usize = 12;

/// Bytes of the authentication tag that ends every ciphertext.
pub const TAG_LEN: usize = 16;

/// Bytes of what is wrapped: the key, then the nonce.
pub const SECRET_LEN: usize = 44;

/// The shortest wrapped key there can be: OAEP with SHA-256 needs 66 bytes
/// of the modulus beside the 44 it carries.
pub const MIN_WRAPPED_LEN: usize = 110;

/// The longest payload the symmetric cipher takes.
pub const MAX_PLAINTEXT_LEN: u64 = 0x10_0000_0000;

/// What AES-256-GCM makes of `plaintext` under `key` and `nonce`, with no
/// associated data: the encrypted bytes followed by the tag; `None` where it
/// refuses.
pub uninterp spec fn aes_gcm_sealed(key: Seq<u8>, nonce: Seq<u8>, plaintext: Seq<u8>) -> Option<
    Seq<u8>,
>;

/// What AES-256-GCM recovers from `ciphertext` under `key` and `nonce`;
/// `None` where the tag does not verify.
pub uninterp spec fn aes_gcm_opened(key: Seq<u8>, nonce: Seq<u8>, ciphertext: Seq<u8>) -> Option<
    Seq<u8>,
>;

/// What RSA-OAEP decryption with the PKCS#1 DER private key `private_key`
/// recovers from `wrapped`; `None` where the key or the padding is bad.
pub uninterp spec fn rsa_oaep_opened(private_key: Seq<u8>, wrapped: Seq<u8>) -> Option<Seq<u8>>;

/// The PKCS#1 DER public key that belongs to the PKCS#1 DER private key
/// `private_key`; `None` where that is no valid private key.
pub uninterp spec fn rsa_public_part(private_key: Seq<u8>) -> Option<Seq<u8>>;

/// Whether the PKCS#1 DER private key `private_key` is a sound RSA key: its
/// modulus is the product of two distinct primes and its exponents undo each
/// other. Parsing a key does not test this; generating one establishes it.
pub uninterp spec fn rsa_sound_key(private_key: Seq<u8>) -> bool;

/// `public_key` is the public part of `private_key`.
pub open spec fn is_public_part(public_key: Seq<u8>, private_key: Seq<u8>) -> bool {
    rsa_public_part(private_key) == Some(public_key)
}

/// `public_key` and `private_key` are the two halves of one sound RSA key.
pub open spec fn key_pair(public_key: Seq<u8>, private_key: Seq<u8>) -> bool {
    rsa_sound_key(private_key) && is_public_part(public_key, private_key)
}

/// `wrapped` carries `secret` to the holder of `public_key`: every private
/// key that makes a key pair with it unwraps `wrapped` to `secret`.
pub open spec fn wraps(public_key: Seq<u8>, secret: Seq<u8>, wrapped: Seq<u8>) -> bool {
    forall|private_key: Seq<u8>|
        key_pair(public_key, private_key) ==> #[trigger] rsa_oaep_opened(private_key, wrapped)
            == Some(secret)
}

/// The wrapped secret, taken apart: the key and the nonce, where the length
/// is right.
pub open spec fn secret_parts(secret: Seq<u8>) -> Option<(Seq<u8>, Seq<u8>)> {
    if secret.len() == SECRET_LEN {
        Some((secret.subrange(0, KEY_LEN as int), secret.subrange(KEY_LEN as int, SECRET_LEN as int)))
    } else {
        None
    }
}

/// What decryption yields: nothing for a blob below its structural minimum,
/// nothing where the key does not unwrap to a key and a nonce, and else what
/// the authenticated cipher recovers.
pub open spec fn opened(ciphertext: Seq<u8>, wrapped_key: Seq<u8>, private_key: Seq<u8>) -> Option<
    Seq<u8>,
> {
    if ciphertext.len() < TAG_LEN || wrapped_key.len() < MIN_WRAPPED_LEN {
        None
    } else {
        match rsa_oaep_opened(private_key, wrapped_key) {
            Some(secret) => match secret_parts(secret) {
                Some((key, nonce)) => aes_gcm_opened(key, nonce, ciphertext),
                None => None,
            },
            None => None,
        }
    }
}

/// Two ciphertexts of one length that differ at most in their tags.
pub open spec fn same_body(ciphertext: Seq<u8>, other: Seq<u8>) -> bool {
    &&& ciphertext.len() >= TAG_LEN
    &&& other.len() == ciphertext.len()
    &&& other.subrange(0, other.len() - TAG_LEN) == ciphertext.subrange(
        0,
        ciphertext.len() - TAG_LEN,
    )
}

/// The tag of `ciphertext` is the only one that its body is accepted with
/// under `key` and `nonce`: no other ciphertext with the same body opens.
pub open spec fn tag_bound(key: Seq<u8>, nonce: Seq<u8>, ciphertext: Seq<u8>) -> bool {
    forall|other: Seq<u8>|
        same_body(ciphertext, other) && other != ciphertext ==> (#[trigger] aes_gcm_opened(
            key,
            nonce,
            other,
        )).is_none()
}

/// `ciphertext` and `wrapped_key` are the envelope of `plaintext` for the
/// holder of `public_key` that is made with `key` and `nonce`: the
/// ciphertext is the payload sealed under them, and the wrapped key carries
/// the key followed by the nonce.
pub open spec fn sealed_with(
    plaintext: Seq<u8>,
    public_key: Seq<u8>,
    key: Seq<u8>,
    nonce: Seq<u8>,
    ciphertext: Seq<u8>,
    wrapped_key: Seq<u8>,
) -> bool {
    &&& key.len() == KEY_LEN
    &&& nonce.len() == NONCE_LEN
    &&& aes_gcm_sealed(key, nonce, plaintext) == Some(ciphertext)
    &&& aes_gcm_opened(key, nonce, ciphertext) == Some(plaintext)
    &&& tag_bound(key, nonce, ciphertext)
    &&& ciphertext.len() == plaintext.len() + TAG_LEN
    &&& wrapped_key.len() >= MIN_WRAPPED_LEN
    &&& wraps(public_key, key + nonce, wrapped_key)
}

/// `ciphertext` and `wrapped_key` are an envelope of `plaintext` for the
/// holder of `public_key`: they are the envelope made with some key and
/// some nonce.
pub open spec fn sealed_for(
    plaintext: Seq<u8>,
    public_key: Seq<u8>,
    ciphertext: Seq<u8>,
    wrapped_key: Seq<u8>,
) -> bool {
    exists|key: Seq<u8>, nonce: Seq<u8>| #[trigger]
        sealed_with(plaintext, public_key, key, nonce, ciphertext, wrapped_key)
}

/// The one way either direction fails. Which stage refused is not told.
#[derive(Clone, Copy, Debug, PartialEq, Eq, Structural)]
pub enum CipherError {
    EncryptionFailed,
    DecryptionFailed,
}

/// An encrypted payload with the key that opens it, wrapped for one
/// recipient.
#[derive(Debug)]
pub struct Envelope {
    pub ciphertext: Vec<u8>,
    pub wrapped_key: Vec<u8>,
}

/// The two halves of an RSA key, each as PKCS#1 DER.
#[derive(Debug)]
pub struct KeyPair {
    pub public_key: Vec<u8>,
    pub private_key: Vec<u8>,
}

/// The smallest modulus, in bits, that a key is generated with.
pub const MIN_KEY_BITS: usize = 1024;

/// The largest modulus, in bits, that a key is generated with.
pub const MAX_KEY_BITS: usize = 4096;

/// Calls `OsRng::try_fill_bytes` of `rand_core` on a zeroed buffer of `len`
/// bytes. Claims only the length of what comes back; `None` where the
/// system's generator fails.
#[verifier::external_body]
pub(crate) fn fresh_bytes(len: usize) -> (res: Option<Vec<u8>>)
    ensures
        res matches Some(bytes) ==> bytes@.len() == len,
{
    let mut bytes = vec![0u8; len];
    match OsRng.try_fill_bytes(&mut bytes) {
        Ok(()) => Some(bytes),
        Err(_) => None,
    }
}

/// Calls `Aes256Gcm::encrypt` of `aes-gcm`. Claims that the result is the
/// named function of key, nonce and payload; that the call succeeds for a
/// payload within the cipher's limit; that the ciphertext is the payload's
/// length plus the tag; that opening it under the same key and nonce gives
/// the payload back; and that its body opens with no other tag.
#[verifier::external_body]
pub(crate) fn aead_seal(key: &[u8], nonce: &[u8], plaintext: &[u8]) -> (res: Option<Vec<u8>>)
    requires
        key@.len() == KEY_LEN,
        nonce@.len() == NONCE_LEN,
    ensures
        res.is_some() == aes_gcm_sealed(key@, nonce@, plaintext@).is_some(),
        res matches Some(sealed) ==> {
            &&& aes_gcm_sealed(key@, nonce@, plaintext@) == Some(sealed@)
            &&& sealed@.len() == plaintext@.len() + TAG_LEN
            &&& aes_gcm_opened(key@, nonce@, sealed@) == Some(plaintext@)
            &&& tag_bound(key@, nonce@, sealed@)
        },
        plaintext@.len() <= MAX_PLAINTEXT_LEN ==> res.is_some(),
{
    let cipher = aes_gcm::Aes256Gcm::new(aes_gcm::Key::<aes_gcm::Aes256Gcm>::from_slice(key));
    cipher.encrypt(aes_gcm::Nonce::from_slice(nonce), plaintext).ok()
}

/// Calls `Aes256Gcm::decrypt` of `aes-gcm`. Claims that the result is the
/// named function of key, nonce and ciphertext; that what is recovered is
/// the ciphertext's length less the tag; and that a ciphertext that opens
/// has the only tag its body opens with.
#[verifier::external_body]
pub(crate) fn aead_open(key: &[u8], nonce: &[u8], ciphertext: &[u8]) -> (res: Option<Vec<u8>>)
    requires
        key@.len() == KEY_LEN,
        nonce@.len() == NONCE_LEN,
    ensures
        res.is_some() == aes_gcm_opened(key@, nonce@, ciphertext@).is_some(),
        res matches Some(plain) ==> {
            &&& aes_gcm_opened(key@, nonce@, ciphertext@) == Some(plain@)
            &&& plain@.len() + TAG_LEN == ciphertext@.len()
            &&& tag_bound(key@, nonce@, ciphertext@)
        },
{
    let cipher = aes_gcm::Aes256Gcm::new(aes_gcm::Key::<aes_gcm::Aes256Gcm>::from_slice(key));
    cipher.decrypt(aes_gcm::Nonce::from_slice(nonce), ciphertext).ok()
}

/// Calls `RsaPublicKey::from_pkcs1_der` and `RsaPublicKey::encrypt` of `rsa`
/// with OAEP over SHA-256 and the system's generator. The padding is
/// random, so the result has no name; claims that decryption with any sound
/// private key whose public part is `public_key` recovers `secret`. Of a
/// private key that merely parses nothing is claimed.
#[verifier::external_body]
fn rsa_wrap(public_key: &[u8], secret: &[u8]) -> (res: Option<Vec<u8>>)
    ensures
        res matches Some(wrapped) ==> wraps(public_key@, secret@, wrapped@),
{
    let key = match rsa::RsaPublicKey::from_pkcs1_der(public_key) {
        Ok(key) => key,
        Err(_) => return None,
    };
    key.encrypt(&mut OsRng, rsa::Oaep::new::<rsa::sha2::Sha256>(), secret).ok()
}

/// Calls `RsaPrivateKey::new` of `rsa` with the system's generator, then
/// `to_pkcs1_der` on the key and on its public part. Claims that a key
/// that comes back is sound and that the public key is its public part.
#[verifier::external_body]
fn generate_rsa_key(bits: usize) -> (res: Option<KeyPair>)
    requires
        MIN_KEY_BITS <= bits <= MAX_KEY_BITS,
    ensures
        res matches Some(pair) ==> rsa_sound_key(pair.private_key@) && rsa_public_part(
            pair.private_key@,
        ) == Some(pair.public_key@),
{
    let key = match rsa::RsaPrivateKey::new(&mut OsRng, bits) {
        Ok(key) => key,
        Err(_) => return None,
    };
    let private_key = match key.to_pkcs1_der() {
        Ok(document) => document.as_bytes().to_vec(),
        Err(_) => return None,
    };
    match key.to_public_key().to_pkcs1_der() {
        Ok(document) => Some(KeyPair { public_key: document.into_vec(), private_key }),
        Err(_) => None,
    }
}

/// Calls `RsaPrivateKey::from_pkcs1_der` and `RsaPrivateKey::decrypt` of
/// `rsa` with OAEP over SHA-256. Claims that the result is the named
/// function of the key and the wrapped bytes.
#[verifier::external_body]
fn rsa_unwrap(private_key: &[u8], wrapped: &[u8]) -> (res: Option<Vec<u8>>)
    ensures
        res.is_some() == rsa_oaep_opened(private_key@, wrapped@).is_some(),
        res matches Some(secret) ==> rsa_oaep_opened(private_key@, wrapped@) == Some(secret@),
{
    let key = match rsa::RsaPrivateKey::from_pkcs1_der(private_key) {
        Ok(key) => key,
        Err(_) => return None,
    };
    key.decrypt(rsa::Oaep::new::<rsa::sha2::Sha256>(), wrapped).ok()
}

/// Calls `RsaPrivateKey::from_pkcs1_der`, `to_public_key` and
/// `to_pkcs1_der` of `rsa`. Claims that the result is the named function of
/// the private key.
#[verifier::external_body]
fn public_part(private_key: &[u8]) -> (res: Option<Vec<u8>>)
    ensures
        res.is_some() == rsa_public_part(private_key@).is_some(),
        res matches Some(public_key) ==> rsa_public_part(private_key@) == Some(public_key@),
{
    let key = match rsa::RsaPrivateKey::from_pkcs1_der(private_key) {
        Ok(key) => key,
        Err(_) => return None,
    };
    match key.to_public_key().to_pkcs1_der() {
        Ok(document) => Some(document.into_vec()),
        Err(_) => None,
    }
}

/// The key followed by the nonce: the secret that is wrapped.
pub fn join_secret(key: &[u8], nonce: &[u8]) -> (secret: Vec<u8>)
    ensures
        secret@ == key@ + nonce@,
{
    let mut secret: Vec<u8> = slice_to_vec(key);
    let mut i: usize = 0;
    while i < nonce.len()
        invariant
            i <= nonce@.len(),
            secret@ == key@ + nonce@.take(i as int),
        decreases nonce@.len() - i,
    {
        secret.push(nonce[i]);
        assert(nonce@.take(i as int + 1) =~= nonce@.take(i as int).push(nonce@[i as int]));
        i += 1;
    }
    assert(nonce@.take(i as int) =~= nonce@);
    secret
}

/// Takes an unwrapped secret apart into key and nonce. A secret of any
/// other length than `SECRET_LEN` is refused.
pub fn split_secret(secret: &[u8]) -> (parts: Option<(Vec<u8>, Vec<u8>)>)
    ensures
        match parts {
            Some((key, nonce)) => secret_parts(secret@) == Some((key@, nonce@)),
            None => secret_parts(secret@).is_none(),
        },
{
    if secret.len() != SECRET_LEN {
        return None;
    }
    let key = slice_to_vec(slice_subrange(secret, 0, KEY_LEN));
    let nonce = slice_to_vec(slice_subrange(secret, KEY_LEN, SECRET_LEN));
    Some((key, nonce))
}

/// Says whether `public_key` is the public part of `private_key`. Whether
/// the private key is sound is not tested: no test can tell.
pub fn is_public_key_of(public_key: &[u8], private_key: &[u8]) -> (res: bool)
    ensures
        res == is_public_part(public_key@, private_key@),
{
    match public_part(private_key) {
        Some(derived) => same_bytes(derived.as_slice(), public_key),
        None => false,
    }
}

/// Generates a key pair with a modulus of `bits` bits. A size outside
/// `MIN_KEY_BITS` to `MAX_KEY_BITS` is refused; within it the generator
/// decides, and what comes back is a key pair.
pub fn new_key_pair(bits: usize) -> (res: Option<KeyPair>)
    ensures
        res matches Some(pair) ==> key_pair(pair.public_key@, pair.private_key@),
        (bits < MIN_KEY_BITS || bits > MAX_KEY_BITS) ==> res.is_none(),
{
    if bits < MIN_KEY_BITS || bits > MAX_KEY_BITS {
        return None;
    }
    generate_rsa_key(bits)
}

/// Compares two byte strings without stopping at the first difference.
pub fn same_bytes(a: &[u8], b: &[u8]) -> (res: bool)
    ensures
        res == (a@ == b@),
{
    if a.len() != b.len() {
        return false;
    }
    let mut same = true;
    let mut i: usize = 0;
    assert(a@.take(0) =~= b@.take(0));
    while i < a.len()
        invariant
            i <= a@.len(),
            a@.len() == b@.len(),
            same == (a@.take(i as int) == b@.take(i as int)),
        decreases a@.len() - i,
    {
        let equal_here = a[i] == b[i];
        proof {
            let a0 = a@.take(i as int);
            let b0 = b@.take(i as int);
            let a1 = a@.take(i as int + 1);
            let b1 = b@.take(i as int + 1);
            assert(a1 =~= a0.push(a@[i as int]));
            assert(b1 =~= b0.push(b@[i as int]));
            if a1 == b1 {
                assert(a1.drop_last() =~= a0);
                assert(b1.drop_last() =~= b0);
                assert(a1.last() == b1.last());
            }
        }
        same = same && equal_here;
        i += 1;
    }
    assert(a@.take(i as int) =~= a@);
    assert(b@.take(i as int) =~= b@);
    same
}

/// Makes the envelope of a ciphertext and of what wrapping gave: there is
/// one exactly when a wrapped key came back and has at least
/// `MIN_WRAPPED_LEN` bytes.
pub fn finish_envelope(ciphertext: Vec<u8>, wrapped: Option<Vec<u8>>) -> (res: Result<
    Envelope,
    CipherError,
>)
    ensures
        match res {
            Ok(envelope) => {
                &&& wrapped matches Some(wrapped_key) && wrapped_key@.len() >= MIN_WRAPPED_LEN
                    && envelope.wrapped_key@ == wrapped_key@
                &&& envelope.ciphertext@ == ciphertext@
            },
            Err(e) => {
                &&& e == CipherError::EncryptionFailed
                &&& !(wrapped matches Some(wrapped_key) && wrapped_key@.len() >= MIN_WRAPPED_LEN)
            },
        },
{
    match wrapped {
        Some(wrapped_key) => {
            if wrapped_key.len() < MIN_WRAPPED_LEN {
                Err(CipherError::EncryptionFailed)
            } else {
                Ok(Envelope { ciphertext, wrapped_key })
            }
        },
        None => Err(CipherError::EncryptionFailed),
    }
}

/// Encrypts `plaintext` for the holder of `recipient_public_key` with the
/// symmetric key and the nonce that it is given. The ciphertext is the
/// payload sealed under them; the wrapped key carries the key followed by
/// the nonce. A key or a nonce of another length, and a payload that the
/// cipher refuses, fail; beyond that the wrapping decides.
pub fn encrypt_with(plaintext: &[u8], recipient_public_key: &[u8], key: &[u8], nonce: &[u8]) -> (res:
    Result<Envelope, CipherError>)
    ensures
        match res {
            Ok(envelope) => sealed_with(
                plaintext@,
                recipient_public_key@,
                key@,
                nonce@,
                envelope.ciphertext@,
                envelope.wrapped_key@,
            ),
            Err(e) => e == CipherError::EncryptionFailed,
        },
        (key@.len() != KEY_LEN || nonce@.len() != NONCE_LEN || aes_gcm_sealed(
            key@,
            nonce@,
            plaintext@,
        ).is_none()) ==> res.is_err(),
{
    if key.len() != KEY_LEN || nonce.len() != NONCE_LEN {
        return Err(CipherError::EncryptionFailed);
    }
    let ciphertext = match aead_seal(key, nonce, plaintext) {
        Some(ciphertext) => ciphertext,
        None => return Err(CipherError::EncryptionFailed),
    };
    let secret = join_secret(key, nonce);
    let wrapped = rsa_wrap(recipient_public_key, secret.as_slice());
    finish_envelope(ciphertext, wrapped)
}

/// Encrypts `plaintext` for the holder of `recipient_public_key`. Every
/// call draws a new symmetric key and a new nonce and encrypts with them as
/// `encrypt_with` does. The generator and the wrapping decide whether there
/// is a result; a result is the envelope made with the key and the nonce
/// that were drawn.
pub fn encrypt_for(plaintext: &[u8], recipient_public_key: &[u8]) -> (res: Result<
    Envelope,
    CipherError,
>)
    ensures
        match res {
            Ok(envelope) => {
                &&& sealed_for(
                    plaintext@,
                    recipient_public_key@,
                    envelope.ciphertext@,
                    envelope.wrapped_key@,
                )
                &&& envelope.ciphertext@.len() == plaintext@.len() + TAG_LEN
                &&& envelope.wrapped_key@.len() >= MIN_WRAPPED_LEN
            },
            Err(e) => e == CipherError::EncryptionFailed,
        },
{
    let key = match fresh_bytes(KEY_LEN) {
        Some(key) => key,
        None => return Err(CipherError::EncryptionFailed),
    };
    let nonce = match fresh_bytes(NONCE_LEN) {
        Some(nonce) => nonce,
        None => return Err(CipherError::EncryptionFailed),
    };
    encrypt_with(plaintext, recipient_public_key, key.as_slice(), nonce.as_slice())
}

/// Decrypts an envelope with the recipient's private key. A blob below its
/// structural minimum is refused before any key is touched; after that a
/// failure to unwrap, a secret of the wrong length and a tag that does not
/// verify all end in the same `DecryptionFailed`. Where a ciphertext is
/// opened, no ciphertext with the same body and another tag would be.
pub fn decrypt_with(ciphertext: &[u8], wrapped_key: &[u8], recipient_private_key: &[u8]) -> (res:
    Result<Vec<u8>, CipherError>)
    ensures
        match res {
            Ok(plaintext) => {
                &&& opened(ciphertext@, wrapped_key@, recipient_private_key@) == Some(plaintext@)
                &&& forall|other: Seq<u8>|
                    same_body(ciphertext@, other) && other != ciphertext@ ==> (#[trigger] opened(
                        other,
                        wrapped_key@,
                        recipient_private_key@,
                    )).is_none()
            },
            Err(e) => e == CipherError::DecryptionFailed && opened(
                ciphertext@,
                wrapped_key@,
                recipient_private_key@,
            ).is_none(),
        },
{
    if ciphertext.len() < TAG_LEN || wrapped_key.len() < MIN_WRAPPED_LEN {
        return Err(CipherError::DecryptionFailed);
    }
    let secret = match rsa_unwrap(recipient_private_key, wrapped_key) {
        Some(secret) => secret,
        None => return Err(CipherError::DecryptionFailed),
    };
    let (key, nonce) = match split_secret(secret.as_slice()) {
        Some(parts) => parts,
        None => return Err(CipherError::DecryptionFailed),
    };
    match aead_open(key.as_slice(), nonce.as_slice(), ciphertext) {
        Some(plaintext) => Ok(plaintext),
        None => Err(CipherError::DecryptionFailed),
    }
}

/// Round trip: what was sealed for a public key is what the private key of
/// the same key pair opens.
pub proof fn lemma_round_trip(
    plaintext: Seq<u8>,
    public_key: Seq<u8>,
    private_key: Seq<u8>,
    ciphertext: Seq<u8>,
    wrapped_key: Seq<u8>,
)
    requires
        sealed_for(plaintext, public_key, ciphertext, wrapped_key),
        key_pair(public_key, private_key),
    ensures
        opened(ciphertext, wrapped_key, private_key) == Some(plaintext),
{
    let (key, nonce) = choose|key: Seq<u8>, nonce: Seq<u8>| #[trigger]
        sealed_with(plaintext, public_key, key, nonce, ciphertext, wrapped_key);
    let secret = key + nonce;
    assert(rsa_oaep_opened(private_key, wrapped_key) == Some(secret));
    assert(secret.subrange(0, KEY_LEN as int) =~= key);
    assert(secret.subrange(KEY_LEN as int, SECRET_LEN as int) =~= nonce);
}

/// Non-reuse: two envelopes for the same recipient that were made with
/// different draws of key and nonce have different wrapped keys, and so are
/// different envelopes, whatever the payloads.
pub proof fn lemma_different_draws_differ(
    public_key: Seq<u8>,
    private_key: Seq<u8>,
    first_plaintext: Seq<u8>,
    first_key: Seq<u8>,
    first_nonce: Seq<u8>,
    first_ciphertext: Seq<u8>,
    first_wrapped_key: Seq<u8>,
    second_plaintext: Seq<u8>,
    second_key: Seq<u8>,
    second_nonce: Seq<u8>,
    second_ciphertext: Seq<u8>,
    second_wrapped_key: Seq<u8>,
)
    requires
        key_pair(public_key, private_key),
        sealed_with(
            first_plaintext,
            public_key,
            first_key,
            first_nonce,
            first_ciphertext,
            first_wrapped_key,
        ),
        sealed_with(
            second_plaintext,
            public_key,
            second_key,
            second_nonce,
            second_ciphertext,
            second_wrapped_key,
        ),
        first_key != second_key || first_nonce != second_nonce,
    ensures
        first_wrapped_key != second_wrapped_key,
        (first_ciphertext, first_wrapped_key) != (second_ciphertext, second_wrapped_key),
{
    let first = first_key + first_nonce;
    let second = second_key + second_nonce;
    assert(rsa_oaep_opened(private_key, first_wrapped_key) == Some(first));
    assert(rsa_oaep_opened(private_key, second_wrapped_key) == Some(second));
    if first == second {
        assert(first.subrange(0, KEY_LEN as int) =~= first_key);
        assert(second.subrange(0, KEY_LEN as int) =~= second_key);
        assert(first.subrange(KEY_LEN as int, SECRET_LEN as int) =~= first_nonce);
        assert(second.subrange(KEY_LEN as int, SECRET_LEN as int) =~= second_nonce);
    }
}

/// The draw of an envelope is told by its wrapped key: an envelope for a
/// recipient with a key pair was made with one key and one nonce only.
pub proof fn lemma_one_draw_per_envelope(
    plaintext: Seq<u8>,
    public_key: Seq<u8>,
    private_key: Seq<u8>,
    ciphertext: Seq<u8>,
    wrapped_key: Seq<u8>,
    key: Seq<u8>,
    nonce: Seq<u8>,
    other_key: Seq<u8>,
    other_nonce: Seq<u8>,
)
    requires
        key_pair(public_key, private_key),
        sealed_with(plaintext, public_key, key, nonce, ciphertext, wrapped_key),
        sealed_with(plaintext, public_key, other_key, other_nonce, ciphertext, wrapped_key),
    ensures
        key == other_key,
        nonce == other_nonce,
{
    if key != other_key || nonce != other_nonce {
        lemma_different_draws_differ(
            public_key,
            private_key,
            plaintext,
            key,
            nonce,
            ciphertext,
            wrapped_key,
            plaintext,
            other_key,
            other_nonce,
            ciphertext,
            wrapped_key,
        );
    }
}

/// A truncated blob is never opened: below the structural minimum of
/// either part, decryption yields nothing whatever the key.
pub proof fn lemma_truncated_is_refused(
    ciphertext: Seq<u8>,
    wrapped_key: Seq<u8>,
    private_key: Seq<u8>,
)
    requires
        ciphertext.len() < TAG_LEN || wrapped_key.len() < MIN_WRAPPED_LEN,
    ensures
        opened(ciphertext, wrapped_key, private_key).is_none(),
{
}

/// A changed tag is detected: of an envelope that was sealed for a
/// recipient, no ciphertext that keeps the body and differs in the tag is
/// opened by the recipient's private key.
pub proof fn lemma_changed_tag_is_refused(
    plaintext: Seq<u8>,
    public_key: Seq<u8>,
    private_key: Seq<u8>,
    ciphertext: Seq<u8>,
    wrapped_key: Seq<u8>,
    changed: Seq<u8>,
)
    requires
        sealed_for(plaintext, public_key, ciphertext, wrapped_key),
        key_pair(public_key, private_key),
        same_body(ciphertext, changed),
        changed != ciphertext,
    ensures
        opened(changed, wrapped_key, private_key).is_none(),
{
    let (key, nonce) = choose|key: Seq<u8>, nonce: Seq<u8>| #[trigger]
        sealed_with(plaintext, public_key, key, nonce, ciphertext, wrapped_key);
    let secret = key + nonce;
    assert(rsa_oaep_opened(private_key, wrapped_key) == Some(secret));
    assert(secret.subrange(0, KEY_LEN as int) =~= key);
    assert(secret.subrange(KEY_LEN as int, SECRET_LEN as int) =~= nonce);
    assert(aes_gcm_opened(key, nonce, changed).is_none());
}

} // verus!
