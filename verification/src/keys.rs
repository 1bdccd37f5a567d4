//! The key material of the users: a public key that anyone may look up, and
//! a private key that is kept wrapped under a key derived from its owner's
//! password and is unwrapped anew for every use.
//!
//! A protected private key is a salt, a nonce, and the key sealed with
//! AES-256-GCM under the Argon2 derivation of the password and the salt.

use argon2::Argon2;
use base64::engine::general_purpose::STANDARD;
use base64::Engine;
use vstd::prelude::*;
use vstd::slice::slice_subrange;
use vstd::utf8::encode_utf8;
use crate::cipher::{
    aead_open, aead_seal, aes_gcm_opened, aes_gcm_sealed, fresh_bytes, KEY_LEN, NONCE_LEN, TAG_LEN,
};

verus! {

/// Bytes of the salt that a protected private key starts with.
pub const SALT_LEN: usize = 16;

/// Bytes before the sealed key in a protected private key: salt and nonce.
pub const HEADER_LEN: usize = 28;

/// The shortest protected private key there can be: salt, nonce and tag.
pub const MIN_PROTECTED_LEN: usize = 44;

/// The bytes that `text` stands for in standard base64 with padding; `None`
/// where it is no such encoding.
pub uninterp spec fn base64_decoded(text: Seq<char>) -> Option<Seq<u8>>;

/// The 32-byte key that Argon2 with its default parameters derives from
/// `password` and `salt`; `None` where it refuses them.
pub uninterp spec fn argon2_key(password: Seq<u8>, salt: Seq<u8>) -> Option<Seq<u8>>;

/// A user as the service knows them.
#[derive(Debug)]
pub struct User {
    pub id: u128,
    pub name: String,
    pub email: String,
    /// The PKCS#1 DER public key in base64, once one is registered.
    pub public_key: Option<String>,
    /// The private key, protected under the user's password.
    pub private_key_material: Option<Vec<u8>>,
}

/// The mathematical content of a [`User`].
pub struct UserView {
    pub id: u128,
    pub name: Seq<char>,
    pub email: Seq<char>,
    pub public_key: Option<Seq<char>>,
    pub private_key_material: Option<Seq<u8>>,
}

impl View for User {
    type V = UserView;

    open spec fn view(&self) -> UserView {
        UserView {
            id: self.id,
            name: self.name@,
            email: self.email@,
            public_key: match self.public_key {
                Some(k) => Some(k@),
                None => None,
            },
            private_key_material: match self.private_key_material {
                Some(m) => Some(m@),
                None => None,
            },
        }
    }
}

impl UserView {
    /// The public key that can be encrypted for, if the user has one that
    /// decodes.
    pub open spec fn usable_public_key(self) -> Option<Seq<u8>> {
        match self.public_key {
            Some(text) => base64_decoded(text),
            None => None,
        }
    }
}

/// The first user of `s` with this address.
pub open spec fn first_with_email(s: Seq<UserView>, email: Seq<char>) -> Option<UserView>
    decreases s.len(),
{
    if s.len() == 0 {
        None
    } else if s[0].email == email {
        Some(s[0])
    } else {
        first_with_email(s.drop_first(), email)
    }
}

/// The first user of `s` with this identifier.
pub open spec fn first_with_id(s: Seq<UserView>, id: u128) -> Option<UserView>
    decreases s.len(),
{
    if s.len() == 0 {
        None
    } else if s[0].id == id {
        Some(s[0])
    } else {
        first_with_id(s.drop_first(), id)
    }
}

/// What a protected private key opens to under `password`: nothing where it
/// is shorter than salt, nonce and tag, nothing where the derivation
/// refuses, and else what the authenticated cipher recovers.
pub open spec fn unlocked(protected: Seq<u8>, password: Seq<u8>) -> Option<Seq<u8>> {
    if protected.len() < MIN_PROTECTED_LEN {
        None
    } else {
        match argon2_key(password, protected.subrange(0, SALT_LEN as int)) {
            Some(key) => aes_gcm_opened(
                key,
                protected.subrange(SALT_LEN as int, HEADER_LEN as int),
                protected.subrange(HEADER_LEN as int, protected.len() as int),
            ),
            None => None,
        }
    }
}

/// Why no key was handed out. Callers report both alike.
#[derive(Clone, Copy, Debug, PartialEq, Eq, Structural)]
pub enum KeyError {
    /// There is no such user, or the user has no such key.
    NotFound,
    /// The password is wrong, or the protected key is damaged.
    AuthenticationFailed,
}

/// The public key of user `id` in `s`, or why there is none.
pub open spec fn public_key_of(s: Seq<UserView>, id: u128) -> Result<Seq<u8>, KeyError> {
    match first_with_id(s, id) {
        Some(user) => match user.usable_public_key() {
            Some(key) => Ok(key),
            None => Err(KeyError::NotFound),
        },
        None => Err(KeyError::NotFound),
    }
}

/// The private key of user `id` in `s` under `password`, or why there is
/// none.
pub open spec fn private_key_of(s: Seq<UserView>, id: u128, password: Seq<u8>) -> Result<
    Seq<u8>,
    KeyError,
> {
    match first_with_id(s, id) {
        Some(user) => match user.private_key_material {
            Some(protected) => match unlocked(protected, password) {
                Some(key) => Ok(key),
                None => Err(KeyError::AuthenticationFailed),
            },
            None => Err(KeyError::NotFound),
        },
        None => Err(KeyError::NotFound),
    }
}

/// Calls `STANDARD.decode` of `base64`. Claims that the result is the named
/// function of the text.
#[verifier::external_body]
pub(crate) fn base64_decode(text: &str) -> (res: Option<Vec<u8>>)
    ensures
        res.is_some() == base64_decoded(text@).is_some(),
        res matches Some(bytes) ==> base64_decoded(text@) == Some(bytes@),
{
    STANDARD.decode(text).ok()
}

/// Calls `Argon2::default().hash_password_into` of `argon2` on a buffer of
/// `KEY_LEN` bytes. Claims that the result is the named function of
/// password and salt, and that a key has `KEY_LEN` bytes.
#[verifier::external_body]
fn derive_key(password: &[u8], salt: &[u8]) -> (res: Option<Vec<u8>>)
    ensures
        res.is_some() == argon2_key(password@, salt@).is_some(),
        res matches Some(key) ==> argon2_key(password@, salt@) == Some(key@) && key@.len()
            == KEY_LEN,
{
    let mut key = vec![0u8; KEY_LEN];
    match Argon2::default().hash_password_into(password, salt, &mut key) {
        Ok(()) => Some(key),
        Err(_) => None,
    }
}

/// Says whether two texts are the same.
pub fn same_text(a: &str, b: &str) -> (res: bool)
    ensures
        res == (a@ == b@),
{
    a.to_owned() == b.to_owned()
}

/// What protecting `private_key` under `password` gives for this salt and
/// this nonce: the salt, the nonce, and the key sealed under the derivation
/// of password and salt; nothing for a salt or a nonce of another length,
/// or where the derivation or the cipher refuses.
pub open spec fn protected_with(
    private_key: Seq<u8>,
    password: Seq<u8>,
    salt: Seq<u8>,
    nonce: Seq<u8>,
) -> Option<Seq<u8>> {
    if salt.len() != SALT_LEN || nonce.len() != NONCE_LEN {
        None
    } else {
        match argon2_key(password, salt) {
            Some(key) => match aes_gcm_sealed(key, nonce, private_key) {
                Some(sealed) => Some(salt + nonce + sealed),
                None => None,
            },
            None => None,
        }
    }
}

/// Protects `private_key` under `password` with the salt and the nonce that
/// it is given. The result is the salt, the nonce and the sealed key, and it
/// opens to `private_key` under the same password.
pub fn protect_private_key_with(private_key: &[u8], password: &str, salt: &[u8], nonce: &[u8]) -> (res:
    Option<Vec<u8>>)
    ensures
        match res {
            Some(protected) => {
                &&& protected_with(private_key@, encode_utf8(password@), salt@, nonce@) == Some(
                    protected@,
                )
                &&& protected@.len() == HEADER_LEN + private_key@.len() + TAG_LEN
                &&& unlocked(protected@, encode_utf8(password@)) == Some(private_key@)
            },
            None => protected_with(private_key@, encode_utf8(password@), salt@, nonce@).is_none(),
        },
{
    if salt.len() != SALT_LEN || nonce.len() != NONCE_LEN {
        return None;
    }
    let key = match derive_key(password.as_bytes(), salt) {
        Some(key) => key,
        None => return None,
    };
    let sealed = match aead_seal(key.as_slice(), nonce, private_key) {
        Some(sealed) => sealed,
        None => return None,
    };
    let mut protected: Vec<u8> = Vec::new();
    append(&mut protected, salt);
    append(&mut protected, nonce);
    append(&mut protected, sealed.as_slice());
    proof {
        let p = protected@;
        assert(p =~= salt@ + nonce@ + sealed@);
        assert(p.subrange(0, SALT_LEN as int) =~= salt@);
        assert(p.subrange(SALT_LEN as int, HEADER_LEN as int) =~= nonce@);
        assert(p.subrange(HEADER_LEN as int, p.len() as int) =~= sealed@);
    }
    Some(protected)
}

/// Protects `private_key` under `password`, with a fresh salt and a fresh
/// nonce. The generator decides whether there is a result. Whatever salt
/// and nonce it drew, a result is what `protect_private_key_with` makes of
/// them: it starts with that salt and that nonce, is longer than the key by
/// them and the tag, and opens to `private_key` under the same password.
pub fn protect_private_key(private_key: &[u8], password: &str) -> (res: Option<Vec<u8>>)
    ensures
        res matches Some(protected) ==> {
            &&& protected@.len() == HEADER_LEN + private_key@.len() + TAG_LEN
            &&& protected_with(
                private_key@,
                encode_utf8(password@),
                protected@.subrange(0, SALT_LEN as int),
                protected@.subrange(SALT_LEN as int, HEADER_LEN as int),
            ) == Some(protected@)
            &&& unlocked(protected@, encode_utf8(password@)) == Some(private_key@)
        },
{
    let salt = match fresh_bytes(SALT_LEN) {
        Some(salt) => salt,
        None => return None,
    };
    let nonce = match fresh_bytes(NONCE_LEN) {
        Some(nonce) => nonce,
        None => return None,
    };
    match protect_private_key_with(private_key, password, salt.as_slice(), nonce.as_slice()) {
        Some(protected) => {
            proof {
                let p = protected@;
                let key = argon2_key(encode_utf8(password@), salt@).unwrap();
                let sealed = aes_gcm_sealed(key, nonce@, private_key@).unwrap();
                assert(p =~= salt@ + nonce@ + sealed);
                assert(p.subrange(0, SALT_LEN as int) =~= salt@);
                assert(p.subrange(SALT_LEN as int, HEADER_LEN as int) =~= nonce@);
            }
            Some(protected)
        },
        None => None,
    }
}

/// Appends `tail` to `bytes`.
fn append(bytes: &mut Vec<u8>, tail: &[u8])
    ensures
        final(bytes)@ == old(bytes)@ + tail@,
{
    let mut i: usize = 0;
    while i < tail.len()
        invariant
            i <= tail@.len(),
            bytes@ == old(bytes)@ + tail@.take(i as int),
        decreases tail@.len() - i,
    {
        bytes.push(tail[i]);
        assert(tail@.take(i as int + 1) =~= tail@.take(i as int).push(tail@[i as int]));
        i += 1;
    }
    assert(tail@.take(i as int) =~= tail@);
}

/// Opens a protected private key with `password`. A blob shorter than
/// salt, nonce and tag is refused before any key is derived.
pub fn unlock_private_key(protected: &[u8], password: &str) -> (res: Option<Vec<u8>>)
    ensures
        match res {
            Some(key) => unlocked(protected@, encode_utf8(password@)) == Some(key@),
            None => unlocked(protected@, encode_utf8(password@)).is_none(),
        },
{
    if protected.len() < MIN_PROTECTED_LEN {
        return None;
    }
    let salt = slice_subrange(protected, 0, SALT_LEN);
    let nonce = slice_subrange(protected, SALT_LEN, HEADER_LEN);
    let sealed = slice_subrange(protected, HEADER_LEN, protected.len());
    let key = match derive_key(password.as_bytes(), salt) {
        Some(key) => key,
        None => return None,
    };
    aead_open(key.as_slice(), nonce, sealed)
}

/// The users of the service, in the order they were added.
#[derive(Debug)]
pub struct UserDirectory {
    pub users: Vec<User>,
}

impl View for UserDirectory {
    type V = Seq<UserView>;

    open spec fn view(&self) -> Seq<UserView> {
        Seq::new(self.users@.len(), |i: int| self.users@[i]@)
    }
}

impl UserDirectory {
    /// A directory without users.
    pub fn new() -> (directory: UserDirectory)
        ensures
            directory@ == Seq::<UserView>::empty(),
    {
        let directory = UserDirectory { users: Vec::new() };
        assert(directory@ =~= Seq::<UserView>::empty());
        directory
    }

    /// Adds `user` behind the users already there.
    pub fn add(&mut self, user: User)
        ensures
            final(self)@ == old(self)@.push(user@),
    {
        self.users.push(user);
        assert(self@ =~= old(self)@.push(user@));
    }

    /// The first user with this address.
    pub fn get_user_by_email(&self, email: &str) -> (res: Option<&User>)
        ensures
            match res {
                Some(user) => first_with_email(self@, email@) == Some(user@),
                None => first_with_email(self@, email@).is_none(),
            },
    {
        let mut i: usize = 0;
        assert(self@.skip(0) =~= self@);
        while i < self.users.len()
            invariant
                i <= self.users.len(),
                first_with_email(self@, email@) == first_with_email(self@.skip(i as int), email@),
            decreases self.users.len() - i,
        {
            assert(self@.skip(i as int).drop_first() =~= self@.skip(i as int + 1));
            assert(self@.skip(i as int)[0] == self@[i as int]);
            if same_text(self.users[i].email.as_str(), email) {
                return Some(&self.users[i]);
            }
            i += 1;
        }
        None
    }

    /// The first user with this identifier.
    pub fn get_user_by_id(&self, id: u128) -> (res: Option<&User>)
        ensures
            match res {
                Some(user) => first_with_id(self@, id) == Some(user@),
                None => first_with_id(self@, id).is_none(),
            },
    {
        let mut i: usize = 0;
        assert(self@.skip(0) =~= self@);
        while i < self.users.len()
            invariant
                i <= self.users.len(),
                first_with_id(self@, id) == first_with_id(self@.skip(i as int), id),
            decreases self.users.len() - i,
        {
            assert(self@.skip(i as int).drop_first() =~= self@.skip(i as int + 1));
            assert(self@.skip(i as int)[0] == self@[i as int]);
            if self.users[i].id == id {
                return Some(&self.users[i]);
            }
            i += 1;
        }
        None
    }

    /// The public key of a user, decoded. A user that is not there, has no
    /// key or has one that does not decode is `NotFound`.
    pub fn lookup_public_key(&self, user_id: u128) -> (res: Result<Vec<u8>, KeyError>)
        ensures
            match res {
                Ok(key) => public_key_of(self@, user_id) == Ok::<Seq<u8>, KeyError>(key@),
                Err(e) => public_key_of(self@, user_id) == Err::<Seq<u8>, KeyError>(e),
            },
    {
        match self.get_user_by_id(user_id) {
            Some(user) => decode_public_key(user),
            None => Err(KeyError::NotFound),
        }
    }

    /// The private key of a user, unwrapped with their password for this one
    /// use. A user that is not there or has no key is `NotFound`; a wrong
    /// password or a damaged blob is `AuthenticationFailed`.
    pub fn unwrap_private_key(&self, user_id: u128, password: &str) -> (res: Result<
        Vec<u8>,
        KeyError,
    >)
        ensures
            match res {
                Ok(key) => private_key_of(self@, user_id, encode_utf8(password@)) == Ok::<
                    Seq<u8>,
                    KeyError,
                >(key@),
                Err(e) => private_key_of(self@, user_id, encode_utf8(password@)) == Err::<
                    Seq<u8>,
                    KeyError,
                >(e),
            },
    {
        let user = match self.get_user_by_id(user_id) {
            Some(user) => user,
            None => return Err(KeyError::NotFound),
        };
        match &user.private_key_material {
            Some(protected) => match unlock_private_key(protected.as_slice(), password) {
                Some(key) => Ok(key),
                None => Err(KeyError::AuthenticationFailed),
            },
            None => Err(KeyError::NotFound),
        }
    }
}

/// The public key of `user`, decoded from its base64 text.
pub fn decode_public_key(user: &User) -> (res: Result<Vec<u8>, KeyError>)
    ensures
        match res {
            Ok(key) => user@.usable_public_key() == Some(key@),
            Err(e) => e == KeyError::NotFound && user@.usable_public_key().is_none(),
        },
{
    match &user.public_key {
        Some(text) => match base64_decode(text.as_str()) {
            Some(key) => Ok(key),
            None => Err(KeyError::NotFound),
        },
        None => Err(KeyError::NotFound),
    }
}

/// A protected key opens to the key it was made from, under the password it
/// was made with.
pub proof fn lemma_protected_key_round_trip(
    s: Seq<UserView>,
    id: u128,
    user: UserView,
    protected: Seq<u8>,
    private_key: Seq<u8>,
    password: Seq<u8>,
)
    requires
        first_with_id(s, id) == Some(user),
        user.private_key_material == Some(protected),
        unlocked(protected, password) == Some(private_key),
    ensures
        private_key_of(s, id, password) == Ok::<Seq<u8>, KeyError>(private_key),
{
}

} // verus!
