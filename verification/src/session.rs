//! The key that signs and encrypts session cookies.

use vstd::prelude::*;
use vstd::utf8::encode_utf8;
use crate::error::StartupError;
use crate::material::CertificateMaterial;

verus! {

/// The number of bytes in a session key.
pub const KEY_LEN: usize = 64;

/// A session key: 64 bytes, the first half for signing and the second for
/// encryption. It is computed once, before the server replicates its
/// workers, and every worker is handed a copy.
#[derive(Clone, Copy)]
pub struct SessionKey {
    bytes: [u8; 64],
}

impl View for SessionKey {
    type V = Seq<u8>;

    closed spec fn view(&self) -> Seq<u8> {
        self.bytes@
    }
}

impl SessionKey {
    /// The key's bytes.
    pub fn master(&self) -> (r: &[u8; 64])
        ensures
            r@ == self@,
            self@.len() == KEY_LEN,
    {
        &self.bytes
    }

    /// A session key has 64 bytes.
    pub proof fn lemma_len(self)
        ensures
            self@.len() == KEY_LEN,
    {
    }

    /// The key that the server's private key gives: the first 64 bytes of
    /// its text. A text with fewer bytes gives `ServerKeyTooShort`.
    pub fn from_server_key(material: &CertificateMaterial) -> (r: Result<SessionKey, StartupError>)
        ensures
            key_bytes(r) == derived_key(encode_utf8(material@.private_key)),
    {
        let text = material.private_key();
        let bytes = text.as_str().as_bytes();
        if bytes.len() < KEY_LEN {
            Err(StartupError::ServerKeyTooShort)
        } else {
            Ok(SessionKey { bytes: master_key_from(bytes) })
        }
    }

    /// The key for a process without TLS material, from what the random
    /// source gave: that key, or `SessionKeyGeneration` should it give none.
    pub fn from_generated(fresh: Option<[u8; 64]>) -> (r: Result<SessionKey, StartupError>)
        ensures
            match fresh {
                Some(bytes) => r is Ok && r->Ok_0@ == bytes@,
                None => r == Err::<SessionKey, StartupError>(StartupError::SessionKeyGeneration),
            },
    {
        match fresh {
            Some(bytes) => Ok(SessionKey { bytes }),
            None => Err(StartupError::SessionKeyGeneration),
        }
    }

    /// The session key of this process: derived from the server's private
    /// key where there is TLS material, freshly generated where there is
    /// none.
    pub fn for_process(pair: &Option<CertificateMaterial>) -> (r: Result<SessionKey, StartupError>)
        ensures
            match *pair {
                Some(material) => key_bytes(r) == derived_key(encode_utf8(material@.private_key)),
                None => match r {
                    Ok(key) => key@.len() == KEY_LEN,
                    Err(e) => e == StartupError::SessionKeyGeneration,
                },
            },
    {
        match pair {
            Some(material) => SessionKey::from_server_key(material),
            None => SessionKey::from_generated(fresh_master_key()),
        }
    }
}

/// The bytes of the session key that a private key of the given bytes
/// gives: its first 64, where it has that many.
pub open spec fn derived_key(server_key: Seq<u8>) -> Result<Seq<u8>, StartupError> {
    if server_key.len() < KEY_LEN {
        Err(StartupError::ServerKeyTooShort)
    } else {
        Ok(server_key.subrange(0, KEY_LEN as int))
    }
}

/// An outcome of making a session key, with the key taken by its bytes.
pub open spec fn key_bytes(r: Result<SessionKey, StartupError>) -> Result<Seq<u8>, StartupError> {
    match r {
        Ok(key) => Ok(key@),
        Err(e) => Err(e),
    }
}

/// Calls `actix_web::cookie::Key::from`, which wants at least 64 bytes and
/// keeps the first 64 of them as the master key, and copies that master key
/// out.
#[verifier::external_body]
fn master_key_from(bytes: &[u8]) -> (r: [u8; 64])
    requires
        bytes@.len() >= 64,
    ensures
        r@ == bytes@.subrange(0, 64),
{
    let key = actix_web::cookie::Key::from(bytes);
    let mut master = [0u8; 64];
    master.copy_from_slice(key.master());
    master
}

/// Calls `actix_web::cookie::Key::try_generate`, which fills a master key
/// from the thread's random generator, and copies that key out. Nothing is
/// claimed of the bytes. The call's type allows `None`; the generator it
/// draws on does not report a failure to fill, so a caller sees `None` only
/// if that changes.
#[verifier::external_body]
fn fresh_master_key() -> (r: Option<[u8; 64]>) {
    match actix_web::cookie::Key::try_generate() {
        Some(key) => {
            let mut master = [0u8; 64];
            master.copy_from_slice(key.master());
            Some(master)
        },
        None => None,
    }
}

} // verus!
