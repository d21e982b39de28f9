//! Dilithium digital-signature schemes.
//!
//! Each variant binds its fixed buffer sizes to the backend calling
//! contract of [`crate::backend`]. Signing produces a signature of
//! variable length up to the variant's maximum; the backend reports the
//! actual length, and the finish step truncates the buffer to it.
//! Verification is a pure predicate over (message, signature, public
//! key): the backend reports a single nonzero code for a signature that
//! does not verify, so every nonzero code maps to `false`, never to an
//! error.

use vstd::prelude::*;
use crate::backend::{
    keypair_begin_post, keypair_finish_post, sign_begin, sign_begin_post, sign_finish,
    sign_finish_post, verify_finish_post, zero_vec,
};
use crate::errors::{PqcError, PqcResult};
use crate::validate::{length_check, validate_length};

verus! {

/// Dilithium2 digital-signature scheme
///
/// Security Level: 2 (equivalent to AES-128)
/// - Public Key: 1312 bytes
/// - Secret Key: 2528 bytes
/// - Signature: up to 2420 bytes
#[derive(Debug)]
pub struct Dilithium2 {
    _private: (),
}

impl Dilithium2 {
    /// Algorithm constants
    pub const PUBLIC_KEY_BYTES: usize = 1312;

    pub const SECRET_KEY_BYTES: usize = 2528;

    pub const SIGNATURE_BYTES: usize = 2420;

    /// Create a new Dilithium2 instance from the outcome of the backend
    /// library resolution, so that "backend unavailable" is diagnosed
    /// at construction time.
    pub fn new(resolution: PqcResult<String>) -> (r: PqcResult<Self>)
        ensures
            r is Ok <==> resolution is Ok,
            resolution matches Err(e) ==> r == Err::<Dilithium2, PqcError>(e),
    {
        match resolution {
            Ok(_) => Ok(Dilithium2 { _private: () }),
            Err(e) => Err(e),
        }
    }

    /// Allocate the zero-filled key buffers for a keypair generation.
    pub fn begin_keypair(&self) -> (r: (Vec<u8>, Vec<u8>))
        ensures
            keypair_begin_post(Self::PUBLIC_KEY_BYTES, Self::SECRET_KEY_BYTES, r),
    {
        (zero_vec(Self::PUBLIC_KEY_BYTES), zero_vec(Self::SECRET_KEY_BYTES))
    }

    /// Map the backend keypair status code to the typed result: the
    /// filled buffers on `0`, `KeyGeneration(code)` otherwise.
    pub fn finish_keypair(&self, code: i32, public_key: Vec<u8>, secret_key: Vec<u8>) -> (r:
        PqcResult<(Vec<u8>, Vec<u8>)>)
        requires
            public_key@.len() == Self::PUBLIC_KEY_BYTES,
            secret_key@.len() == Self::SECRET_KEY_BYTES,
        ensures
            keypair_finish_post(code, public_key, secret_key, r),
    {
        if code != 0 {
            Err(PqcError::KeyGeneration(code))
        } else {
            Ok((public_key, secret_key))
        }
    }

    /// Validate the secret key's length and allocate the zero-filled
    /// maximum-length signature buffer for a signing operation; the
    /// message's length is unconstrained.
    pub fn begin_sign(&self, secret_key: &[u8]) -> (r: PqcResult<Vec<u8>>)
        ensures
            sign_begin_post(secret_key@, Self::SECRET_KEY_BYTES, Self::SIGNATURE_BYTES, r),
    {
        sign_begin(secret_key, Self::SECRET_KEY_BYTES, Self::SIGNATURE_BYTES)
    }

    /// Map the backend signing status code and reported signature length
    /// to the typed result: on `0` the buffer truncated to the actual
    /// length, `Signing(code)` otherwise.
    pub fn finish_sign(&self, code: i32, signature: Vec<u8>, signature_len: usize) -> (r:
        PqcResult<Vec<u8>>)
        ensures
            sign_finish_post(code, signature@, signature_len, r),
    {
        sign_finish(code, signature, signature_len)
    }

    /// Validate the public key's length ahead of a verification; the
    /// message and signature lengths are passed to the backend as-is.
    pub fn begin_verify(&self, public_key: &[u8]) -> (r: PqcResult<()>)
        ensures
            r == length_check(public_key@, Self::PUBLIC_KEY_BYTES),
    {
        validate_length(public_key, Self::PUBLIC_KEY_BYTES, "public key")
    }

    /// Map the backend verification status code to the outcome: `true`
    /// exactly on `0`, `false` on every nonzero code, never an error.
    pub fn finish_verify(&self, code: i32) -> (r: PqcResult<bool>)
        ensures
            verify_finish_post(code, r),
    {
        Ok(code == 0)
    }
}

/// Dilithium3 digital-signature scheme
///
/// Security Level: 3 (equivalent to AES-192)
/// - Public Key: 1952 bytes
/// - Secret Key: 4000 bytes
/// - Signature: up to 3293 bytes
#[derive(Debug)]
pub struct Dilithium3 {
    _private: (),
}

impl Dilithium3 {
    /// Algorithm constants
    pub const PUBLIC_KEY_BYTES: usize = 1952;

    pub const SECRET_KEY_BYTES: usize = 4000;

    pub const SIGNATURE_BYTES: usize = 3293;

    /// Create a new Dilithium3 instance from the outcome of the backend
    /// library resolution.
    pub fn new(resolution: PqcResult<String>) -> (r: PqcResult<Self>)
        ensures
            r is Ok <==> resolution is Ok,
            resolution matches Err(e) ==> r == Err::<Dilithium3, PqcError>(e),
    {
        match resolution {
            Ok(_) => Ok(Dilithium3 { _private: () }),
            Err(e) => Err(e),
        }
    }

    /// Allocate the zero-filled key buffers for a keypair generation.
    pub fn begin_keypair(&self) -> (r: (Vec<u8>, Vec<u8>))
        ensures
            keypair_begin_post(Self::PUBLIC_KEY_BYTES, Self::SECRET_KEY_BYTES, r),
    {
        (zero_vec(Self::PUBLIC_KEY_BYTES), zero_vec(Self::SECRET_KEY_BYTES))
    }

    /// Map the backend keypair status code to the typed result.
    pub fn finish_keypair(&self, code: i32, public_key: Vec<u8>, secret_key: Vec<u8>) -> (r:
        PqcResult<(Vec<u8>, Vec<u8>)>)
        requires
            public_key@.len() == Self::PUBLIC_KEY_BYTES,
            secret_key@.len() == Self::SECRET_KEY_BYTES,
        ensures
            keypair_finish_post(code, public_key, secret_key, r),
    {
        if code != 0 {
            Err(PqcError::KeyGeneration(code))
        } else {
            Ok((public_key, secret_key))
        }
    }

    /// Validate the secret key's length and allocate the signature
    /// buffer for a signing operation.
    pub fn begin_sign(&self, secret_key: &[u8]) -> (r: PqcResult<Vec<u8>>)
        ensures
            sign_begin_post(secret_key@, Self::SECRET_KEY_BYTES, Self::SIGNATURE_BYTES, r),
    {
        sign_begin(secret_key, Self::SECRET_KEY_BYTES, Self::SIGNATURE_BYTES)
    }

    /// Map the backend signing status code and reported signature length
    /// to the typed result.
    pub fn finish_sign(&self, code: i32, signature: Vec<u8>, signature_len: usize) -> (r:
        PqcResult<Vec<u8>>)
        ensures
            sign_finish_post(code, signature@, signature_len, r),
    {
        sign_finish(code, signature, signature_len)
    }

    /// Validate the public key's length ahead of a verification.
    pub fn begin_verify(&self, public_key: &[u8]) -> (r: PqcResult<()>)
        ensures
            r == length_check(public_key@, Self::PUBLIC_KEY_BYTES),
    {
        validate_length(public_key, Self::PUBLIC_KEY_BYTES, "public key")
    }

    /// Map the backend verification status code to the outcome.
    pub fn finish_verify(&self, code: i32) -> (r: PqcResult<bool>)
        ensures
            verify_finish_post(code, r),
    {
        Ok(code == 0)
    }
}

/// Dilithium5 digital-signature scheme
///
/// Security Level: 5 (equivalent to AES-256)
/// - Public Key: 2592 bytes
/// - Secret Key: 4864 bytes
/// - Signature: up to 4595 bytes
#[derive(Debug)]
pub struct Dilithium5 {
    _private: (),
}

impl Dilithium5 {
    /// Algorithm constants
    pub const PUBLIC_KEY_BYTES: usize = 2592;

    pub const SECRET_KEY_BYTES: usize = 4864;

    pub const SIGNATURE_BYTES: usize = 4595;

    /// Create a new Dilithium5 instance from the outcome of the backend
    /// library resolution.
    pub fn new(resolution: PqcResult<String>) -> (r: PqcResult<Self>)
        ensures
            r is Ok <==> resolution is Ok,
            resolution matches Err(e) ==> r == Err::<Dilithium5, PqcError>(e),
    {
        match resolution {
            Ok(_) => Ok(Dilithium5 { _private: () }),
            Err(e) => Err(e),
        }
    }

    /// Allocate the zero-filled key buffers for a keypair generation.
    pub fn begin_keypair(&self) -> (r: (Vec<u8>, Vec<u8>))
        ensures
            keypair_begin_post(Self::PUBLIC_KEY_BYTES, Self::SECRET_KEY_BYTES, r),
    {
        (zero_vec(Self::PUBLIC_KEY_BYTES), zero_vec(Self::SECRET_KEY_BYTES))
    }

    /// Map the backend keypair status code to the typed result.
    pub fn finish_keypair(&self, code: i32, public_key: Vec<u8>, secret_key: Vec<u8>) -> (r:
        PqcResult<(Vec<u8>, Vec<u8>)>)
        requires
            public_key@.len() == Self::PUBLIC_KEY_BYTES,
            secret_key@.len() == Self::SECRET_KEY_BYTES,
        ensures
            keypair_finish_post(code, public_key, secret_key, r),
    {
        if code != 0 {
            Err(PqcError::KeyGeneration(code))
        } else {
            Ok((public_key, secret_key))
        }
    }

    /// Validate the secret key's length and allocate the signature
    /// buffer for a signing operation.
    pub fn begin_sign(&self, secret_key: &[u8]) -> (r: PqcResult<Vec<u8>>)
        ensures
            sign_begin_post(secret_key@, Self::SECRET_KEY_BYTES, Self::SIGNATURE_BYTES, r),
    {
        sign_begin(secret_key, Self::SECRET_KEY_BYTES, Self::SIGNATURE_BYTES)
    }

    /// Map the backend signing status code and reported signature length
    /// to the typed result.
    pub fn finish_sign(&self, code: i32, signature: Vec<u8>, signature_len: usize) -> (r:
        PqcResult<Vec<u8>>)
        ensures
            sign_finish_post(code, signature@, signature_len, r),
    {
        sign_finish(code, signature, signature_len)
    }

    /// Validate the public key's length ahead of a verification.
    pub fn begin_verify(&self, public_key: &[u8]) -> (r: PqcResult<()>)
        ensures
            r == length_check(public_key@, Self::PUBLIC_KEY_BYTES),
    {
        validate_length(public_key, Self::PUBLIC_KEY_BYTES, "public key")
    }

    /// Map the backend verification status code to the outcome.
    pub fn finish_verify(&self, code: i32) -> (r: PqcResult<bool>)
        ensures
            verify_finish_post(code, r),
    {
        Ok(code == 0)
    }
}

/// Type alias for the default Dilithium variant (Dilithium3)
pub type Dilithium = Dilithium3;

} // verus!
