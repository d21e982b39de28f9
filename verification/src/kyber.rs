//! Kyber Key Encapsulation Mechanisms.
//!
//! Each variant binds its fixed buffer sizes to the backend calling
//! contract of [`crate::backend`]: `begin_*` validates caller-supplied
//! buffers and allocates exact-size outputs, the native entry point is
//! invoked outside the library, and `finish_*` maps its status code and
//! filled buffers to the typed result.

use vstd::prelude::*;
use crate::backend::{
    decapsulate_begin, decapsulate_begin_post, decapsulate_finish_post, encapsulate_begin,
    encapsulate_begin_post, encapsulate_finish_post, keypair_begin_post, keypair_finish_post,
    zero_vec,
};
use crate::errors::{PqcError, PqcResult};

verus! {

/// Kyber512 Key Encapsulation Mechanism
///
/// Security Level: 1 (equivalent to AES-128)
/// - Public Key: 800 bytes
/// - Secret Key: 1632 bytes
/// - Ciphertext: 768 bytes
/// - Shared Secret: 32 bytes
#[derive(Debug)]
pub struct Kyber512 {
    _private: (),
}

impl Kyber512 {
    /// Algorithm constants
    pub const PUBLIC_KEY_BYTES: usize = 800;

    pub const SECRET_KEY_BYTES: usize = 1632;

    pub const CIPHERTEXT_BYTES: usize = 768;

    pub const SHARED_SECRET_BYTES: usize = 32;

    /// Create a new Kyber512 instance from the outcome of the backend
    /// library resolution, so that "backend unavailable" is diagnosed
    /// at construction time.
    pub fn new(resolution: PqcResult<String>) -> (r: PqcResult<Self>)
        ensures
            r is Ok <==> resolution is Ok,
            resolution matches Err(e) ==> r == Err::<Kyber512, PqcError>(e),
    {
        match resolution {
            Ok(_) => Ok(Kyber512 { _private: () }),
            Err(e) => Err(e),
        }
    }

    /// Allocate the zero-filled key buffers for a keypair generation.
    pub fn begin_keypair(&self) -> (r: (Vec<u8>, Vec<u8>))
        ensures
            keypair_begin_post(Self::PUBLIC_KEY_BYTES, Self::SECRET_KEY_BYTES, r),
    {
        (zero_vec(Self::PUBLIC_KEY_BYTES), zero_vec(Self::SECRET_KEY_BYTES))
    }

    /// Map the backend keypair status code to the typed result: the
    /// filled buffers on `0`, `KeyGeneration(code)` otherwise.
    pub fn finish_keypair(&self, code: i32, public_key: Vec<u8>, secret_key: Vec<u8>) -> (r:
        PqcResult<(Vec<u8>, Vec<u8>)>)
        requires
            public_key@.len() == Self::PUBLIC_KEY_BYTES,
            secret_key@.len() == Self::SECRET_KEY_BYTES,
        ensures
            keypair_finish_post(code, public_key, secret_key, r),
    {
        if code != 0 {
            Err(PqcError::KeyGeneration(code))
        } else {
            Ok((public_key, secret_key))
        }
    }

    /// Validate the public key's length and allocate the zero-filled
    /// ciphertext and shared-secret buffers for an encapsulation; a
    /// wrong-sized key fails here, before any backend invocation.
    pub fn begin_encapsulate(&self, public_key: &[u8]) -> (r: PqcResult<(Vec<u8>, Vec<u8>)>)
        ensures
            encapsulate_begin_post(
                public_key@,
                Self::PUBLIC_KEY_BYTES,
                Self::CIPHERTEXT_BYTES,
                Self::SHARED_SECRET_BYTES,
                r,
            ),
    {
        encapsulate_begin(
            public_key,
            Self::PUBLIC_KEY_BYTES,
            Self::CIPHERTEXT_BYTES,
            Self::SHARED_SECRET_BYTES,
        )
    }

    /// Map the backend encapsulation status code to the typed result:
    /// the filled buffers on `0`, `Encapsulation(code)` otherwise.
    pub fn finish_encapsulate(&self, code: i32, ciphertext: Vec<u8>, shared_secret: Vec<u8>) -> (r:
        PqcResult<(Vec<u8>, Vec<u8>)>)
        requires
            ciphertext@.len() == Self::CIPHERTEXT_BYTES,
            shared_secret@.len() == Self::SHARED_SECRET_BYTES,
        ensures
            encapsulate_finish_post(code, ciphertext, shared_secret, r),
    {
        if code != 0 {
            Err(PqcError::Encapsulation(code))
        } else {
            Ok((ciphertext, shared_secret))
        }
    }

    /// Validate both input lengths and allocate the zero-filled
    /// shared-secret buffer for a decapsulation.
    pub fn begin_decapsulate(&self, ciphertext: &[u8], secret_key: &[u8]) -> (r: PqcResult<
        Vec<u8>,
    >)
        ensures
            decapsulate_begin_post(
                ciphertext@,
                secret_key@,
                Self::CIPHERTEXT_BYTES,
                Self::SECRET_KEY_BYTES,
                Self::SHARED_SECRET_BYTES,
                r,
            ),
    {
        decapsulate_begin(
            ciphertext,
            secret_key,
            Self::CIPHERTEXT_BYTES,
            Self::SECRET_KEY_BYTES,
            Self::SHARED_SECRET_BYTES,
        )
    }

    /// Map the backend decapsulation status code to the typed result:
    /// the filled shared secret on `0`, `Decapsulation(code)` otherwise.
    pub fn finish_decapsulate(&self, code: i32, shared_secret: Vec<u8>) -> (r: PqcResult<Vec<u8>>)
        requires
            shared_secret@.len() == Self::SHARED_SECRET_BYTES,
        ensures
            decapsulate_finish_post(code, shared_secret, r),
    {
        if code != 0 {
            Err(PqcError::Decapsulation(code))
        } else {
            Ok(shared_secret)
        }
    }
}

/// Kyber768 Key Encapsulation Mechanism
///
/// Security Level: 3 (equivalent to AES-192)
/// - Public Key: 1184 bytes
/// - Secret Key: 2400 bytes
/// - Ciphertext: 1088 bytes
/// - Shared Secret: 32 bytes
#[derive(Debug)]
pub struct Kyber768 {
    _private: (),
}

impl Kyber768 {
    /// Algorithm constants
    pub const PUBLIC_KEY_BYTES: usize = 1184;

    pub const SECRET_KEY_BYTES: usize = 2400;

    pub const CIPHERTEXT_BYTES: usize = 1088;

    pub const SHARED_SECRET_BYTES: usize = 32;

    /// Create a new Kyber768 instance from the outcome of the backend
    /// library resolution.
    pub fn new(resolution: PqcResult<String>) -> (r: PqcResult<Self>)
        ensures
            r is Ok <==> resolution is Ok,
            resolution matches Err(e) ==> r == Err::<Kyber768, PqcError>(e),
    {
        match resolution {
            Ok(_) => Ok(Kyber768 { _private: () }),
            Err(e) => Err(e),
        }
    }

    /// Allocate the zero-filled key buffers for a keypair generation.
    pub fn begin_keypair(&self) -> (r: (Vec<u8>, Vec<u8>))
        ensures
            keypair_begin_post(Self::PUBLIC_KEY_BYTES, Self::SECRET_KEY_BYTES, r),
    {
        (zero_vec(Self::PUBLIC_KEY_BYTES), zero_vec(Self::SECRET_KEY_BYTES))
    }

    /// Map the backend keypair status code to the typed result.
    pub fn finish_keypair(&self, code: i32, public_key: Vec<u8>, secret_key: Vec<u8>) -> (r:
        PqcResult<(Vec<u8>, Vec<u8>)>)
        requires
            public_key@.len() == Self::PUBLIC_KEY_BYTES,
            secret_key@.len() == Self::SECRET_KEY_BYTES,
        ensures
            keypair_finish_post(code, public_key, secret_key, r),
    {
        if code != 0 {
            Err(PqcError::KeyGeneration(code))
        } else {
            Ok((public_key, secret_key))
        }
    }

    /// Validate the public key's length and allocate the output buffers
    /// for an encapsulation.
    pub fn begin_encapsulate(&self, public_key: &[u8]) -> (r: PqcResult<(Vec<u8>, Vec<u8>)>)
        ensures
            encapsulate_begin_post(
                public_key@,
                Self::PUBLIC_KEY_BYTES,
                Self::CIPHERTEXT_BYTES,
                Self::SHARED_SECRET_BYTES,
                r,
            ),
    {
        encapsulate_begin(
            public_key,
            Self::PUBLIC_KEY_BYTES,
            Self::CIPHERTEXT_BYTES,
            Self::SHARED_SECRET_BYTES,
        )
    }

    /// Map the backend encapsulation status code to the typed result.
    pub fn finish_encapsulate(&self, code: i32, ciphertext: Vec<u8>, shared_secret: Vec<u8>) -> (r:
        PqcResult<(Vec<u8>, Vec<u8>)>)
        requires
            ciphertext@.len() == Self::CIPHERTEXT_BYTES,
            shared_secret@.len() == Self::SHARED_SECRET_BYTES,
        ensures
            encapsulate_finish_post(code, ciphertext, shared_secret, r),
    {
        if code != 0 {
            Err(PqcError::Encapsulation(code))
        } else {
            Ok((ciphertext, shared_secret))
        }
    }

    /// Validate both input lengths and allocate the shared-secret buffer
    /// for a decapsulation.
    pub fn begin_decapsulate(&self, ciphertext: &[u8], secret_key: &[u8]) -> (r: PqcResult<
        Vec<u8>,
    >)
        ensures
            decapsulate_begin_post(
                ciphertext@,
                secret_key@,
                Self::CIPHERTEXT_BYTES,
                Self::SECRET_KEY_BYTES,
                Self::SHARED_SECRET_BYTES,
                r,
            ),
    {
        decapsulate_begin(
            ciphertext,
            secret_key,
            Self::CIPHERTEXT_BYTES,
            Self::SECRET_KEY_BYTES,
            Self::SHARED_SECRET_BYTES,
        )
    }

    /// Map the backend decapsulation status code to the typed result.
    pub fn finish_decapsulate(&self, code: i32, shared_secret: Vec<u8>) -> (r: PqcResult<Vec<u8>>)
        requires
            shared_secret@.len() == Self::SHARED_SECRET_BYTES,
        ensures
            decapsulate_finish_post(code, shared_secret, r),
    {
        if code != 0 {
            Err(PqcError::Decapsulation(code))
        } else {
            Ok(shared_secret)
        }
    }
}

/// Kyber1024 Key Encapsulation Mechanism
///
/// Security Level: 5 (equivalent to AES-256)
/// - Public Key: 1568 bytes
/// - Secret Key: 3168 bytes
/// - Ciphertext: 1568 bytes
/// - Shared Secret: 32 bytes
#[derive(Debug)]
pub struct Kyber1024 {
    _private: (),
}

impl Kyber1024 {
    /// Algorithm constants
    pub const PUBLIC_KEY_BYTES: usize = 1568;

    pub const SECRET_KEY_BYTES: usize = 3168;

    pub const CIPHERTEXT_BYTES: usize = 1568;

    pub const SHARED_SECRET_BYTES: usize = 32;

    /// Create a new Kyber1024 instance from the outcome of the backend
    /// library resolution.
    pub fn new(resolution: PqcResult<String>) -> (r: PqcResult<Self>)
        ensures
            r is Ok <==> resolution is Ok,
            resolution matches Err(e) ==> r == Err::<Kyber1024, PqcError>(e),
    {
        match resolution {
            Ok(_) => Ok(Kyber1024 { _private: () }),
            Err(e) => Err(e),
        }
    }

    /// Allocate the zero-filled key buffers for a keypair generation.
    pub fn begin_keypair(&self) -> (r: (Vec<u8>, Vec<u8>))
        ensures
            keypair_begin_post(Self::PUBLIC_KEY_BYTES, Self::SECRET_KEY_BYTES, r),
    {
        (zero_vec(Self::PUBLIC_KEY_BYTES), zero_vec(Self::SECRET_KEY_BYTES))
    }

    /// Map the backend keypair status code to the typed result.
    pub fn finish_keypair(&self, code: i32, public_key: Vec<u8>, secret_key: Vec<u8>) -> (r:
        PqcResult<(Vec<u8>, Vec<u8>)>)
        requires
            public_key@.len() == Self::PUBLIC_KEY_BYTES,
            secret_key@.len() == Self::SECRET_KEY_BYTES,
        ensures
            keypair_finish_post(code, public_key, secret_key, r),
    {
        if code != 0 {
            Err(PqcError::KeyGeneration(code))
        } else {
            Ok((public_key, secret_key))
        }
    }

    /// Validate the public key's length and allocate the output buffers
    /// for an encapsulation.
    pub fn begin_encapsulate(&self, public_key: &[u8]) -> (r: PqcResult<(Vec<u8>, Vec<u8>)>)
        ensures
            encapsulate_begin_post(
                public_key@,
                Self::PUBLIC_KEY_BYTES,
                Self::CIPHERTEXT_BYTES,
                Self::SHARED_SECRET_BYTES,
                r,
            ),
    {
        encapsulate_begin(
            public_key,
            Self::PUBLIC_KEY_BYTES,
            Self::CIPHERTEXT_BYTES,
            Self::SHARED_SECRET_BYTES,
        )
    }

    /// Map the backend encapsulation status code to the typed result.
    pub fn finish_encapsulate(&self, code: i32, ciphertext: Vec<u8>, shared_secret: Vec<u8>) -> (r:
        PqcResult<(Vec<u8>, Vec<u8>)>)
        requires
            ciphertext@.len() == Self::CIPHERTEXT_BYTES,
            shared_secret@.len() == Self::SHARED_SECRET_BYTES,
        ensures
            encapsulate_finish_post(code, ciphertext, shared_secret, r),
    {
        if code != 0 {
            Err(PqcError::Encapsulation(code))
        } else {
            Ok((ciphertext, shared_secret))
        }
    }

    /// Validate both input lengths and allocate the shared-secret buffer
    /// for a decapsulation.
    pub fn begin_decapsulate(&self, ciphertext: &[u8], secret_key: &[u8]) -> (r: PqcResult<
        Vec<u8>,
    >)
        ensures
            decapsulate_begin_post(
                ciphertext@,
                secret_key@,
                Self::CIPHERTEXT_BYTES,
                Self::SECRET_KEY_BYTES,
                Self::SHARED_SECRET_BYTES,
                r,
            ),
    {
        decapsulate_begin(
            ciphertext,
            secret_key,
            Self::CIPHERTEXT_BYTES,
            Self::SECRET_KEY_BYTES,
            Self::SHARED_SECRET_BYTES,
        )
    }

    /// Map the backend decapsulation status code to the typed result.
    pub fn finish_decapsulate(&self, code: i32, shared_secret: Vec<u8>) -> (r: PqcResult<Vec<u8>>)
        requires
            shared_secret@.len() == Self::SHARED_SECRET_BYTES,
        ensures
            decapsulate_finish_post(code, shared_secret, r),
    {
        if code != 0 {
            Err(PqcError::Decapsulation(code))
        } else {
            Ok(shared_secret)
        }
    }
}

/// Type alias for the default Kyber variant (Kyber768)
pub type Kyber = Kyber768;

/// Cross-variant rejection at the sizes named by the two smaller Kyber
/// variants: a Kyber512 public key (800 bytes) handed to Kyber768's
/// encapsulation is rejected with an invalid-size error carrying both
/// lengths.
pub proof fn lemma_kyber512_key_rejected_by_kyber768(
    public_key: Seq<u8>,
    r: PqcResult<(Vec<u8>, Vec<u8>)>,
)
    requires
        public_key.len() == Kyber512::PUBLIC_KEY_BYTES,
        encapsulate_begin_post(
            public_key,
            Kyber768::PUBLIC_KEY_BYTES,
            Kyber768::CIPHERTEXT_BYTES,
            Kyber768::SHARED_SECRET_BYTES,
            r,
        ),
    ensures
        r == Err::<(Vec<u8>, Vec<u8>), PqcError>(
            PqcError::InvalidKeySize {
                expected: Kyber768::PUBLIC_KEY_BYTES,
                actual: Kyber512::PUBLIC_KEY_BYTES,
            },
        ),
{
}

} // verus!
