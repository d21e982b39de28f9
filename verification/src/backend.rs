//! The calling contract the library imposes on the native backend.
//!
//! Every cryptographic operation is a native call framed by two verified
//! steps. The `begin` step validates caller-supplied buffers and
//! allocates zero-filled output buffers of the exact variant-specific
//! lengths; only when it succeeds may the backend entry point be
//! invoked, on those buffers. The `finish` step takes the entry point's
//! integer status code together with the buffers it filled and maps them
//! to a typed result: on the success sentinel `0` the filled buffers are
//! handed through bit-for-bit, and any nonzero code becomes the typed
//! error of the operation that produced it, carrying the raw code. No
//! step retries, and no step interprets a nonzero code beyond "nonzero".
//!
//! This module holds the shared postcondition predicates, the buffer
//! allocator, the generic begin/finish steps the variants delegate to,
//! and the laws that hold of every variant.

use vstd::prelude::*;
use crate::errors::{PqcError, PqcResult};
use crate::validate::{length_check, validate_length};

verus! {

/// A byte sequence of exactly `n` zero bytes.
pub open spec fn zeroed(s: Seq<u8>, n: usize) -> bool {
    &&& s.len() == n
    &&& forall|i: int| 0 <= i < s.len() ==> s[i] == 0u8
}

/// Allocate a zero-filled buffer of exactly `n` bytes.
pub(crate) fn zero_vec(n: usize) -> (v: Vec<u8>)
    ensures
        zeroed(v@, n),
{
    let mut v: Vec<u8> = Vec::new();
    while v.len() < n
        invariant
            v@.len() <= n,
            forall|i: int| 0 <= i < v@.len() ==> v@[i] == 0u8,
        decreases n - v@.len(),
    {
        v.push(0u8);
    }
    v
}

/// What beginning a keypair operation returns: zero-filled public- and
/// secret-key buffers of the exact variant lengths, ready for the
/// backend keypair entry point.
pub open spec fn keypair_begin_post(pk_len: usize, sk_len: usize, r: (Vec<u8>, Vec<u8>)) -> bool {
    &&& zeroed(r.0@, pk_len)
    &&& zeroed(r.1@, sk_len)
}

/// What finishing a keypair operation returns: on code `0` exactly the
/// backend-filled buffers, on any nonzero code `KeyGeneration(code)`.
pub open spec fn keypair_finish_post(
    code: i32,
    public_key: Vec<u8>,
    secret_key: Vec<u8>,
    r: PqcResult<(Vec<u8>, Vec<u8>)>,
) -> bool {
    &&& code == 0 ==> r == Ok::<(Vec<u8>, Vec<u8>), PqcError>((public_key, secret_key))
    &&& code != 0 ==> r == Err::<(Vec<u8>, Vec<u8>), PqcError>(PqcError::KeyGeneration(code))
}

/// What beginning an encapsulation returns: zero-filled ciphertext and
/// shared-secret buffers when the public key has the exact required
/// length, `InvalidKeySize` otherwise.
pub open spec fn encapsulate_begin_post(
    public_key: Seq<u8>,
    pk_len: usize,
    ct_len: usize,
    ss_len: usize,
    r: PqcResult<(Vec<u8>, Vec<u8>)>,
) -> bool {
    &&& public_key.len() == pk_len ==> (r matches Ok(b) && zeroed(b.0@, ct_len) && zeroed(
        b.1@,
        ss_len,
    ))
    &&& public_key.len() != pk_len ==> r == Err::<(Vec<u8>, Vec<u8>), PqcError>(
        PqcError::InvalidKeySize { expected: pk_len, actual: public_key.len() as usize },
    )
}

/// What finishing an encapsulation returns: on code `0` exactly the
/// backend-filled ciphertext and shared secret, on any nonzero code
/// `Encapsulation(code)`.
pub open spec fn encapsulate_finish_post(
    code: i32,
    ciphertext: Vec<u8>,
    shared_secret: Vec<u8>,
    r: PqcResult<(Vec<u8>, Vec<u8>)>,
) -> bool {
    &&& code == 0 ==> r == Ok::<(Vec<u8>, Vec<u8>), PqcError>((ciphertext, shared_secret))
    &&& code != 0 ==> r == Err::<(Vec<u8>, Vec<u8>), PqcError>(PqcError::Encapsulation(code))
}

/// What beginning a decapsulation returns: a zero-filled shared-secret
/// buffer when both inputs have their exact required lengths; otherwise
/// `InvalidKeySize` for the ciphertext first, then for the secret key.
pub open spec fn decapsulate_begin_post(
    ciphertext: Seq<u8>,
    secret_key: Seq<u8>,
    ct_len: usize,
    sk_len: usize,
    ss_len: usize,
    r: PqcResult<Vec<u8>>,
) -> bool {
    &&& (ciphertext.len() == ct_len && secret_key.len() == sk_len) ==> (r matches Ok(ss) && zeroed(
        ss@,
        ss_len,
    ))
    &&& ciphertext.len() != ct_len ==> r == Err::<Vec<u8>, PqcError>(
        PqcError::InvalidKeySize { expected: ct_len, actual: ciphertext.len() as usize },
    )
    &&& (ciphertext.len() == ct_len && secret_key.len() != sk_len) ==> r == Err::<Vec<u8>, PqcError>(
        PqcError::InvalidKeySize { expected: sk_len, actual: secret_key.len() as usize },
    )
}

/// What finishing a decapsulation returns: on code `0` exactly the
/// backend-filled shared secret, on any nonzero code `Decapsulation(code)`.
pub open spec fn decapsulate_finish_post(
    code: i32,
    shared_secret: Vec<u8>,
    r: PqcResult<Vec<u8>>,
) -> bool {
    &&& code == 0 ==> r == Ok::<Vec<u8>, PqcError>(shared_secret)
    &&& code != 0 ==> r == Err::<Vec<u8>, PqcError>(PqcError::Decapsulation(code))
}

/// What beginning a signing operation returns: a zero-filled signature
/// buffer of the variant's maximum signature length when the secret key
/// has the exact required length, `InvalidKeySize` otherwise. The
/// message is not constrained.
pub open spec fn sign_begin_post(
    secret_key: Seq<u8>,
    sk_len: usize,
    sig_max: usize,
    r: PqcResult<Vec<u8>>,
) -> bool {
    &&& secret_key.len() == sk_len ==> (r matches Ok(sig) && zeroed(sig@, sig_max))
    &&& secret_key.len() != sk_len ==> r == Err::<Vec<u8>, PqcError>(
        PqcError::InvalidKeySize { expected: sk_len, actual: secret_key.len() as usize },
    )
}

/// What finishing a signing operation returns: on code `0` the filled
/// signature buffer truncated to the backend-reported actual length
/// (never assuming the maximum-length buffer is fully used), on any
/// nonzero code `Signing(code)`.
pub open spec fn sign_finish_post(
    code: i32,
    signature: Seq<u8>,
    signature_len: usize,
    r: PqcResult<Vec<u8>>,
) -> bool {
    &&& code != 0 ==> r == Err::<Vec<u8>, PqcError>(PqcError::Signing(code))
    &&& (code == 0 && signature_len <= signature.len()) ==> (r matches Ok(s) && s@
        == signature.subrange(0, signature_len as int))
    &&& (code == 0 && signature_len > signature.len()) ==> (r matches Ok(s) && s@ == signature)
}

/// What finishing a verification returns. The backend reports a single
/// nonzero code for a signature that does not verify and documents no
/// distinct malformed-input code, so every nonzero code maps to a
/// successful call returning `false`, never to an error.
pub open spec fn verify_finish_post(code: i32, r: PqcResult<bool>) -> bool {
    r == Ok::<bool, PqcError>(code == 0)
}

/// Validate the public key and allocate the output buffers for an
/// encapsulation.
pub(crate) fn encapsulate_begin(public_key: &[u8], pk_len: usize, ct_len: usize, ss_len: usize) -> (r:
    PqcResult<(Vec<u8>, Vec<u8>)>)
    ensures
        encapsulate_begin_post(public_key@, pk_len, ct_len, ss_len, r),
{
    match validate_length(public_key, pk_len, "public key") {
        Err(e) => Err(e),
        Ok(()) => Ok((zero_vec(ct_len), zero_vec(ss_len))),
    }
}

/// Validate both inputs and allocate the shared-secret buffer for a
/// decapsulation.
pub(crate) fn decapsulate_begin(
    ciphertext: &[u8],
    secret_key: &[u8],
    ct_len: usize,
    sk_len: usize,
    ss_len: usize,
) -> (r: PqcResult<Vec<u8>>)
    ensures
        decapsulate_begin_post(ciphertext@, secret_key@, ct_len, sk_len, ss_len, r),
{
    match validate_length(ciphertext, ct_len, "ciphertext") {
        Err(e) => Err(e),
        Ok(()) => match validate_length(secret_key, sk_len, "secret key") {
            Err(e) => Err(e),
            Ok(()) => Ok(zero_vec(ss_len)),
        },
    }
}

/// Validate the secret key and allocate the signature buffer for a
/// signing operation.
pub(crate) fn sign_begin(secret_key: &[u8], sk_len: usize, sig_max: usize) -> (r: PqcResult<
    Vec<u8>,
>)
    ensures
        sign_begin_post(secret_key@, sk_len, sig_max, r),
{
    match validate_length(secret_key, sk_len, "secret key") {
        Err(e) => Err(e),
        Ok(()) => Ok(zero_vec(sig_max)),
    }
}

/// Map a signing status code and the backend-reported signature length
/// to the typed result, truncating the buffer to the actual length.
pub(crate) fn sign_finish(code: i32, signature: Vec<u8>, signature_len: usize) -> (r: PqcResult<
    Vec<u8>,
>)
    ensures
        sign_finish_post(code, signature@, signature_len, r),
{
    if code != 0 {
        Err(PqcError::Signing(code))
    } else {
        let mut sig = signature;
        sig.truncate(signature_len);
        Ok(sig)
    }
}

/// Size invariant: whenever a keypair operation succeeds, the returned
/// public and secret keys have exactly the variant's byte lengths.
pub proof fn lemma_keypair_size_invariant(
    code: i32,
    public_key: Vec<u8>,
    secret_key: Vec<u8>,
    pk_len: usize,
    sk_len: usize,
    r: PqcResult<(Vec<u8>, Vec<u8>)>,
)
    requires
        public_key@.len() == pk_len,
        secret_key@.len() == sk_len,
        keypair_finish_post(code, public_key, secret_key, r),
        r is Ok,
    ensures
        r matches Ok(kp) ==> (kp.0@.len() == pk_len && kp.1@.len() == sk_len),
{
}

/// Validation boundary: a public key one byte shorter than the required
/// length makes encapsulation fail with an invalid-size error naming
/// both lengths; the backend entry point is invoked only after this
/// step succeeds, so it is never reached.
pub proof fn lemma_validation_boundary(
    public_key: Seq<u8>,
    pk_len: usize,
    ct_len: usize,
    ss_len: usize,
    r: PqcResult<(Vec<u8>, Vec<u8>)>,
)
    requires
        pk_len >= 1,
        public_key.len() == pk_len - 1,
        encapsulate_begin_post(public_key, pk_len, ct_len, ss_len, r),
    ensures
        r == Err::<(Vec<u8>, Vec<u8>), PqcError>(
            PqcError::InvalidKeySize { expected: pk_len, actual: (pk_len - 1) as usize },
        ),
{
}

/// Cross-variant rejection: a public key whose exact length belongs to
/// a different variant is rejected by this variant's encapsulation with
/// an invalid-size error naming both lengths.
pub proof fn lemma_cross_variant_rejection(
    public_key: Seq<u8>,
    own_len: usize,
    other_len: usize,
    ct_len: usize,
    ss_len: usize,
    r: PqcResult<(Vec<u8>, Vec<u8>)>,
)
    requires
        public_key.len() == own_len,
        own_len != other_len,
        encapsulate_begin_post(public_key, other_len, ct_len, ss_len, r),
    ensures
        r == Err::<(Vec<u8>, Vec<u8>), PqcError>(
            PqcError::InvalidKeySize { expected: other_len, actual: own_len },
        ),
{
}

/// The library preserves backend outputs bit-for-bit: when an
/// encapsulation and a decapsulation both finish with code `0` and the
/// backend filled their shared-secret buffers identically, the shared
/// secrets the library returns are identical as well.
pub proof fn lemma_kem_round_trip_preserved(
    enc_code: i32,
    ciphertext: Vec<u8>,
    ss_enc: Vec<u8>,
    dec_code: i32,
    ss_dec: Vec<u8>,
    r_enc: PqcResult<(Vec<u8>, Vec<u8>)>,
    r_dec: PqcResult<Vec<u8>>,
)
    requires
        enc_code == 0,
        dec_code == 0,
        ss_dec@ == ss_enc@,
        encapsulate_finish_post(enc_code, ciphertext, ss_enc, r_enc),
        decapsulate_finish_post(dec_code, ss_dec, r_dec),
    ensures
        r_enc matches Ok(e) ==> (r_dec matches Ok(d) && d@ == e.1@),
{
}

/// The library preserves a successful signature round trip: when the
/// backend signs with code `0` and verifies the result with code `0`,
/// the library returns the signature (truncated to the reported length)
/// and reports the verification as `true`. That the backend accepts the
/// signatures it produced is the backend's own guarantee; this states
/// that the wrapper neither loses nor distorts it.
pub proof fn lemma_signature_round_trip_preserved(
    sign_code: i32,
    signature: Seq<u8>,
    signature_len: usize,
    r_sign: PqcResult<Vec<u8>>,
    verify_code: i32,
    r_verify: PqcResult<bool>,
)
    requires
        sign_code == 0,
        verify_code == 0,
        signature_len <= signature.len(),
        sign_finish_post(sign_code, signature, signature_len, r_sign),
        verify_finish_post(verify_code, r_verify),
    ensures
        r_sign matches Ok(s) && s@ == signature.subrange(0, signature_len as int),
        r_verify == Ok::<bool, PqcError>(true),
{
}

/// Verification never errors: whatever status code the backend
/// verification entry point returns, the call succeeds, with `true`
/// exactly on the success sentinel `0` and `false` on every nonzero
/// code.
pub proof fn lemma_verification_never_errors(code: i32, r: PqcResult<bool>)
    requires
        verify_finish_post(code, r),
    ensures
        r is Ok,
        code != 0 ==> r == Ok::<bool, PqcError>(false),
        code == 0 ==> r == Ok::<bool, PqcError>(true),
{
}

} // verus!
