use pqchub::{Dilithium2, Dilithium3, Dilithium5, PqcError};

fn available() -> Result<String, PqcError> {
    Ok(String::from("bins/linux-x86_64/libpqc.so"))
}

#[test]
fn test_dilithium2_sizes() {
    let dilithium = Dilithium2::new(available()).unwrap();
    let (pk, sk) = dilithium.begin_keypair();
    assert_eq!(pk.len(), Dilithium2::PUBLIC_KEY_BYTES);
    assert_eq!(sk.len(), Dilithium2::SECRET_KEY_BYTES);
    assert!(pk.iter().all(|&b| b == 0));
    assert!(sk.iter().all(|&b| b == 0));
    let (pk, sk) = dilithium.finish_keypair(0, pk, sk).unwrap();
    assert_eq!(pk.len(), Dilithium2::PUBLIC_KEY_BYTES);
    assert_eq!(sk.len(), Dilithium2::SECRET_KEY_BYTES);
    let sig = dilithium.begin_sign(&sk).unwrap();
    assert_eq!(sig.len(), Dilithium2::SIGNATURE_BYTES);
    assert!(dilithium.begin_verify(&pk).is_ok());
}

#[test]
fn test_dilithium3_sizes() {
    let dilithium = Dilithium3::new(available()).unwrap();
    let (pk, sk) = dilithium.begin_keypair();
    assert_eq!(pk.len(), Dilithium3::PUBLIC_KEY_BYTES);
    assert_eq!(sk.len(), Dilithium3::SECRET_KEY_BYTES);
    let sig = dilithium.begin_sign(&sk).unwrap();
    assert_eq!(sig.len(), Dilithium3::SIGNATURE_BYTES);
    assert!(dilithium.begin_verify(&pk).is_ok());
}

#[test]
fn test_dilithium5_sizes() {
    let dilithium = Dilithium5::new(available()).unwrap();
    let (pk, sk) = dilithium.begin_keypair();
    assert_eq!(pk.len(), Dilithium5::PUBLIC_KEY_BYTES);
    assert_eq!(sk.len(), Dilithium5::SECRET_KEY_BYTES);
    let sig = dilithium.begin_sign(&sk).unwrap();
    assert_eq!(sig.len(), Dilithium5::SIGNATURE_BYTES);
    assert!(dilithium.begin_verify(&pk).is_ok());
}

#[test]
fn test_sign_truncates_to_reported_length() {
    let dilithium = Dilithium2::new(available()).unwrap();
    // Simulate the backend having filled the signature buffer.
    let sig: Vec<u8> = (0..Dilithium2::SIGNATURE_BYTES).map(|i| (i % 253) as u8).collect();
    let out = dilithium.finish_sign(0, sig.clone(), 10).unwrap();
    assert_eq!(out.len(), 10);
    assert_eq!(out, sig[..10].to_vec());
    // The full buffer comes back when the backend used all of it.
    let out = dilithium.finish_sign(0, sig.clone(), Dilithium2::SIGNATURE_BYTES).unwrap();
    assert_eq!(out, sig);
    // A reported length beyond the buffer leaves the buffer unchanged.
    let out = dilithium.finish_sign(0, sig.clone(), Dilithium2::SIGNATURE_BYTES + 100).unwrap();
    assert_eq!(out, sig);
}

#[test]
fn test_sign_nonzero_code_is_signing_error() {
    let dilithium = Dilithium3::new(available()).unwrap();
    let sig = vec![0u8; Dilithium3::SIGNATURE_BYTES];
    assert_eq!(
        dilithium.finish_sign(7, sig, 100).unwrap_err(),
        PqcError::Signing(7)
    );
}

#[test]
fn test_begin_sign_validates_secret_key() {
    let dilithium = Dilithium2::new(available()).unwrap();
    let sk = vec![0u8; Dilithium2::SECRET_KEY_BYTES - 1];
    assert_eq!(
        dilithium.begin_sign(&sk).unwrap_err(),
        PqcError::InvalidKeySize { expected: 2528, actual: 2527 }
    );
}

#[test]
fn test_verify_maps_codes_to_bool_never_error() {
    let dilithium = Dilithium2::new(available()).unwrap();
    assert_eq!(dilithium.finish_verify(0).unwrap(), true);
    assert_eq!(dilithium.finish_verify(-1).unwrap(), false);
    assert_eq!(dilithium.finish_verify(1).unwrap(), false);
    assert_eq!(dilithium.finish_verify(12345).unwrap(), false);
    let dilithium3 = Dilithium3::new(available()).unwrap();
    assert_eq!(dilithium3.finish_verify(-1).unwrap(), false);
    let dilithium5 = Dilithium5::new(available()).unwrap();
    assert_eq!(dilithium5.finish_verify(-1).unwrap(), false);
}

#[test]
fn test_begin_verify_validates_public_key() {
    let dilithium = Dilithium5::new(available()).unwrap();
    let pk = vec![0u8; Dilithium5::PUBLIC_KEY_BYTES + 1];
    assert_eq!(
        dilithium.begin_verify(&pk).unwrap_err(),
        PqcError::InvalidKeySize { expected: 2592, actual: 2593 }
    );
}

#[test]
fn test_signature_construction_propagates_resolution_failure() {
    let unsupported = PqcError::UnsupportedPlatform(String::from("solaris"));
    assert_eq!(
        Dilithium2::new(Err(unsupported.clone())).unwrap_err(),
        unsupported
    );
    assert!(Dilithium3::new(Err(unsupported.clone())).is_err());
    assert!(Dilithium5::new(Err(unsupported)).is_err());
    assert!(Dilithium2::new(available()).is_ok());
}
