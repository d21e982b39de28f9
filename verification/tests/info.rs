use pqchub::{get_info, get_platform_info, validate_length, PqcError, VERSION};

#[test]
fn test_get_info_record() {
    let platform = get_platform_info("linux", "x86_64", None);
    let info = get_info(
        platform,
        Some(String::from("PQClean 1.0")),
        Some(String::from("Kyber512,Kyber768,Kyber1024,Dilithium2,Dilithium3,Dilithium5")),
    );
    assert_eq!(info.version, "1.0.0");
    assert_eq!(info.version, VERSION);
    assert_eq!(info.platform.system, "linux");
    assert_eq!(info.platform.architecture, "x86_64");
    assert_eq!(info.library_version.as_deref(), Some("PQClean 1.0"));
    assert_eq!(
        info.backend_algorithms.as_deref(),
        Some("Kyber512,Kyber768,Kyber1024,Dilithium2,Dilithium3,Dilithium5")
    );
    assert_eq!(info.kem_algorithms, vec!["Kyber512", "Kyber768", "Kyber1024"]);
    assert_eq!(
        info.signature_algorithms,
        vec!["Dilithium2", "Dilithium3", "Dilithium5"]
    );
}

#[test]
fn test_get_info_absent_backend_values_stay_none() {
    let platform = get_platform_info("macos", "aarch64", None);
    let info = get_info(platform, None, None);
    assert_eq!(info.library_version, None);
    assert_eq!(info.backend_algorithms, None);
    assert_eq!(info.kem_algorithms.len(), 3);
    assert_eq!(info.signature_algorithms.len(), 3);
}

#[test]
fn test_validate_length_exact_match_only() {
    let data = vec![1u8, 2, 3, 4];
    assert!(validate_length(&data, 4, "data").is_ok());
    assert_eq!(
        validate_length(&data, 5, "data").unwrap_err(),
        PqcError::InvalidKeySize { expected: 5, actual: 4 }
    );
    assert_eq!(
        validate_length(&data, 3, "data").unwrap_err(),
        PqcError::InvalidKeySize { expected: 3, actual: 4 }
    );
    let empty: Vec<u8> = Vec::new();
    assert!(validate_length(&empty, 0, "empty").is_ok());
    assert_eq!(
        validate_length(&empty, 1, "empty").unwrap_err(),
        PqcError::InvalidKeySize { expected: 1, actual: 0 }
    );
}
