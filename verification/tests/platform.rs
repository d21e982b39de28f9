use pqchub::{get_platform_info, locate_library, confirm_library_path, PqcError};

#[test]
fn test_platform_info() {
    let info = get_platform_info("linux", "x86_64", None);
    assert!(!info.system.is_empty());
    assert!(!info.architecture.is_empty());
    assert_eq!(info.system, "linux");
    assert_eq!(info.architecture, "x86_64");
    assert_eq!(info.binary_path, None);
}

#[test]
fn test_architecture_canonicalization() {
    assert_eq!(get_platform_info("windows", "x86_64", None).architecture, "x64");
    assert_eq!(get_platform_info("windows", "x86", None).architecture, "x86");
    assert_eq!(get_platform_info("macos", "aarch64", None).architecture, "arm64");
    assert_eq!(get_platform_info("macos", "x86_64", None).architecture, "x86_64");
    assert_eq!(get_platform_info("linux", "aarch64", None).architecture, "aarch64");
    // Unknown combinations keep their reported names.
    assert_eq!(get_platform_info("freebsd", "riscv64", None).architecture, "riscv64");
    assert_eq!(get_platform_info("freebsd", "riscv64", None).system, "freebsd");
}

#[test]
fn test_locate_library_linux() {
    let loc = locate_library("linux", "x86_64").unwrap();
    assert_eq!(loc.platform_dir, "linux-x86_64");
    assert_eq!(loc.library_name, "libpqc.so");
    assert_eq!(loc.relative_path, "bins/linux-x86_64/libpqc.so");
    let loc = locate_library("linux", "aarch64").unwrap();
    assert_eq!(loc.platform_dir, "linux-aarch64");
    assert_eq!(loc.relative_path, "bins/linux-aarch64/libpqc.so");
}

#[test]
fn test_locate_library_macos() {
    let loc = locate_library("macos", "arm64").unwrap();
    assert_eq!(loc.platform_dir, "macos-arm64");
    assert_eq!(loc.library_name, "libpqc.dylib");
    assert_eq!(loc.relative_path, "bins/macos-arm64/libpqc.dylib");
    let loc = locate_library("macos", "x86_64").unwrap();
    assert_eq!(loc.platform_dir, "macos-x86_64");
}

#[test]
fn test_locate_library_windows() {
    let loc = locate_library("windows", "x64").unwrap();
    assert_eq!(loc.platform_dir, "windows-x64");
    assert_eq!(loc.library_name, "pqc.dll");
    assert_eq!(loc.relative_path, "bins/windows-x64/pqc.dll");
    // The raw architecture name resolves to the same directory.
    let loc = locate_library("windows", "x86_64").unwrap();
    assert_eq!(loc.platform_dir, "windows-x64");
    let loc = locate_library("windows", "x86").unwrap();
    assert_eq!(loc.platform_dir, "windows-x86");
    assert_eq!(loc.relative_path, "bins/windows-x86/pqc.dll");
}

#[test]
fn test_locate_library_unsupported() {
    assert_eq!(
        locate_library("windows", "arm64").unwrap_err(),
        PqcError::UnsupportedPlatform(String::from("Windows architecture: arm64"))
    );
    assert_eq!(
        locate_library("solaris", "sparc").unwrap_err(),
        PqcError::UnsupportedPlatform(String::from("solaris"))
    );
}

#[test]
fn test_resolution_idempotent() {
    // Two successive resolutions with the same inputs return identical
    // descriptors.
    let a = get_platform_info("linux", "x86_64", Some(String::from("bins/linux-x86_64/libpqc.so")));
    let b = get_platform_info("linux", "x86_64", Some(String::from("bins/linux-x86_64/libpqc.so")));
    assert_eq!(a, b);
    let l1 = locate_library("macos", "arm64").unwrap();
    let l2 = locate_library("macos", "arm64").unwrap();
    assert_eq!(l1, l2);
    let e1 = locate_library("windows", "mips").unwrap_err();
    let e2 = locate_library("windows", "mips").unwrap_err();
    assert_eq!(e1, e2);
}

#[test]
fn test_confirm_library_path() {
    let path = String::from("bins/linux-x86_64/libpqc.so");
    assert_eq!(
        confirm_library_path("linux-x86_64", path.clone(), true).unwrap(),
        path
    );
    assert_eq!(
        confirm_library_path("linux-x86_64", path, false).unwrap_err(),
        PqcError::LibraryNotFound(String::from(
            "Binary not found for platform linux-x86_64: bins/linux-x86_64/libpqc.so"
        ))
    );
}
