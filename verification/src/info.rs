//! Library introspection: an aggregate, structured record of platform
//! and algorithm metadata.
//!
//! This is diagnostic, not operational, information: the backend's
//! version string and algorithm list are taken as they came (absent
//! values stay `None` rather than failing), and the record is assembled
//! as a pure function of them.

use vstd::prelude::*;
use crate::platform::PlatformInfo;
use crate::VERSION;

verus! {

/// A structured record of platform and algorithm metadata.
#[derive(Debug, Clone)]
pub struct LibraryInfo {
    /// This library's own version.
    pub version: String,
    /// The resolved platform descriptor.
    pub platform: PlatformInfo,
    /// The backend's version string, when the backend reported one.
    pub library_version: Option<String>,
    /// The backend's delimited algorithm list, when it reported one.
    pub backend_algorithms: Option<String>,
    /// The KEM variant names this wrapper exposes.
    pub kem_algorithms: Vec<String>,
    /// The signature variant names this wrapper exposes.
    pub signature_algorithms: Vec<String>,
}

/// Get comprehensive library information.
///
/// The platform descriptor and the backend's (possibly absent) version
/// and algorithm strings are taken as arguments and embedded unchanged;
/// the wrapper's own version and supported variant names are fixed.
pub fn get_info(
    platform: PlatformInfo,
    library_version: Option<String>,
    algorithms: Option<String>,
) -> (info: LibraryInfo)
    ensures
        info.version@ == VERSION@,
        info.platform == platform,
        info.library_version == library_version,
        info.backend_algorithms == algorithms,
        info.kem_algorithms@.len() == 3,
        info.kem_algorithms@[0]@ == "Kyber512"@,
        info.kem_algorithms@[1]@ == "Kyber768"@,
        info.kem_algorithms@[2]@ == "Kyber1024"@,
        info.signature_algorithms@.len() == 3,
        info.signature_algorithms@[0]@ == "Dilithium2"@,
        info.signature_algorithms@[1]@ == "Dilithium3"@,
        info.signature_algorithms@[2]@ == "Dilithium5"@,
{
    let mut kem_algorithms: Vec<String> = Vec::new();
    kem_algorithms.push("Kyber512".to_owned());
    kem_algorithms.push("Kyber768".to_owned());
    kem_algorithms.push("Kyber1024".to_owned());
    let mut signature_algorithms: Vec<String> = Vec::new();
    signature_algorithms.push("Dilithium2".to_owned());
    signature_algorithms.push("Dilithium3".to_owned());
    signature_algorithms.push("Dilithium5".to_owned());
    LibraryInfo {
        version: VERSION.to_owned(),
        platform,
        library_version,
        backend_algorithms: algorithms,
        kem_algorithms,
        signature_algorithms,
    }
}

} // verus!
