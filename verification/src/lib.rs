//! Typed wrapper layer for post-quantum cryptographic primitives.
//!
//! The library exposes Key Encapsulation Mechanisms (Kyber512, Kyber768,
//! Kyber1024) and digital-signature schemes (Dilithium2, Dilithium3,
//! Dilithium5) backed by a pre-built native backend. All cryptographic
//! computation happens in that backend; this crate verifies everything
//! around it: buffer-size validation, buffer allocation, platform and
//! library-path resolution, and the mapping of native status codes to
//! typed errors. The native calls themselves live outside the library;
//! each operation is split into a `begin_*` step that validates inputs
//! and allocates exact-size output buffers, and a `finish_*` step that
//! turns the backend's status code and filled buffers into a typed
//! result.

use vstd::prelude::*;

pub mod backend;
pub mod dilithium;
pub mod errors;
pub mod info;
pub mod kyber;
pub mod platform;
pub mod validate;

pub use errors::{PqcError, PqcResult};
pub use dilithium::{Dilithium2, Dilithium3, Dilithium5, Dilithium};
pub use info::{LibraryInfo, get_info};
pub use kyber::{Kyber512, Kyber768, Kyber1024, Kyber};
pub use platform::{PlatformInfo, LibraryLocation, get_platform_info, locate_library,
    confirm_library_path};
pub use validate::validate_length;

verus! {

/// Library version
pub const VERSION: &'static str = "1.0.0";

} // verus!
