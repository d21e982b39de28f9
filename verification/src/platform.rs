//! Platform resolution: maps the running operating system and CPU
//! architecture to a canonical platform identifier and the expected
//! location of the native backend library.
//!
//! Everything here is a pure function of its arguments. The caller
//! supplies the operating-system and architecture names and the outcome
//! of the (read-only) filesystem existence probe; the functions compute
//! the canonical descriptor, the candidate library path, and the typed
//! error when the combination is unsupported or the library is absent.

use vstd::prelude::*;
use vstd::string::StringExecFns;
use crate::errors::{PqcError, PqcResult};

verus! {

/// Platform information
#[derive(Debug, Clone, PartialEq, Eq)]
pub struct PlatformInfo {
    pub system: String,
    pub architecture: String,
    pub binary_path: Option<String>,
}

/// The resolved location of the native backend library, relative to the
/// package root: a platform directory, an OS-conventional file name, and
/// the combined relative path.
#[derive(Debug, Clone, PartialEq, Eq)]
pub struct LibraryLocation {
    pub platform_dir: String,
    pub library_name: String,
    pub relative_path: String,
}

/// The canonical architecture name for a given operating system:
/// Windows calls the 64-bit x86 architecture "x64" and macOS calls
/// 64-bit ARM "arm64"; every other combination keeps its reported name.
pub open spec fn canonical_architecture(os: Seq<char>, arch: Seq<char>) -> Seq<char> {
    if os == "windows"@ && arch == "x86_64"@ {
        "x64"@
    } else if os == "macos"@ && arch == "aarch64"@ {
        "arm64"@
    } else {
        arch
    }
}

/// What a platform descriptor computed for the given inputs must hold.
pub open spec fn platform_info_post(
    os: Seq<char>,
    arch: Seq<char>,
    binary_path: Option<String>,
    info: PlatformInfo,
) -> bool {
    &&& info.system@ == os
    &&& info.architecture@ == canonical_architecture(os, arch)
    &&& info.binary_path == binary_path
}

/// The directory, keyed by canonical platform identifier, under which
/// the backend library for the given system and architecture lives;
/// `None` when the combination is unsupported.
pub open spec fn platform_directory(system: Seq<char>, arch: Seq<char>) -> Option<Seq<char>> {
    if system == "macos"@ {
        Some("macos-"@ + arch)
    } else if system == "windows"@ {
        if arch == "x86_64"@ || arch == "x64"@ {
            Some("windows-x64"@)
        } else if arch == "x86"@ {
            Some("windows-x86"@)
        } else {
            None
        }
    } else if system == "linux"@ {
        Some("linux-"@ + arch)
    } else {
        None
    }
}

/// The OS-conventional file name of the backend shared library.
pub open spec fn library_file_name(system: Seq<char>) -> Seq<char> {
    if system == "windows"@ {
        "pqc.dll"@
    } else if system == "macos"@ {
        "libpqc.dylib"@
    } else {
        "libpqc.so"@
    }
}

/// The description carried by `UnsupportedPlatform` for the given inputs.
pub open spec fn unsupported_platform_message(system: Seq<char>, arch: Seq<char>) -> Seq<char> {
    if system == "windows"@ {
        "Windows architecture: "@ + arch
    } else {
        system
    }
}

/// What a library-location lookup for the given inputs must return:
/// the resolved directory, file name and relative path when the
/// platform is supported, `UnsupportedPlatform` otherwise.
pub open spec fn locate_library_post(
    system: Seq<char>,
    arch: Seq<char>,
    r: Result<LibraryLocation, PqcError>,
) -> bool {
    match platform_directory(system, arch) {
        Some(dir) => {
            &&& r matches Ok(loc)
            &&& loc.platform_dir@ == dir
            &&& loc.library_name@ == library_file_name(system)
            &&& loc.relative_path@ == "bins/"@ + dir + "/"@ + library_file_name(system)
        },
        None => {
            &&& r matches Err(e)
            &&& e matches PqcError::UnsupportedPlatform(m)
            &&& m@ == unsupported_platform_message(system, arch)
        },
    }
}

/// The message carried by `LibraryNotFound` when the probe at `path`
/// (inside `platform_dir`) found nothing.
pub open spec fn not_found_message(platform_dir: Seq<char>, path: Seq<char>) -> Seq<char> {
    "Binary not found for platform "@ + platform_dir + ": "@ + path
}

/// String equality by contents.
fn str_eq(a: &str, b: &str) -> (r: bool)
    ensures
        r == (a@ == b@),
{
    let x: String = a.to_owned();
    let y: String = b.to_owned();
    x == y
}

/// Get current platform information.
///
/// The operating-system and architecture names and the probed binary
/// path are taken as arguments; the descriptor is a pure function of
/// them, so resolution is idempotent and side-effect-free.
pub fn get_platform_info(os: &str, arch: &str, binary_path: Option<String>) -> (info: PlatformInfo)
    ensures
        platform_info_post(os@, arch@, binary_path, info),
{
    proof {
        reveal_strlit("windows");
        reveal_strlit("macos");
        assert("macos"@ != "windows"@) by {
            assert("macos"@.len() == 5);
            assert("windows"@.len() == 7);
        }
    }
    let architecture: String = if str_eq(os, "windows") {
        if str_eq(arch, "x86_64") {
            "x64".to_owned()
        } else {
            arch.to_owned()
        }
    } else if str_eq(os, "macos") {
        if str_eq(arch, "aarch64") {
            "arm64".to_owned()
        } else {
            arch.to_owned()
        }
    } else {
        arch.to_owned()
    };
    PlatformInfo { system: os.to_owned(), architecture, binary_path }
}

/// Assemble a `LibraryLocation` from a resolved platform directory and
/// library file name.
fn build_location(platform_dir: String, library_name: &str) -> (loc: LibraryLocation)
    ensures
        loc.platform_dir@ == platform_dir@,
        loc.library_name@ == library_name@,
        loc.relative_path@ == "bins/"@ + platform_dir@ + "/"@ + library_name@,
{
    let mut relative_path: String = "bins/".to_owned();
    relative_path.append(platform_dir.as_str());
    relative_path.append("/");
    relative_path.append(library_name);
    LibraryLocation { platform_dir, library_name: library_name.to_owned(), relative_path }
}

/// Resolve where the backend library for the given platform must live,
/// relative to the package root.
///
/// Supported combinations yield the platform directory, the
/// OS-conventional library file name, and their combination
/// `bins/<platform_dir>/<library_name>`; unsupported ones fail with
/// `UnsupportedPlatform`.
pub fn locate_library(system: &str, architecture: &str) -> (r: PqcResult<LibraryLocation>)
    ensures
        locate_library_post(system@, architecture@, r),
{
    proof {
        reveal_strlit("macos");
        reveal_strlit("windows");
        reveal_strlit("linux");
    }
    if str_eq(system, "macos") {
        proof {
            assert("macos"@ != "windows"@) by {
                assert("macos"@.len() == 5);
                assert("windows"@.len() == 7);
            }
        }
        let mut dir: String = "macos-".to_owned();
        dir.append(architecture);
        Ok(build_location(dir, "libpqc.dylib"))
    } else if str_eq(system, "windows") {
        if str_eq(architecture, "x86_64") || str_eq(architecture, "x64") {
            Ok(build_location("windows-x64".to_owned(), "pqc.dll"))
        } else if str_eq(architecture, "x86") {
            Ok(build_location("windows-x86".to_owned(), "pqc.dll"))
        } else {
            let mut msg: String = "Windows architecture: ".to_owned();
            msg.append(architecture);
            Err(PqcError::UnsupportedPlatform(msg))
        }
    } else if str_eq(system, "linux") {
        proof {
            assert("linux"@ != "macos"@) by {
                assert("linux"@[0] == 'l');
                assert("macos"@[0] == 'm');
            }
            assert("linux"@ != "windows"@) by {
                assert("linux"@.len() == 5);
                assert("windows"@.len() == 7);
            }
        }
        let mut dir: String = "linux-".to_owned();
        dir.append(architecture);
        Ok(build_location(dir, "libpqc.so"))
    } else {
        Err(PqcError::UnsupportedPlatform(system.to_owned()))
    }
}

/// Turn the outcome of the read-only filesystem probe at the resolved
/// candidate path into a typed result: the path itself when the library
/// exists there, `LibraryNotFound` otherwise.
pub fn confirm_library_path(platform_dir: &str, path: String, exists: bool) -> (r: PqcResult<String>)
    ensures
        exists ==> r == Ok::<String, PqcError>(path),
        !exists ==> {
            &&& r matches Err(e)
            &&& e matches PqcError::LibraryNotFound(m)
            &&& m@ == not_found_message(platform_dir@, path@)
        },
{
    if exists {
        Ok(path)
    } else {
        let mut m: String = "Binary not found for platform ".to_owned();
        m.append(platform_dir);
        m.append(": ");
        m.append(path.as_str());
        Err(PqcError::LibraryNotFound(m))
    }
}

/// Platform resolution is idempotent: two platform descriptors computed
/// for the same operating system, architecture and probed binary path
/// agree on every field.
pub proof fn lemma_platform_resolution_idempotent(
    os: Seq<char>,
    arch: Seq<char>,
    binary_path: Option<String>,
    a: PlatformInfo,
    b: PlatformInfo,
)
    requires
        platform_info_post(os, arch, binary_path, a),
        platform_info_post(os, arch, binary_path, b),
    ensures
        a.system@ == b.system@,
        a.architecture@ == b.architecture@,
        a.binary_path == b.binary_path,
{
}

/// Library-location resolution is idempotent: two lookups for the same
/// system and architecture succeed or fail together, agree on every
/// resolved component, and carry the same error description.
pub proof fn lemma_locate_library_idempotent(
    system: Seq<char>,
    arch: Seq<char>,
    r1: Result<LibraryLocation, PqcError>,
    r2: Result<LibraryLocation, PqcError>,
)
    requires
        locate_library_post(system, arch, r1),
        locate_library_post(system, arch, r2),
    ensures
        r1 is Ok <==> r2 is Ok,
        r1 matches Ok(a) ==> (r2 matches Ok(b)
            && a.platform_dir@ == b.platform_dir@
            && a.library_name@ == b.library_name@
            && a.relative_path@ == b.relative_path@),
        r1 matches Err(e1) ==> (r2 matches Err(e2)
            && e1 matches PqcError::UnsupportedPlatform(m1)
            && e2 matches PqcError::UnsupportedPlatform(m2)
            && m1@ == m2@),
{
}

} // verus!
