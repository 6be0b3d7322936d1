use vstd::prelude::*;
use vstd::string::StrSliceExecFns;

verus! {

/// Different common operating system types.
#[derive(Debug, PartialEq, Eq, Structural)]
pub enum OsType {
    /// Windows operating system.
    Windows,
    /// Linux operating system.
    Linux,
    /// MacOS operating system.
    Macos,
    /// Any other operating system not covered by the above.
    Unknown,
}

/// The operating system type of a compilation target, given what the target is:
/// windows wins, then a unix target is macos or else linux, anything else is unknown.
pub open spec fn spec_os_type(is_windows: bool, is_unix: bool, is_macos: bool) -> OsType {
    if is_windows {
        OsType::Windows
    } else if is_unix {
        if is_macos {
            OsType::Macos
        } else {
            OsType::Linux
        }
    } else {
        OsType::Unknown
    }
}

/// Returns the operating system type, given the compile time facts of the target
/// (`cfg!(windows)`, `cfg!(unix)`, `cfg!(target_os = "macos")`).
///
/// Note these are compile time facts,
/// meaning may not be accurate after compilation for cross-compilation.
pub fn os_type(is_windows: bool, is_unix: bool, is_macos: bool) -> (os: OsType)
    ensures
        os == spec_os_type(is_windows, is_unix, is_macos),
{
    if is_windows {
        OsType::Windows
    } else if is_unix {
        if is_macos {
            OsType::Macos
        } else {
            OsType::Linux
        }
    } else {
        OsType::Unknown
    }
}

/// Different common CPU architectures.
#[derive(Debug, PartialEq, Eq)]
pub enum Arch {
    /// 32-bit x86 architecture.
    X32,
    /// 64-bit x86 architecture.
    X64,
    /// Arm architecture.
    Arm,
    /// Any other architecture not covered by the above.
    Other(&'static str),
}

/// Whether two strings hold the same characters.
pub fn str_equal(a: &str, b: &str) -> (eq: bool)
    ensures
        eq == (a@ == b@),
{
    let n = a.unicode_len();
    if n != b.unicode_len() {
        return false;
    }
    let mut i: usize = 0;
    while i < n
        invariant
            n == a@.len(),
            n == b@.len(),
            i <= n,
            forall|j: int| 0 <= j < i ==> a@[j] == b@[j],
        decreases n - i,
    {
        if a.get_char(i) != b.get_char(i) {
            return false;
        }
        i = i + 1;
    }
    assert(a@ =~= b@);
    true
}

/// The architecture named by a target architecture string (as in `std::env::consts::ARCH`).
pub open spec fn spec_architecture_type(arch: &'static str) -> Arch {
    if arch@ == "x86"@ {
        Arch::X32
    } else if arch@ == "x86_64"@ {
        Arch::X64
    } else if arch@ == "arm"@ || arch@ == "aarch64"@ || arch@ == "arm64"@ {
        Arch::Arm
    } else {
        Arch::Other(arch)
    }
}

/// Returns the cpu architecture named by `arch`, the compile time architecture
/// string found in [`std::env::consts::ARCH`].
///
/// Note this is a compile time fact,
/// meaning may not be accurate after compilation for cross-compilation.
pub fn architecture_type(arch: &'static str) -> (a: Arch)
    ensures
        a == spec_architecture_type(arch),
{
    if str_equal(arch, "x86") {
        Arch::X32
    } else if str_equal(arch, "x86_64") {
        Arch::X64
    } else if str_equal(arch, "arm") || str_equal(arch, "aarch64") || str_equal(arch, "arm64") {
        Arch::Arm
    } else {
        Arch::Other(arch)
    }
}

} // verus!
