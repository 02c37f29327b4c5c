//! The platforms for which a release binary exists, and the name of each.

use vstd::prelude::*;

verus! {

/// Operating systems that the release table knows.
#[derive(Clone, Copy, Debug, PartialEq, Eq, Structural)]
pub enum Os {
    Linux,
    MacOs,
    Windows,
}

/// Processor architectures that the release table knows.
#[derive(Clone, Copy, Debug, PartialEq, Eq, Structural)]
pub enum Arch {
    X86_64,
    Arm64,
    Armv7,
}

impl Os {
    /// Whether files carry Unix permission bits on this system.
    pub open spec fn spec_is_unix(self) -> bool {
        self != Os::Windows
    }

    /// Whether a written binary must still be made executable.
    #[verifier::when_used_as_spec(spec_is_unix)]
    pub fn is_unix(self) -> (result: bool)
        ensures
            result == self.spec_is_unix(),
    {
        match self {
            Os::Windows => false,
            _ => true,
        }
    }
}

/// Whether a release binary exists for the platform.
pub open spec fn is_supported(os: Os, arch: Arch) -> bool {
    match (os, arch) {
        (Os::Linux, _) => true,
        (Os::MacOs, Arch::Arm64) => true,
        (Os::MacOs, Arch::X86_64) => true,
        (Os::Windows, Arch::X86_64) => true,
        _ => false,
    }
}

/// The release table: the file name of the binary for each supported platform.
pub open spec fn spec_binary_name(os: Os, arch: Arch) -> Option<Seq<char>> {
    match (os, arch) {
        (Os::Linux, Arch::Arm64) => Some("tailwindcss-linux-arm64"@),
        (Os::Linux, Arch::Armv7) => Some("tailwindcss-linux-armv7"@),
        (Os::Linux, Arch::X86_64) => Some("tailwindcss-linux-x64"@),
        (Os::MacOs, Arch::Arm64) => Some("tailwindcss-macos-arm64"@),
        (Os::MacOs, Arch::X86_64) => Some("tailwindcss-macos-x64"@),
        (Os::Windows, Arch::X86_64) => Some("tailwindcss-windows-x64.exe"@),
        _ => None,
    }
}

/// Looks the platform up in the release table.
pub fn binary_name(os: Os, arch: Arch) -> (result: Option<&'static str>)
    ensures
        result is Some <==> is_supported(os, arch),
        match result {
            Some(name) => spec_binary_name(os, arch) == Some(name@),
            None => spec_binary_name(os, arch) is None,
        },
{
    match (os, arch) {
        (Os::Linux, Arch::Arm64) => Some("tailwindcss-linux-arm64"),
        (Os::Linux, Arch::Armv7) => Some("tailwindcss-linux-armv7"),
        (Os::Linux, Arch::X86_64) => Some("tailwindcss-linux-x64"),
        (Os::MacOs, Arch::Arm64) => Some("tailwindcss-macos-arm64"),
        (Os::MacOs, Arch::X86_64) => Some("tailwindcss-macos-x64"),
        (Os::Windows, Arch::X86_64) => Some("tailwindcss-windows-x64.exe"),
        _ => None,
    }
}

/// Every supported platform has a name, and that name is not empty; an
/// unsupported platform has none.
pub proof fn law_supported_platforms_have_a_name(os: Os, arch: Arch)
    ensures
        is_supported(os, arch) <==> spec_binary_name(os, arch) is Some,
        spec_binary_name(os, arch) matches Some(name) ==> name.len() > 0,
{
    lemma_names_spelled_out();
}

/// No two platforms share a name: a name stands for exactly one platform.
pub proof fn law_names_tell_platforms_apart(os: Os, arch: Arch, other_os: Os, other_arch: Arch)
    requires
        is_supported(os, arch),
        spec_binary_name(os, arch) == spec_binary_name(other_os, other_arch),
    ensures
        os == other_os,
        arch == other_arch,
{
    lemma_names_spelled_out();
}

/// The length of each name in the release table, and the letters in which
/// names of one length differ.
pub(crate) proof fn lemma_names_spelled_out()
    ensures
        "tailwindcss-linux-arm64"@.len() == 23,
        "tailwindcss-linux-armv7"@.len() == 23,
        "tailwindcss-linux-x64"@.len() == 21,
        "tailwindcss-macos-arm64"@.len() == 23,
        "tailwindcss-macos-x64"@.len() == 21,
        "tailwindcss-windows-x64.exe"@.len() == 27,
        "tailwindcss-linux-arm64"@[12] == 'l' && "tailwindcss-linux-arm64"@[21] == '6',
        "tailwindcss-linux-armv7"@[12] == 'l' && "tailwindcss-linux-armv7"@[21] == 'v',
        "tailwindcss-macos-arm64"@[12] == 'm',
        "tailwindcss-linux-x64"@[12] == 'l',
        "tailwindcss-macos-x64"@[12] == 'm',
{
    reveal_strlit("tailwindcss-linux-arm64");
    reveal_strlit("tailwindcss-linux-armv7");
    reveal_strlit("tailwindcss-linux-x64");
    reveal_strlit("tailwindcss-macos-arm64");
    reveal_strlit("tailwindcss-macos-x64");
    reveal_strlit("tailwindcss-windows-x64.exe");
}

} // verus!
