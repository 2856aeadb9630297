//! Platform-specific npm packages that ship the language server.
use vstd::prelude::*;

verus! {

/// The operating system that the host runs on.
#[derive(Clone, Copy, Debug, PartialEq, Eq, Structural)]
pub enum Os {
    Mac,
    Linux,
    Windows,
}

/// The processor architecture that the host runs on.
#[derive(Clone, Copy, Debug, PartialEq, Eq, Structural)]
pub enum Architecture {
    Aarch64,
    X86,
    X8664,
}

/// The platform name that npm packages use for an operating system.
pub open spec fn os_label(os: Os) -> Seq<char> {
    match os {
        Os::Mac => "darwin"@,
        Os::Linux => "linux"@,
        Os::Windows => "win32"@,
    }
}

/// The architecture name that npm packages use, where the server is built for it.
pub open spec fn arch_label(arch: Architecture) -> Option<Seq<char>> {
    match arch {
        Architecture::Aarch64 => Some("arm64"@),
        Architecture::X8664 => Some("x64"@),
        Architecture::X86 => None,
    }
}

/// Linux builds are the ones linked against glibc.
pub open spec fn libc_suffix(os: Os) -> Seq<char> {
    match os {
        Os::Linux => "-gnu"@,
        _ => Seq::empty(),
    }
}

/// How the host's own type prints an architecture in a message.
pub open spec fn arch_debug_label(arch: Architecture) -> Seq<char> {
    match arch {
        Architecture::Aarch64 => "Architecture::Aarch64"@,
        Architecture::X86 => "Architecture::X86"@,
        Architecture::X8664 => "Architecture::X8664"@,
    }
}

/// The package for a platform, or the message that says none exists.
pub open spec fn spec_package_name(os: Os, arch: Architecture) -> Result<Seq<char>, Seq<char>> {
    match arch_label(arch) {
        Some(a) => Ok("@oxlint/"@ + os_label(os) + "-"@ + a + libc_suffix(os)),
        None => Err("unsupported architecture: "@ + arch_debug_label(arch)),
    }
}

/// The view of a result of strings.
pub open spec fn result_view(r: Result<String, String>) -> Result<Seq<char>, Seq<char>> {
    match r {
        Ok(s) => Ok(s@),
        Err(e) => Err(e@),
    }
}

fn os_str(os: Os) -> (r: &'static str)
    ensures
        r@ == os_label(os),
{
    match os {
        Os::Mac => "darwin",
        Os::Linux => "linux",
        Os::Windows => "win32",
    }
}

fn libc_str(os: Os) -> (r: &'static str)
    ensures
        r@ == libc_suffix(os),
{
    match os {
        Os::Linux => "-gnu",
        _ => {
            proof {
                reveal_strlit("");
            }
            ""
        },
    }
}

fn arch_debug_str(arch: Architecture) -> (r: &'static str)
    ensures
        r@ == arch_debug_label(arch),
{
    match arch {
        Architecture::Aarch64 => "Architecture::Aarch64",
        Architecture::X86 => "Architecture::X86",
        Architecture::X8664 => "Architecture::X8664",
    }
}

/// The npm package that holds the language server built for `os` and `arch`,
/// such as `@oxlint/linux-x64-gnu`; 32-bit x86 has no such package.
pub fn package_name(os: Os, arch: Architecture) -> (r: Result<String, String>)
    ensures
        result_view(r) == spec_package_name(os, arch),
        r is Ok <==> arch != Architecture::X86,
{
    let a: &str = match arch {
        Architecture::Aarch64 => "arm64",
        Architecture::X8664 => "x64",
        Architecture::X86 => {
            let mut msg = "unsupported architecture: ".to_owned();
            msg.append(arch_debug_str(arch));
            return Err(msg);
        },
    };
    let mut name = "@oxlint/".to_owned();
    name.append(os_str(os));
    name.append("-");
    name.append(a);
    name.append(libc_str(os));
    Ok(name)
}

} // verus!
