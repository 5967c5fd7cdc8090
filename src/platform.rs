//! The operating systems the application knows, and what differs between them.

use vstd::prelude::*;
use crate::text::str_equal;

verus! {

/// An operating system the renderer can be looked for on.
#[derive(Clone, Copy, Debug, PartialEq, Eq, Structural)]
pub enum Os {
    Windows,
    Linux,
    MacOs,
}

impl Os {
    /// The name the standard library gives the system (`std::env::consts::OS`).
    pub open spec fn spec_name(self) -> Seq<char> {
        match self {
            Os::Windows => "windows"@,
            Os::Linux => "linux"@,
            Os::MacOs => "macos"@,
        }
    }

    pub fn name(&self) -> (r: &'static str)
        ensures
            r@ == self.spec_name(),
    {
        match self {
            Os::Windows => "windows",
            Os::Linux => "linux",
            Os::MacOs => "macos",
        }
    }

    /// The system with the given name, if it is one of the known three.
    pub fn from_name(name: &str) -> (r: Option<Os>)
        ensures
            r matches Some(os) ==> os.spec_name() == name@,
            r is None ==> forall|os: Os| os.spec_name() != name@,
    {
        if str_equal(name, "windows") {
            Some(Os::Windows)
        } else if str_equal(name, "linux") {
            Some(Os::Linux)
        } else if str_equal(name, "macos") {
            Some(Os::MacOs)
        } else {
            None
        }
    }
}

/// The system the application runs on.
pub struct PlatformInfo {
    pub os: String,
    pub arch: String,
    pub is_windows: bool,
    pub is_linux: bool,
    pub is_macos: bool,
}

impl PlatformInfo {
    /// Describes a system and processor architecture; exactly one of the
    /// three flags is set.
    pub fn new(os: Os, arch: &str) -> (r: PlatformInfo)
        ensures
            r.os@ == os.spec_name(),
            r.arch@ == arch@,
            r.is_windows == (os == Os::Windows),
            r.is_linux == (os == Os::Linux),
            r.is_macos == (os == Os::MacOs),
    {
        PlatformInfo {
            os: String::from_str(os.name()),
            arch: String::from_str(arch),
            is_windows: os == Os::Windows,
            is_linux: os == Os::Linux,
            is_macos: os == Os::MacOs,
        }
    }
}

/// The characters of each text of a sequence of string slices.
pub open spec fn strs_view(v: Seq<&str>) -> Seq<Seq<char>> {
    v.map_values(|s: &str| s@)
}

/// The extension of native executables.
pub fn get_executable_extension(os: Os) -> (r: &'static str)
    ensures
        r@ == (if os == Os::Windows { ".exe"@ } else { ""@ }),
{
    if os == Os::Windows {
        ".exe"
    } else {
        ""
    }
}

/// The extensions of shell scripts that can be run directly.
pub fn get_script_extensions(os: Os) -> (r: Vec<&'static str>)
    ensures
        strs_view(r@) == (if os == Os::Windows {
            seq![".cmd"@, ".bat"@, ".ps1"@]
        } else {
            seq![".sh"@]
        }),
{
    let r = if os == Os::Windows {
        vec![".cmd", ".bat", ".ps1"]
    } else {
        vec![".sh"]
    };
    assert(strs_view(r@) =~= (if os == Os::Windows {
        seq![".cmd"@, ".bat"@, ".ps1"@]
    } else {
        seq![".sh"@]
    }));
    r
}

/// The separator between the entries of a search path.
pub fn get_path_separator(os: Os) -> (r: char)
    ensures
        r == (if os == Os::Windows { ';' } else { ':' }),
{
    if os == Os::Windows {
        ';'
    } else {
        ':'
    }
}

/// The name under which the npm package manager is started.
pub fn get_npm_binary_name(os: Os) -> (r: &'static str)
    ensures
        r@ == (if os == Os::Windows { "npm.cmd"@ } else { "npm"@ }),
{
    if os == Os::Windows {
        "npm.cmd"
    } else {
        "npm"
    }
}

/// The name under which the Node.js runtime is started.
pub fn get_node_binary_name(os: Os) -> (r: &'static str)
    ensures
        r@ == (if os == Os::Windows { "node.exe"@ } else { "node"@ }),
{
    if os == Os::Windows {
        "node.exe"
    } else {
        "node"
    }
}

/// The file extensions under which diagram sources are saved.
pub fn get_mermaid_file_extensions() -> (r: Vec<&'static str>)
    ensures
        strs_view(r@) == seq![".mmd"@, ".mermaid"@, ".md"@],
{
    let r = vec![".mmd", ".mermaid", ".md"];
    assert(strs_view(r@) =~= seq![".mmd"@, ".mermaid"@, ".md"@]);
    r
}

/// The shell and the argument that makes it run one command line.
pub fn get_shell_command(os: Os) -> (r: (&'static str, Vec<&'static str>))
    ensures
        r.0@ == (if os == Os::Windows { "cmd"@ } else { "sh"@ }),
        strs_view(r.1@) == (if os == Os::Windows { seq!["/C"@] } else { seq!["-c"@] }),
{
    let r = if os == Os::Windows {
        ("cmd", vec!["/C"])
    } else {
        ("sh", vec!["-c"])
    };
    assert(strs_view(r.1@) =~= (if os == Os::Windows { seq!["/C"@] } else { seq!["-c"@] }));
    r
}

} // verus!
