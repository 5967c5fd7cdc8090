//! Where the renderer may be installed, and how output paths are formed.

use vstd::prelude::*;
use vstd::string::*;
use crate::platform::Os;
use crate::text::{decimal, decimal_text, opt_text, push_text, texts_view};

verus! {

/// The separator `join_path` puts between a directory and a name.
pub open spec fn separator(os: Os) -> char {
    if os == Os::Windows { '\\' } else { '/' }
}

/// Whether a character ends a path component on the given system.
pub open spec fn is_separator(os: Os, c: char) -> bool {
    c == '/' || (os == Os::Windows && c == '\\')
}

/// A relative name appended to a directory: a separator goes between them
/// unless the directory is empty or already ends with one.
pub open spec fn joined_path(os: Os, base: Seq<char>, name: Seq<char>) -> Seq<char> {
    if base.len() == 0 || is_separator(os, base.last()) {
        base + name
    } else {
        base.push(separator(os)) + name
    }
}

/// Appends a relative name to a directory, as the given system writes paths.
pub fn join_path(os: Os, base: &str, name: &str) -> (r: String)
    ensures
        r@ == joined_path(os, base@, name@),
{
    let n = base.unicode_len();
    let b = String::from_str(base);
    if n == 0 {
        return b.concat(name);
    }
    let last = base.get_char(n - 1);
    if last == '/' || (os == Os::Windows && last == '\\') {
        b.concat(name)
    } else if os == Os::Windows {
        proof { reveal_strlit("\\"); }
        let r = b.concat("\\").concat(name);
        assert(r@ =~= joined_path(os, base@, name@));
        r
    } else {
        proof { reveal_strlit("/"); }
        let r = b.concat("/").concat(name);
        assert(r@ =~= joined_path(os, base@, name@));
        r
    }
}

/// What the search for the renderer reads from the environment.
pub struct SearchEnvironment {
    pub os: Os,
    /// The user's home directory: `USERPROFILE` on Windows, `HOME` elsewhere.
    pub home: Option<String>,
    /// The roaming application data directory (`APPDATA`), used on Windows.
    pub app_data: Option<String>,
    /// The `bin` directory beside npm's global package root, where the
    /// package manager reported one and it exists.
    pub npm_bin: Option<String>,
}

/// Candidates inside npm's global `bin` directory.
pub open spec fn npm_candidates(os: Os, npm_bin: Option<Seq<char>>) -> Seq<Seq<char>> {
    match npm_bin {
        None => seq![],
        Some(b) => if os == Os::Windows {
            seq![joined_path(os, b, "mmdc"@), joined_path(os, b, "mmdc.cmd"@)]
        } else {
            seq![joined_path(os, b, "mmdc"@)]
        },
    }
}

/// npm's folder under the user's roaming application data on Windows.
pub open spec fn roaming_npm(home: Seq<char>) -> Seq<char> {
    joined_path(
        Os::Windows,
        joined_path(Os::Windows, joined_path(Os::Windows, home, "AppData"@), "Roaming"@),
        "npm"@,
    )
}

pub open spec fn windows_candidates(home: Option<Seq<char>>, app_data: Option<Seq<char>>) -> Seq<
    Seq<char>,
> {
    let w = Os::Windows;
    let in_home = match home {
        Some(h) => seq![
            joined_path(w, roaming_npm(h), "mmdc.cmd"@),
            joined_path(w, roaming_npm(h), "mmdc"@),
        ],
        None => seq![],
    };
    let in_app_data = match app_data {
        Some(a) => seq![joined_path(w, joined_path(w, a, "npm"@), "mmdc.cmd"@)],
        None => seq![],
    };
    seq!["mmdc.cmd"@] + in_home + in_app_data
}

pub open spec fn linux_candidates(home: Option<Seq<char>>) -> Seq<Seq<char>> {
    let in_home = match home {
        Some(h) => seq![h + "/.npm-global/bin/mmdc"@, h + "/.local/bin/mmdc"@, h + "/bin/mmdc"@],
        None => seq![],
    };
    in_home + seq!["/usr/local/bin/mmdc"@, "/usr/bin/mmdc"@]
}

pub open spec fn macos_candidates(home: Option<Seq<char>>) -> Seq<Seq<char>> {
    let in_home = match home {
        Some(h) => seq![h + "/.npm-global/bin/mmdc"@, h + "/.local/bin/mmdc"@],
        None => seq![],
    };
    in_home + seq!["/usr/local/bin/mmdc"@, "/opt/homebrew/bin/mmdc"@]
}

/// Every place the renderer is looked for, most likely first: the bare
/// command name, then npm's global `bin` directory, then the system's usual
/// install directories.
pub open spec fn mmdc_candidates(env: SearchEnvironment) -> Seq<Seq<char>> {
    let home = opt_text(env.home);
    let fallback = match env.os {
        Os::Windows => windows_candidates(home, opt_text(env.app_data)),
        Os::Linux => linux_candidates(home),
        Os::MacOs => macos_candidates(home),
    };
    seq!["mmdc"@] + npm_candidates(env.os, opt_text(env.npm_bin)) + fallback
}

fn get_windows_mmdc_paths(home: &Option<String>, app_data: &Option<String>) -> (r: Vec<String>)
    ensures
        texts_view(r@) == windows_candidates(opt_text(*home), opt_text(*app_data)),
{
    let w = Os::Windows;
    let mut paths: Vec<String> = Vec::new();
    push_text(&mut paths, String::from_str("mmdc.cmd"));
    if let Some(h) = home {
        let app = join_path(w, h.as_str(), "AppData");
        let roaming = join_path(w, app.as_str(), "Roaming");
        let npm = join_path(w, roaming.as_str(), "npm");
        push_text(&mut paths, join_path(w, npm.as_str(), "mmdc.cmd"));
        push_text(&mut paths, join_path(w, npm.as_str(), "mmdc"));
    }
    if let Some(a) = app_data {
        let npm = join_path(w, a.as_str(), "npm");
        push_text(&mut paths, join_path(w, npm.as_str(), "mmdc.cmd"));
    }
    assert(texts_view(paths@) =~= windows_candidates(opt_text(*home), opt_text(*app_data)));
    paths
}

fn get_linux_mmdc_paths(home: &Option<String>) -> (r: Vec<String>)
    ensures
        texts_view(r@) == linux_candidates(opt_text(*home)),
{
    let mut paths: Vec<String> = Vec::new();
    if let Some(h) = home {
        push_text(&mut paths, h.clone().concat("/.npm-global/bin/mmdc"));
        push_text(&mut paths, h.clone().concat("/.local/bin/mmdc"));
        push_text(&mut paths, h.clone().concat("/bin/mmdc"));
    }
    push_text(&mut paths, String::from_str("/usr/local/bin/mmdc"));
    push_text(&mut paths, String::from_str("/usr/bin/mmdc"));
    assert(texts_view(paths@) =~= linux_candidates(opt_text(*home)));
    paths
}

fn get_macos_mmdc_paths(home: &Option<String>) -> (r: Vec<String>)
    ensures
        texts_view(r@) == macos_candidates(opt_text(*home)),
{
    let mut paths: Vec<String> = Vec::new();
    if let Some(h) = home {
        push_text(&mut paths, h.clone().concat("/.npm-global/bin/mmdc"));
        push_text(&mut paths, h.clone().concat("/.local/bin/mmdc"));
    }
    push_text(&mut paths, String::from_str("/usr/local/bin/mmdc"));
    push_text(&mut paths, String::from_str("/opt/homebrew/bin/mmdc"));
    assert(texts_view(paths@) =~= macos_candidates(opt_text(*home)));
    paths
}

/// Every place the renderer is looked for on the given environment, in the
/// order in which they are to be tried.
pub fn get_mmdc_paths(env: &SearchEnvironment) -> (r: Vec<String>)
    ensures
        texts_view(r@) == mmdc_candidates(*env),
{
    let mut paths: Vec<String> = Vec::new();
    push_text(&mut paths, String::from_str("mmdc"));
    if let Some(npm_bin) = &env.npm_bin {
        push_text(&mut paths, join_path(env.os, npm_bin.as_str(), "mmdc"));
        if env.os == Os::Windows {
            push_text(&mut paths, join_path(env.os, npm_bin.as_str(), "mmdc.cmd"));
        }
    }
    let ghost head = texts_view(paths@);
    assert(head =~= seq!["mmdc"@] + npm_candidates(env.os, opt_text(env.npm_bin)));
    let mut tail = match env.os {
        Os::Windows => get_windows_mmdc_paths(&env.home, &env.app_data),
        Os::Linux => get_linux_mmdc_paths(&env.home),
        Os::MacOs => get_macos_mmdc_paths(&env.home),
    };
    let ghost tail_view = texts_view(tail@);
    paths.append(&mut tail);
    assert(texts_view(paths@) =~= head + tail_view);
    paths
}

/// The name of an output file: the base name, the time stamp, the extension.
pub open spec fn output_file_name(filename: Seq<char>, extension: Seq<char>, timestamp: nat) -> Seq<
    char,
> {
    filename + "_"@ + decimal(timestamp) + "."@ + extension
}

/// A path in `base_dir` for an output file whose name carries a time stamp,
/// `<filename>_<timestamp>.<extension>`.
pub fn generate_output_path(
    os: Os,
    base_dir: &str,
    filename: &str,
    extension: &str,
    timestamp: u64,
) -> (r: String)
    ensures
        r@ == joined_path(os, base_dir@, output_file_name(filename@, extension@, timestamp as nat)),
{
    let stamp = decimal_text(timestamp);
    let name = String::from_str(filename).concat("_").concat(stamp.as_str()).concat(".").concat(
        extension,
    );
    join_path(os, base_dir, name.as_str())
}

/// The directories where a system keeps its own programs.
pub open spec fn system_binary_dirs(
    os: Os,
    system_root: Option<Seq<char>>,
    program_files: Option<Seq<char>>,
    program_files_x86: Option<Seq<char>>,
) -> Seq<Seq<char>> {
    match os {
        Os::Windows => {
            let root = match system_root {
                Some(s) => seq![joined_path(os, s, "System32"@)],
                None => seq![],
            };
            let pf = match program_files {
                Some(p) => seq![p],
                None => seq![],
            };
            let pf86 = match program_files_x86 {
                Some(p) => seq![p],
                None => seq![],
            };
            root + seq!["C:\\Windows\\System32"@] + pf + pf86
        },
        Os::Linux => seq![
            "/usr/local/bin"@,
            "/usr/bin"@,
            "/bin"@,
            "/usr/local/sbin"@,
            "/usr/sbin"@,
            "/sbin"@,
        ],
        Os::MacOs => seq![
            "/usr/local/bin"@,
            "/usr/bin"@,
            "/bin"@,
            "/usr/sbin"@,
            "/sbin"@,
            "/opt/homebrew/bin"@,
        ],
    }
}

/// The directories where a system keeps its own programs. On Windows they
/// come from `SYSTEMROOT`, `PROGRAMFILES` and `PROGRAMFILES(X86)`, which the
/// other systems do not read.
pub fn get_system_binary_paths(
    os: Os,
    system_root: &Option<String>,
    program_files: &Option<String>,
    program_files_x86: &Option<String>,
) -> (r: Vec<String>)
    ensures
        texts_view(r@) == system_binary_dirs(
            os,
            opt_text(*system_root),
            opt_text(*program_files),
            opt_text(*program_files_x86),
        ),
{
    let mut paths: Vec<String> = Vec::new();
    match os {
        Os::Windows => {
            if let Some(s) = system_root {
                push_text(&mut paths, join_path(os, s.as_str(), "System32"));
            }
            push_text(&mut paths, String::from_str("C:\\Windows\\System32"));
            if let Some(p) = program_files {
                push_text(&mut paths, p.clone());
            }
            if let Some(p) = program_files_x86 {
                push_text(&mut paths, p.clone());
            }
        },
        Os::Linux => {
            push_text(&mut paths, String::from_str("/usr/local/bin"));
            push_text(&mut paths, String::from_str("/usr/bin"));
            push_text(&mut paths, String::from_str("/bin"));
            push_text(&mut paths, String::from_str("/usr/local/sbin"));
            push_text(&mut paths, String::from_str("/usr/sbin"));
            push_text(&mut paths, String::from_str("/sbin"));
        },
        Os::MacOs => {
            push_text(&mut paths, String::from_str("/usr/local/bin"));
            push_text(&mut paths, String::from_str("/usr/bin"));
            push_text(&mut paths, String::from_str("/bin"));
            push_text(&mut paths, String::from_str("/usr/sbin"));
            push_text(&mut paths, String::from_str("/sbin"));
            push_text(&mut paths, String::from_str("/opt/homebrew/bin"));
        },
    }
    assert(texts_view(paths@) =~= system_binary_dirs(
        os,
        opt_text(*system_root),
        opt_text(*program_files),
        opt_text(*program_files_x86),
    ));
    paths
}

} // verus!
