use mermaid_gui::{
    Os, PlatformInfo, get_executable_extension, get_mermaid_file_extensions, get_node_binary_name,
    get_npm_binary_name, get_path_separator, get_script_extensions, get_shell_command,
    get_system_binary_paths,
};

const ALL: [Os; 3] = [Os::Windows, Os::Linux, Os::MacOs];

#[test]
fn test_platform_info() {
    for os in ALL {
        let info = PlatformInfo::new(os, "x86_64");
        assert!(!info.os.is_empty());
        assert!(!info.arch.is_empty());

        // Only one should be true
        let platform_count = [info.is_windows, info.is_linux, info.is_macos]
            .iter()
            .filter(|&&x| x)
            .count();
        assert_eq!(platform_count, 1);
    }
}

#[test]
fn test_binary_names() {
    for os in ALL {
        let npm = get_npm_binary_name(os);
        let node = get_node_binary_name(os);

        assert!(!npm.is_empty());
        assert!(!node.is_empty());

        if os == Os::Windows {
            assert!(npm.ends_with(".cmd"));
            assert!(node.ends_with(".exe"));
        }
    }
}

#[test]
fn test_file_extensions() {
    let extensions = get_mermaid_file_extensions();
    assert!(!extensions.is_empty());
    assert!(extensions.contains(&".mmd"));
}

#[test]
fn platform_info_records_names() {
    let info = PlatformInfo::new(Os::MacOs, "aarch64");
    assert_eq!(info.os, "macos");
    assert_eq!(info.arch, "aarch64");
    assert!(info.is_macos && !info.is_linux && !info.is_windows);
}

#[test]
fn os_names_round_trip() {
    for os in ALL {
        assert_eq!(Os::from_name(os.name()), Some(os));
    }
    assert_eq!(Os::from_name("linux"), Some(Os::Linux));
    assert_eq!(Os::from_name("freebsd"), None);
    assert_eq!(Os::from_name(""), None);
    assert_eq!(Os::from_name("Linux"), None);
}

#[test]
fn platform_specific_names() {
    assert_eq!(get_executable_extension(Os::Windows), ".exe");
    assert_eq!(get_executable_extension(Os::Linux), "");
    assert_eq!(get_script_extensions(Os::Windows), vec![".cmd", ".bat", ".ps1"]);
    assert_eq!(get_script_extensions(Os::MacOs), vec![".sh"]);
    assert_eq!(get_path_separator(Os::Windows), ';');
    assert_eq!(get_path_separator(Os::Linux), ':');
    assert_eq!(get_npm_binary_name(Os::Linux), "npm");
    assert_eq!(get_node_binary_name(Os::Windows), "node.exe");
    assert_eq!(get_shell_command(Os::Windows), ("cmd", vec!["/C"]));
    assert_eq!(get_shell_command(Os::Linux), ("sh", vec!["-c"]));
    assert_eq!(get_mermaid_file_extensions(), vec![".mmd", ".mermaid", ".md"]);
}

#[test]
fn system_binary_paths() {
    let linux = get_system_binary_paths(Os::Linux, &None, &None, &None);
    assert_eq!(
        linux,
        vec!["/usr/local/bin", "/usr/bin", "/bin", "/usr/local/sbin", "/usr/sbin", "/sbin"]
    );
    let mac = get_system_binary_paths(Os::MacOs, &Some("ignored".to_string()), &None, &None);
    assert_eq!(mac.len(), 6);
    assert_eq!(mac[5], "/opt/homebrew/bin");
    let windows = get_system_binary_paths(
        Os::Windows,
        &Some("C:\\Windows".to_string()),
        &Some("C:\\Program Files".to_string()),
        &None,
    );
    assert_eq!(
        windows,
        vec!["C:\\Windows\\System32", "C:\\Windows\\System32", "C:\\Program Files"]
    );
}
