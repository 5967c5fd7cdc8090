use mermaid_gui::{
    Os, SearchEnvironment, decimal_text, generate_output_path, get_mmdc_paths, join_path,
    join_texts, str_equal,
};

#[test]
fn decimal_text_values() {
    assert_eq!(decimal_text(0), "0");
    assert_eq!(decimal_text(7), "7");
    assert_eq!(decimal_text(10), "10");
    assert_eq!(decimal_text(800), "800");
    assert_eq!(decimal_text(u64::MAX), "18446744073709551615");
}

#[test]
fn join_texts_values() {
    assert_eq!(join_texts(&vec![], "\n"), "");
    assert_eq!(join_texts(&vec!["a".to_string()], "\n"), "a");
    assert_eq!(join_texts(&vec!["a".to_string(), "b".to_string(), "c".to_string()], ", "), "a, b, c");
}

#[test]
fn str_equal_values() {
    assert!(str_equal("transparent", "transparent"));
    assert!(!str_equal("transparent", "Transparent"));
    assert!(!str_equal("ab", "abc"));
    assert!(str_equal("", ""));
}

#[test]
fn join_path_per_system() {
    assert_eq!(join_path(Os::Linux, "/home/ana", "bin"), "/home/ana/bin");
    assert_eq!(join_path(Os::Linux, "/home/ana/", "bin"), "/home/ana/bin");
    assert_eq!(join_path(Os::Linux, "", "bin"), "bin");
    assert_eq!(join_path(Os::Windows, "C:\\Users\\ana", "AppData"), "C:\\Users\\ana\\AppData");
    assert_eq!(join_path(Os::Windows, "C:\\Users\\ana\\", "AppData"), "C:\\Users\\ana\\AppData");
    assert_eq!(join_path(Os::Windows, "C:/tools/", "npm"), "C:/tools/npm");
    assert_eq!(join_path(Os::Linux, "C:\\x", "y"), "C:\\x/y");
}

#[test]
fn mmdc_paths_on_linux() {
    let env = SearchEnvironment {
        os: Os::Linux,
        home: Some("/home/ana".to_string()),
        app_data: None,
        npm_bin: Some("/usr/lib/bin".to_string()),
    };
    assert_eq!(
        get_mmdc_paths(&env),
        vec![
            "mmdc",
            "/usr/lib/bin/mmdc",
            "/home/ana/.npm-global/bin/mmdc",
            "/home/ana/.local/bin/mmdc",
            "/home/ana/bin/mmdc",
            "/usr/local/bin/mmdc",
            "/usr/bin/mmdc",
        ]
    );
}

#[test]
fn mmdc_paths_on_linux_without_home_or_npm() {
    let env = SearchEnvironment { os: Os::Linux, home: None, app_data: None, npm_bin: None };
    assert_eq!(get_mmdc_paths(&env), vec!["mmdc", "/usr/local/bin/mmdc", "/usr/bin/mmdc"]);
}

#[test]
fn mmdc_paths_on_macos() {
    let env = SearchEnvironment {
        os: Os::MacOs,
        home: Some("/Users/ana".to_string()),
        app_data: None,
        npm_bin: None,
    };
    assert_eq!(
        get_mmdc_paths(&env),
        vec![
            "mmdc",
            "/Users/ana/.npm-global/bin/mmdc",
            "/Users/ana/.local/bin/mmdc",
            "/usr/local/bin/mmdc",
            "/opt/homebrew/bin/mmdc",
        ]
    );
}

#[test]
fn mmdc_paths_on_windows() {
    let env = SearchEnvironment {
        os: Os::Windows,
        home: Some("C:\\Users\\ana".to_string()),
        app_data: Some("C:\\Users\\ana\\AppData\\Roaming".to_string()),
        npm_bin: Some("C:\\nodejs\\bin".to_string()),
    };
    assert_eq!(
        get_mmdc_paths(&env),
        vec![
            "mmdc",
            "C:\\nodejs\\bin\\mmdc",
            "C:\\nodejs\\bin\\mmdc.cmd",
            "mmdc.cmd",
            "C:\\Users\\ana\\AppData\\Roaming\\npm\\mmdc.cmd",
            "C:\\Users\\ana\\AppData\\Roaming\\npm\\mmdc",
            "C:\\Users\\ana\\AppData\\Roaming\\npm\\mmdc.cmd",
        ]
    );
}

#[test]
fn output_path_carries_time_stamp() {
    assert_eq!(
        generate_output_path(Os::Linux, "/tmp", "mermaid_diagram", "svg", 1700000000),
        "/tmp/mermaid_diagram_1700000000.svg"
    );
    assert_eq!(
        generate_output_path(Os::Windows, "C:\\Temp\\", "preview", "png", 0),
        "C:\\Temp\\preview_0.png"
    );
}
