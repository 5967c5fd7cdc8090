//! Backend of a desktop front-end for the Mermaid diagram renderer `mmdc`.
//!
//! The library decides everything that does not need the operating system:
//! where to look for the renderer, which executable to keep, the command line
//! of a rendering run, how a finished run becomes a result, the list of
//! recently used files and which directory entries are diagram sources.
//! Running processes, reading the environment and touching files is left to
//! the caller, which hands the library plain values.

pub mod files;
pub mod models;
pub mod paths;
pub mod platform;
pub mod service;
pub mod text;

pub use files::{FileService, PathKind, ScanAction, ScannedEntry, MAX_RECENT_FILES, scan_action};
pub use models::{
    BatchProcessOptions, DefaultDirectoriesInfo, DiagramFormat, DiagramOptions, DiagramResult,
    EnvVar, FileOperationResult, MermaidFile, RecentFile, SystemInfo,
};
pub use paths::{
    SearchEnvironment, generate_output_path, get_mmdc_paths, get_system_binary_paths, join_path,
};
pub use platform::{
    Os, PlatformInfo, get_executable_extension, get_mermaid_file_extensions, get_node_binary_name,
    get_npm_binary_name, get_path_separator, get_script_extensions, get_shell_command,
};
pub use service::{
    GenerationStep, MmdcService, ProcessReport, RunOutcome, build_args, find_mmdc_executable,
    finish_generation, next_probe, preview_options, style_preview,
};
pub use text::{decimal_text, join_texts, str_equal};
